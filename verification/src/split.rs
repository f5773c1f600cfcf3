//! The split-socket assembly: one negotiated connection becomes a transmit
//! half and a receive half. Both halves hold the same guarded writer, so
//! either can acquire exclusive access to send; the reader is owned by the
//! receive half alone.

use vstd::prelude::*;
use futures::io::{ReadHalf, WriteHalf};
use futures::AsyncReadExt;
use std::sync::Arc;
use tokio::sync::Mutex;
use tokio_util::compat::{Compat, TokioAsyncReadCompatExt};
use vstd::pervasive::cloned;

verus! {

/// The readable half of a split stream, from the `futures` crate; opaque
/// here. It is never cloned: the receive half is its only owner.
#[verifier::external_type_specification]
#[verifier::external_body]
#[verifier::reject_recursive_types(T)]
pub struct ExReadHalf<T>(ReadHalf<T>);

/// The writable half of a split stream, from the `futures` crate; opaque
/// here. It sits behind the shared guard that both halves hold.
#[verifier::external_type_specification]
#[verifier::external_body]
#[verifier::reject_recursive_types(T)]
pub struct ExWriteHalf<T>(WriteHalf<T>);

/// The adapter from the `tokio-util` crate that lets a tokio stream be split
/// by the `futures` splitter; opaque here.
#[verifier::external_type_specification]
#[verifier::external_body]
#[verifier::reject_recursive_types(T)]
pub struct ExCompat<T>(Compat<T>);

/// The exclusive-access guard from the `tokio` crate around the shared
/// writer; opaque here. Acquiring it, writing a whole frame and releasing it
/// is what keeps concurrent sends from interleaving their bytes.
#[verifier::external_type_specification]
#[verifier::external_body]
#[verifier::reject_recursive_types(T)]
pub struct ExMutex<T: ?Sized>(Mutex<T>);

/// The guarded, shared writable stream end.
pub type Writer<S> = Arc<Mutex<WriteHalf<Compat<S>>>>;

/// The two halves of a split connection.
pub type SplitSocket<S, C, E> = (WebSocketTx<S, C, E>, WebSocketRx<S, C, E>);

/// Which side of the connection this is; fixed for its lifetime. A client
/// masks the frames it sends; a server does not.
#[derive(Clone, Copy, PartialEq, Eq, Structural, Debug)]
pub enum Role {
    Client,
    Server,
}

/// Connection configuration that both halves keep a copy of.
#[derive(Clone, Copy, PartialEq, Eq, Structural, Debug)]
pub struct WebSocketConfig {
    /// The largest message size the connection accepts.
    pub max_size: usize,
}

/// The extension state the handshake negotiated, if it negotiated one.
pub struct NegotiatedExtension<E>(pub Option<E>);

impl<E> Default for NegotiatedExtension<E> {
    /// No extension negotiated.
    fn default() -> (r: Self)
        ensures
            r.0 is None,
    {
        NegotiatedExtension(None)
    }
}

/// The receive half: sole owner of the readable stream end, and holder of a
/// second handle to the guarded writer so that it can send control replies
/// without going through the transmit half.
#[verifier::reject_recursive_types(S)]
pub struct WebSocketRx<S, C, E> {
    pub writer: Writer<S>,
    pub codec: C,
    pub reader: ReadHalf<Compat<S>>,
    pub role: Role,
    pub extension: NegotiatedExtension<E>,
    pub config: WebSocketConfig,
}

/// The transmit half: holds one handle to the guarded writer.
#[verifier::reject_recursive_types(S)]
pub struct WebSocketTx<S, C, E> {
    pub writer: Writer<S>,
    pub codec: C,
    pub role: Role,
    pub extension: NegotiatedExtension<E>,
    pub config: WebSocketConfig,
}

/// Relies on tokio's `Mutex::new`: wraps the writable stream end in a fresh
/// exclusive-access guard.
#[verifier::external_body]
fn new_writer_guard<S>(write_half: WriteHalf<Compat<S>>) -> Mutex<WriteHalf<Compat<S>>> {
    Mutex::new(write_half)
}

/// Relies on `Arc::clone`: the clone is a handle to the same allocation, so
/// it holds the very same guarded writer.
#[verifier::external_body]
fn share_writer<S>(writer: &Writer<S>) -> (r: Writer<S>)
    ensures
        r == *writer,
{
    Arc::clone(writer)
}

/// Relies on tokio-util's `compat` adapter and the `futures` splitter,
/// `AsyncReadExt::split`: turns the upgraded stream into an independently
/// owned readable half and writable half. A pure ownership split: no bytes
/// move.
#[verifier::external_body]
fn split_stream<S: tokio::io::AsyncRead + tokio::io::AsyncWrite + Unpin>(stream: S) -> (
    ReadHalf<Compat<S>>,
    WriteHalf<Compat<S>>,
) {
    stream.compat().split()
}

/// Splits an upgraded client stream, whose handshake has already completed,
/// and assembles the two connection halves from its ends.
pub fn client_socket<
    S: tokio::io::AsyncRead + tokio::io::AsyncWrite + Unpin,
    C: Clone,
    E: Clone,
>(
    stream: S,
    codec: C,
    extension: NegotiatedExtension<E>,
    config: WebSocketConfig,
) -> (r: SplitSocket<S, C, E>)
    ensures
        ({
            let (tx, rx) = r;
            &&& tx.writer == rx.writer
            &&& tx.role == Role::Client
            &&& rx.role == Role::Client
            &&& tx.config == config
            &&& rx.config == config
            &&& rx.codec == codec
            &&& cloned::<C>(codec, tx.codec)
            &&& rx.extension.0 == extension.0
            &&& (extension.0 is Some <==> tx.extension.0 is Some)
            &&& extension.0 is Some ==> cloned::<E>(extension.0->0, tx.extension.0->0)
        }),
{
    let (read_half, write_half) = split_stream(stream);
    split_socket(write_half, read_half, codec, extension, config)
}

/// Assembles the two halves of a client connection whose handshake has
/// already completed, from the split stream's two ends. The writable end goes
/// behind one shared exclusive-access guard that both halves hold; the
/// readable end moves into the receive half, its only owner; both halves keep
/// the client role, the configuration and the negotiated extension state.
pub fn split_socket<S, C: Clone, E: Clone>(
    write_half: WriteHalf<Compat<S>>,
    read_half: ReadHalf<Compat<S>>,
    codec: C,
    extension: NegotiatedExtension<E>,
    config: WebSocketConfig,
) -> (r: SplitSocket<S, C, E>)
    ensures
        ({
            let (tx, rx) = r;
            &&& tx.writer == rx.writer
            &&& tx.role == Role::Client
            &&& rx.role == Role::Client
            &&& tx.config == config
            &&& rx.config == config
            &&& rx.codec == codec
            &&& cloned::<C>(codec, tx.codec)
            &&& rx.extension.0 == extension.0
            &&& (extension.0 is Some <==> tx.extension.0 is Some)
            &&& extension.0 is Some ==> cloned::<E>(extension.0->0, tx.extension.0->0)
        }),
{
    let writer: Writer<S> = Arc::new(new_writer_guard(write_half));
    let tx_extension: NegotiatedExtension<E> = match &extension.0 {
        Some(e) => NegotiatedExtension(Some(e.clone())),
        None => NegotiatedExtension(None),
    };
    let tx = WebSocketTx {
        writer: share_writer(&writer),
        codec: codec.clone(),
        role: Role::Client,
        extension: tx_extension,
        config,
    };
    let rx = WebSocketRx {
        writer,
        codec,
        reader: read_half,
        role: Role::Client,
        extension,
        config,
    };
    (tx, rx)
}

} // verus!
