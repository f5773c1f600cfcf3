//! The frame codec: opcode classification, the masking transform, and the
//! serialization of a single frame into an output buffer.

use vstd::prelude::*;
use crate::protocol::{HeaderFlags, MASKED};
use bytes::BufMut;
use bytes::BytesMut;

verus! {

/// The frame writer's output buffer, from the `bytes` crate; opaque here, its
/// contents are tracked through `bytes_view`.
#[verifier::external_type_specification]
#[verifier::external_body]
pub struct ExBytesMut(BytesMut);

/// The bytes a `BytesMut` holds, oldest first.
pub uninterp spec fn bytes_view(buffer: BytesMut) -> Seq<u8>;

/// Relies on `BytesMut::new`: the new buffer is empty.
#[verifier::external_body]
pub fn frame_buffer() -> (r: BytesMut)
    ensures
        bytes_view(r) == Seq::<u8>::empty(),
{
    BytesMut::new()
}

/// Relies on `BytesMut::reserve`: it grows the capacity and leaves the
/// contents alone. Panics only when the needed capacity overflows `usize`.
#[verifier::external_body]
fn bytes_reserve(dst: &mut BytesMut, additional: usize)
    requires
        bytes_view(*old(dst)).len() + additional <= usize::MAX,
    ensures
        bytes_view(*final(dst)) == bytes_view(*old(dst)),
{
    dst.reserve(additional);
}

/// Relies on `BufMut::put_u8` on a `BytesMut`: appends the one byte, growing
/// the buffer as needed.
#[verifier::external_body]
fn bytes_put_u8(dst: &mut BytesMut, n: u8)
    requires
        bytes_view(*old(dst)).len() + 1 <= usize::MAX,
    ensures
        bytes_view(*final(dst)) == bytes_view(*old(dst)).push(n),
{
    dst.put_u8(n);
}

/// Relies on `BufMut::put_u16` on a `BytesMut`: appends the two bytes of `n`
/// in big-endian order.
#[verifier::external_body]
fn bytes_put_u16(dst: &mut BytesMut, n: u16)
    requires
        bytes_view(*old(dst)).len() + 2 <= usize::MAX,
    ensures
        bytes_view(*final(dst)) == bytes_view(*old(dst)) + be16_bytes(n),
{
    dst.put_u16(n);
}

/// Relies on `BufMut::put_u64` on a `BytesMut`: appends the eight bytes of
/// `n` in big-endian order.
#[verifier::external_body]
fn bytes_put_u64(dst: &mut BytesMut, n: u64)
    requires
        bytes_view(*old(dst)).len() + 8 <= usize::MAX,
    ensures
        bytes_view(*final(dst)) == bytes_view(*old(dst)) + be64_bytes(n),
{
    dst.put_u64(n);
}

/// Relies on `BufMut::put_u32_le` on a `BytesMut`: appends the four bytes of
/// `n` in little-endian order.
#[verifier::external_body]
fn bytes_put_u32_le(dst: &mut BytesMut, n: u32)
    requires
        bytes_view(*old(dst)).len() + 4 <= usize::MAX,
    ensures
        bytes_view(*final(dst)) == bytes_view(*old(dst)) + le32_bytes(n),
{
    dst.put_u32_le(n);
}

/// Relies on `BytesMut::extend_from_slice`: appends the given bytes verbatim.
#[verifier::external_body]
fn bytes_extend_from_vec(dst: &mut BytesMut, src: &Vec<u8>)
    requires
        bytes_view(*old(dst)).len() + src@.len() <= usize::MAX,
    ensures
        bytes_view(*final(dst)) == bytes_view(*old(dst)) + src@,
{
    dst.extend_from_slice(src.as_slice());
}

/// Opcodes of data frames: the low nibble of the first header byte.
#[derive(Clone, Copy, PartialEq, Eq, Structural, Debug)]
pub enum DataCode {
    Continuation,
    Text,
    Binary,
}

/// Opcodes of control frames.
#[derive(Clone, Copy, PartialEq, Eq, Structural, Debug)]
pub enum ControlCode {
    Close,
    Ping,
    Pong,
}

/// A frame's purpose tag: either a data opcode or a control opcode.
#[derive(Clone, Copy, PartialEq, Eq, Structural, Debug)]
pub enum OpCode {
    DataCode(DataCode),
    ControlCode(ControlCode),
}

/// Why a wire value is not an opcode: reserved by the protocol (3-7 and
/// 11-15, connection-fatal), or outside the 4-bit field entirely.
#[derive(Clone, Copy, PartialEq, Eq, Structural, Debug)]
pub enum OpCodeParseErr {
    Reserved(u8),
    Invalid(u8),
}

/// The wire nibble of an opcode.
pub open spec fn opcode_value(op: OpCode) -> u8 {
    match op {
        OpCode::DataCode(DataCode::Continuation) => 0,
        OpCode::DataCode(DataCode::Text) => 1,
        OpCode::DataCode(DataCode::Binary) => 2,
        OpCode::ControlCode(ControlCode::Close) => 8,
        OpCode::ControlCode(ControlCode::Ping) => 9,
        OpCode::ControlCode(ControlCode::Pong) => 10,
    }
}

/// Classification of a wire value as an opcode, a reserved value, or an
/// invalid value outside the 4-bit opcode field.
pub open spec fn parse_opcode(value: u8) -> Result<OpCode, OpCodeParseErr> {
    if value == 0 {
        Ok(OpCode::DataCode(DataCode::Continuation))
    } else if value == 1 {
        Ok(OpCode::DataCode(DataCode::Text))
    } else if value == 2 {
        Ok(OpCode::DataCode(DataCode::Binary))
    } else if value == 8 {
        Ok(OpCode::ControlCode(ControlCode::Close))
    } else if value == 9 {
        Ok(OpCode::ControlCode(ControlCode::Ping))
    } else if value == 10 {
        Ok(OpCode::ControlCode(ControlCode::Pong))
    } else if value <= 15 {
        Err(OpCodeParseErr::Reserved(value))
    } else {
        Err(OpCodeParseErr::Invalid(value))
    }
}

impl From<OpCode> for u8 {
    /// The reverse direction of parsing: total and lossless.
    fn from(op: OpCode) -> (r: u8)
        ensures
            r == opcode_value(op),
    {
        match op {
            OpCode::DataCode(DataCode::Continuation) => 0,
            OpCode::DataCode(DataCode::Text) => 1,
            OpCode::DataCode(DataCode::Binary) => 2,
            OpCode::ControlCode(ControlCode::Close) => 8,
            OpCode::ControlCode(ControlCode::Ping) => 9,
            OpCode::ControlCode(ControlCode::Pong) => 10,
        }
    }
}

impl vstd::std_specs::convert::FromSpecImpl<OpCode> for u8 {
    open spec fn obeys_from_spec() -> bool {
        true
    }

    open spec fn from_spec(op: OpCode) -> u8 {
        opcode_value(op)
    }
}

impl TryFrom<u8> for OpCode {
    type Error = OpCodeParseErr;

    /// Parses the low four bits of a frame's first header byte. Values 0, 1,
    /// 2, 8, 9 and 10 are the six opcodes; 3-7 and 11-15 are reserved by the
    /// protocol; anything above 15 cannot come from a 4-bit field at all.
    fn try_from(value: u8) -> (r: Result<OpCode, OpCodeParseErr>)
        ensures
            r == parse_opcode(value),
            (3 <= value && value <= 7) || (11 <= value && value <= 15) ==> r == Err::<
                OpCode,
                OpCodeParseErr,
            >(OpCodeParseErr::Reserved(value)),
            value > 15 ==> r == Err::<OpCode, OpCodeParseErr>(OpCodeParseErr::Invalid(value)),
    {
        match value {
            0 => Ok(OpCode::DataCode(DataCode::Continuation)),
            1 => Ok(OpCode::DataCode(DataCode::Text)),
            2 => Ok(OpCode::DataCode(DataCode::Binary)),
            r @ 3..=7 => Err(OpCodeParseErr::Reserved(r)),
            8 => Ok(OpCode::ControlCode(ControlCode::Close)),
            9 => Ok(OpCode::ControlCode(ControlCode::Ping)),
            10 => Ok(OpCode::ControlCode(ControlCode::Pong)),
            r @ 11..=15 => Err(OpCodeParseErr::Reserved(r)),
            e => Err(OpCodeParseErr::Invalid(e)),
        }
    }
}

impl vstd::std_specs::convert::TryFromSpecImpl<u8> for OpCode {
    open spec fn obeys_try_from_spec() -> bool {
        true
    }

    open spec fn try_from_spec(value: u8) -> Result<OpCode, OpCodeParseErr> {
        parse_opcode(value)
    }
}

/// Every wire value that parses as an opcode serializes back to itself.
pub proof fn lemma_opcode_round_trip(value: u8)
    requires
        parse_opcode(value) is Ok,
    ensures
        opcode_value(parse_opcode(value)->Ok_0) == value,
{
}

/// Every opcode survives a trip over the wire: its value parses back to it.
pub proof fn lemma_opcode_value_parses(op: OpCode)
    ensures
        parse_opcode(opcode_value(op)) == Ok::<OpCode, OpCodeParseErr>(op),
{
}

/// An immutable payload, from the `bytes` crate; opaque here. A `Frame`
/// carries one.
#[verifier::external_type_specification]
#[verifier::external_body]
pub struct ExBytes(bytes::Bytes);

/// One frame as held in memory, between construction and serialization or
/// between parsing and consumption: its payload and its kind.
pub struct Frame {
    pub data: bytes::Bytes,
    pub kind: FrameKind,
}

/// What a frame is for; a Close frame may carry a structured reason.
pub enum FrameKind {
    Text,
    Binary,
    Continuation,
    Ping,
    Pong,
    Close(Option<CloseReason>),
}

/// The body of a Close frame: a close code and an optional description.
pub struct CloseReason {
    pub code: CloseCode,
    pub description: Option<String>,
}

/// Canonical close codes.
pub enum CloseCode {
    GoingAway,
}

/// An application-level message, the unit handed to the encoder. One message
/// may span several wire frames, though this layer encodes one frame at a
/// time.
pub enum Message {
    Text(String),
    Binary(Vec<u8>),
    Ping(Vec<u8>),
    Pong(Vec<u8>),
}

/// The masking key byte applied at payload position `i`: the key's four bytes
/// in big-endian order, repeated over the payload.
pub open spec fn mask_byte(mask: u32, i: int) -> u8 {
    if i % 4 == 0 {
        ((mask >> 24) & 0xFF) as u8
    } else if i % 4 == 1 {
        ((mask >> 16) & 0xFF) as u8
    } else if i % 4 == 2 {
        ((mask >> 8) & 0xFF) as u8
    } else {
        (mask & 0xFF) as u8
    }
}

/// The payload after masking: byte `i` XORed with the key byte at `i`.
pub open spec fn masked_seq(mask: u32, payload: Seq<u8>) -> Seq<u8> {
    Seq::new(payload.len(), |i: int| payload[i] ^ mask_byte(mask, i))
}

/// XORs every payload byte, in place, with the masking key's bytes taken in
/// big-endian order and repeated every four positions.
pub fn apply_mask(mask: u32, bytes: &mut Vec<u8>)
    ensures
        final(bytes)@ == masked_seq(mask, old(bytes)@),
{
    let ghost orig = bytes@;
    let mut i: usize = 0;
    while i < bytes.len()
        invariant
            i <= bytes@.len(),
            bytes@.len() == orig.len(),
            forall|j: int| 0 <= j < i ==> bytes@[j] == (orig[j] ^ mask_byte(mask, j)),
            forall|j: int| i <= j < orig.len() ==> bytes@[j] == orig[j],
        decreases orig.len() - i,
    {
        let r = i % 4;
        let k: u8 = if r == 0 {
            ((mask >> 24) & 0xFF) as u8
        } else if r == 1 {
            ((mask >> 16) & 0xFF) as u8
        } else if r == 2 {
            ((mask >> 8) & 0xFF) as u8
        } else {
            (mask & 0xFF) as u8
        };
        assert(k == mask_byte(mask, i as int));
        let b = bytes[i];
        bytes[i] = b ^ k;
        i = i + 1;
    }
    assert(bytes@ =~= masked_seq(mask, orig));
}

/// Masking is its own inverse: applying the same key twice restores the
/// payload, which is how the peer unmasks what the client masked.
pub proof fn lemma_apply_mask_involution(mask: u32, payload: Seq<u8>)
    ensures
        masked_seq(mask, masked_seq(mask, payload)) == payload,
{
    let once = masked_seq(mask, payload);
    let twice = masked_seq(mask, once);
    assert forall|i: int| 0 <= i < payload.len() implies twice[i] == payload[i] by {
        let b = payload[i];
        let k = mask_byte(mask, i);
        assert((b ^ k) ^ k == b) by (bit_vector);
    };
    assert(twice =~= payload);
}

/// The two bytes of `n`, big-endian.
pub open spec fn be16_bytes(n: u16) -> Seq<u8> {
    seq![((n >> 8) & 0xFF) as u8, (n & 0xFF) as u8]
}

/// The eight bytes of `n`, big-endian.
pub open spec fn be64_bytes(n: u64) -> Seq<u8> {
    seq![
        ((n >> 56) & 0xFF) as u8,
        ((n >> 48) & 0xFF) as u8,
        ((n >> 40) & 0xFF) as u8,
        ((n >> 32) & 0xFF) as u8,
        ((n >> 24) & 0xFF) as u8,
        ((n >> 16) & 0xFF) as u8,
        ((n >> 8) & 0xFF) as u8,
        (n & 0xFF) as u8,
    ]
}

/// The four bytes of `n`, little-endian: the order in which the mask key is
/// put on the wire.
pub open spec fn le32_bytes(n: u32) -> Seq<u8> {
    seq![
        (n & 0xFF) as u8,
        ((n >> 8) & 0xFF) as u8,
        ((n >> 16) & 0xFF) as u8,
        ((n >> 24) & 0xFF) as u8,
    ]
}

/// Bytes of header before any mask key: two, plus the extended length field
/// the payload needs (none up to 125 bytes, two up to 65535, eight above).
pub open spec fn header_size(len: nat) -> nat {
    if len < 126 {
        2
    } else if len <= 0xFFFF {
        4
    } else {
        10
    }
}

/// The first header byte: the FIN/RSV bits (with the consumed MASKED request
/// bit cleared) over the opcode nibble.
pub open spec fn first_byte(flags: HeaderFlags, op: OpCode) -> u8 {
    (flags.bits & !MASKED) | opcode_value(op)
}

/// The emitted header: the first byte, then the length byte carrying
/// `second`'s mask-present bit, then the extended length field if any.
pub open spec fn header_bytes(first: u8, second: u8, len: nat) -> Seq<u8> {
    if len < 126 {
        seq![first, second | (len as u8)]
    } else if len <= 0xFFFF {
        seq![first, second | 126] + be16_bytes(len as u16)
    } else {
        seq![first, second | 127] + be64_bytes(len as u64)
    }
}

/// The complete wire frame for the given flags, opcode, payload and key: the
/// header, then the key in little-endian order when masking was requested,
/// then the (masked, if so) payload.
pub open spec fn frame_bytes(flags: HeaderFlags, op: OpCode, payload: Seq<u8>, mask: u32) -> Seq<
    u8,
> {
    if flags.spec_is_masked() {
        header_bytes(first_byte(flags, op), 0x80, payload.len()) + le32_bytes(mask) + masked_seq(
            mask,
            payload,
        )
    } else {
        header_bytes(first_byte(flags, op), 0x00, payload.len()) + payload
    }
}

/// Serializes one frame into the output buffer, appending to what is already
/// there. When the flags request masking, the payload is masked in place,
/// exactly once, before it is measured and emitted.
pub fn write_into(
    dst: &mut BytesMut,
    flags: HeaderFlags,
    opcode: OpCode,
    payload: &mut Vec<u8>,
    mask: u32,
)
    requires
        bytes_view(*old(dst)).len() + old(payload)@.len() + 14 <= usize::MAX,
    ensures
        bytes_view(*final(dst)) == bytes_view(*old(dst)) + frame_bytes(
            flags,
            opcode,
            old(payload)@,
            mask,
        ),
        final(payload)@ == if flags.spec_is_masked() {
            masked_seq(mask, old(payload)@)
        } else {
            old(payload)@
        },
{
    let mut header = flags;
    let masked = header.is_masked();
    let mut second: u8 = 0x00;
    let mut offset: usize = 2;
    if masked {
        header.set(MASKED, false);
        apply_mask(mask, payload);
        second = 0x80;
        offset = 6;
    }
    proof {
        if !flags.spec_is_masked() {
            let b = flags.bits;
            assert(b & 0x08 == 0 ==> (b & !0x08) == b) by (bit_vector);
        }
    }
    let length = payload.len();
    if length >= 65536 {
        offset = offset + 8;
    } else if length > 125 {
        offset = offset + 2;
    }
    let additional = if masked {
        length + offset
    } else {
        offset
    };
    bytes_reserve(dst, additional);
    let first = header.bits | u8::from(opcode);
    assert(first == first_byte(flags, opcode));
    if length < 126 {
        bytes_put_u8(dst, first);
        bytes_put_u8(dst, second | (length as u8));
    } else if length <= 65535 {
        bytes_put_u8(dst, first);
        bytes_put_u8(dst, second | 126);
        bytes_put_u16(dst, length as u16);
    } else {
        bytes_put_u8(dst, first);
        bytes_put_u8(dst, second | 127);
        bytes_put_u64(dst, length as u64);
    }
    assert(bytes_view(*dst) =~= bytes_view(*old(dst)) + header_bytes(
        first,
        second,
        old(payload)@.len(),
    ));
    if masked {
        bytes_put_u32_le(dst, mask);
    }
    bytes_extend_from_vec(dst, payload);
    assert(bytes_view(*dst) =~= bytes_view(*old(dst)) + frame_bytes(
        flags,
        opcode,
        old(payload)@,
        mask,
    ));
}

/// How long a frame is on the wire: the header for the payload's length, four
/// key bytes when masking was requested, then the payload itself.
pub proof fn lemma_frame_size(flags: HeaderFlags, op: OpCode, payload: Seq<u8>, mask: u32)
    ensures
        frame_bytes(flags, op, payload, mask).len() == header_size(payload.len()) + (
        if flags.spec_is_masked() {
            4nat
        } else {
            0nat
        }) + payload.len(),
{
}

/// The payload-length encoding boundaries: up to 125 bytes, the 7-bit field
/// of the second header byte holds the length itself and no extended bytes
/// follow; from 126 to 65535 bytes it holds the marker 126 and a big-endian
/// 16-bit field follows; above that it holds the marker 127 and a big-endian
/// 64-bit field follows.
pub proof fn lemma_length_field(flags: HeaderFlags, op: OpCode, payload: Seq<u8>, mask: u32)
    ensures
        ({
            let f = frame_bytes(flags, op, payload, mask);
            let second: u8 = if flags.spec_is_masked() {
                0x80
            } else {
                0x00
            };
            let len = payload.len();
            &&& len <= 125 ==> f[1] == (second | (len as u8)) && header_size(len) == 2
            &&& 126 <= len <= 0xFFFF ==> f[1] == (second | 126) && f.subrange(2, 4) == be16_bytes(
                len as u16,
            )
            &&& len > 0xFFFF ==> f[1] == (second | 127) && f.subrange(2, 10) == be64_bytes(
                len as u64,
            )
        }),
{
    let f = frame_bytes(flags, op, payload, mask);
    let second: u8 = if flags.spec_is_masked() {
        0x80
    } else {
        0x00
    };
    let len = payload.len();
    if 126 <= len <= 0xFFFF {
        assert(f.subrange(2, 4) =~= be16_bytes(len as u16));
    }
    if len > 0xFFFF {
        assert(f.subrange(2, 10) =~= be64_bytes(len as u64));
    }
}

/// Masked and unmasked serialization of the same frame differ in exactly two
/// ways: the masked frame carries the four key bytes immediately after the
/// length field, and each of its payload bytes is the unmasked frame's
/// payload byte XORed with the repeating key pattern. The first header byte
/// is the same in both.
pub proof fn lemma_masked_vs_unmasked(flags: HeaderFlags, op: OpCode, payload: Seq<u8>, mask: u32)
    requires
        !flags.spec_is_masked(),
    ensures
        ({
            let fu = frame_bytes(flags, op, payload, mask);
            let fm = frame_bytes((HeaderFlags { bits: flags.bits | MASKED }), op, payload, mask);
            let h = header_size(payload.len()) as int;
            &&& fu.len() == h + payload.len()
            &&& fm.len() == h + 4 + payload.len()
            &&& fm.subrange(h, h + 4) == le32_bytes(mask)
            &&& forall|i: int|
                0 <= i < payload.len() ==> fm[h + 4 + i] == (fu[h + i] ^ mask_byte(mask, i))
            &&& fm[0] == fu[0]
        }),
{
    let mflags = HeaderFlags { bits: flags.bits | MASKED };
    let b = flags.bits;
    assert((b | 0x08) & 0x08 != 0) by (bit_vector);
    assert((b | 0x08) & !0x08 == b & !0x08) by (bit_vector);
    assert(mflags.spec_is_masked());
    assert(first_byte(mflags, op) == first_byte(flags, op));
    let len = payload.len();
    let fst = first_byte(flags, op);
    let hu = header_bytes(fst, 0x00, len);
    let hm = header_bytes(fst, 0x80, len);
    let h = header_size(len) as int;
    assert(hu.len() == h && hm.len() == h);
    assert(hu[0] == fst && hm[0] == fst);
    let fu = frame_bytes(flags, op, payload, mask);
    let fm = frame_bytes(mflags, op, payload, mask);
    assert(fm.subrange(h, h + 4) =~= le32_bytes(mask));
    assert forall|i: int| 0 <= i < payload.len() implies fm[h + 4 + i] == (fu[h + i] ^ mask_byte(
        mask,
        i,
    )) by {
        assert(fm[h + 4 + i] == masked_seq(mask, payload)[i]);
        assert(fu[h + i] == payload[i]);
    };
}

} // verus!
