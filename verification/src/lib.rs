//! Wire-level framing for a WebSocket client: the opcode model, the masking
//! transform, the frame writer, and the split-socket assembly that shares one
//! guarded writer between a transmit half and a receive half.

pub mod protocol;
pub mod split;
