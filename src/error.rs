//! The closed set of ways a frame can fail to decode.
use vstd::prelude::*;

verus! {

/// Why a frame was not decoded.
#[derive(Debug)]
pub enum DecodeError {
    /// The header names another network than the one configured.
    WrongMagic { expected: [u8; 4], actual: [u8; 4] },
    /// The command field is not an ASCII token padded with NUL bytes.
    InvalidCommand,
    /// The declared payload length exceeds the ceiling; holds the declared length.
    PayloadTooLarge(usize),
    /// The payload does not hash to the checksum that the header declares.
    InvalidChecksum,
    /// The input ended before the frame was complete.
    IncompleteMessage,
    /// The message codec refused the verified payload.
    InvalidPayload(bitcoin::consensus::encode::Error),
}

} // verus!
