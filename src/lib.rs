//! Push-based decoder for the bitcoin v1 transport framing.
//!
//! The decoders are sans-I/O: the caller hands them chunks of bytes of any
//! size and a cursor into each chunk, and they take exactly what the current
//! frame still needs, leaving the rest for the next frame.
use vstd::prelude::*;

pub mod bytes;
pub mod error;
pub mod external;
pub mod frame;
pub mod header;
pub mod lemmas;
pub mod message;
pub mod payload;

pub use error::DecodeError;
pub use message::V1MessageDecoder;

verus! {

} // verus!
