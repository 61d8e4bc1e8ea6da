use vstd::prelude::*;
use std::borrow::ToOwned;

verus! {

/// What `message` says of a frame of the wrong length.
pub const MISMATCH_MESSAGE: &'static str = "The size of data provided does not match buffer size";

/// The one failure a caller can observe.
#[derive(Debug, Clone, Copy, PartialEq, Eq, Structural)]
pub enum RingBufferError {
    /// A frame whose length differs from the buffer's frame length.
    DataSizeMismatch,
}

impl RingBufferError {
    /// A human-readable description of the error.
    pub fn message(&self) -> (r: String)
        ensures
            r@ == MISMATCH_MESSAGE@,
    {
        match self {
            RingBufferError::DataSizeMismatch => MISMATCH_MESSAGE.to_owned(),
        }
    }
}

} // verus!
