//! A fixed-capacity ring of equal-length frames, read back at a cadence paced
//! to a nominal playback rate, with a governor that bounds the reader's lag.
pub mod block;
mod clock;
pub mod error;
pub mod governor;
pub mod pacing;
pub mod ring;
pub mod slots;

pub use block::BlockRing;
pub use error::RingBufferError;
pub use governor::BacklogGovernor;
pub use pacing::PacingController;
pub use ring::{PacingConfig, RingBuffer, RingView};
pub use slots::SlotStore;
