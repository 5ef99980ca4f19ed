//! Decision core of the Klinger Volume Oscillator.
//!
//! The oscillator is a streaming transducer over bars (high, low, close,
//! volume). Its arithmetic is real-valued and is carried out by the caller;
//! this crate owns, and proves, the decisions that drive it: whether a
//! previous bar is known yet (warm-up), which trend a bar has, and whether the
//! cumulative measurement restarts on a trend reversal.

pub mod laws;
pub mod tracker;
pub mod trend;
