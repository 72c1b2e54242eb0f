//! Protocol engine for a spinning-mirror laser rangefinder.
//!
//! The crate holds the wire format and the decision logic of the driver and
//! performs no I/O itself: requests are produced as bytes, replies are taken
//! as bytes, and the long-running exchanges are state machines that tell the
//! caller what to write or read next.

pub mod channel;
pub mod cmd;
pub mod decoder;
pub mod error;
pub mod exchange;
pub mod frame;
pub mod lidar;
pub mod query;
pub mod scan;
pub mod util;
