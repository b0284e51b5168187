//! Control logic of a status display that is redrawn on every minute boundary
//! and pushed to a remote e-ink device over a fragile point-to-point link.
//!
//! The library holds the decisions: when a tick falls, whether the weather
//! snapshot is due for renewal, which link requests bring the interface into
//! shape, which remote steps deliver a frame, and in which order all of this
//! happens within one tick. Whoever drives it performs the requests and
//! reports what came of them.

pub mod schedule;
pub mod usb;
pub mod link;
pub mod transport;
pub mod frame;
pub mod update;
pub mod text;
pub mod weather;
pub mod cache;
pub mod image;
pub mod art;
pub mod sky;
pub mod face;
pub mod config;
