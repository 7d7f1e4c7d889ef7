//! Capture-to-stream audio bridge.
//!
//! The library models the core of a live-capture pipeline: device discovery
//! filtered by capability, format negotiation, a bounded FIFO queue of
//! normalized signed 16-bit samples shared between one producer and one
//! consumer, and the session lifecycle around an input stream. The host audio
//! subsystem itself (enumeration, hardware streams, callback delivery) lives
//! outside the library; callers hand its answers in as plain values.

use vstd::prelude::*;

pub mod catalog;
pub mod format;
pub mod queue;
pub mod session;

verus! {

/// The error taxonomy of the capture bridge.
#[derive(Clone, Copy, Debug, PartialEq, Eq, Structural)]
pub enum CaptureError {
    /// The host audio subsystem reported no input devices at all.
    Enumeration,
    /// No input device matched the requested name exactly.
    DeviceNotFound,
    /// The hardware rejected the requested stream at build or start time.
    StreamBuild,
    /// `open()` was called on a session that is already open.
    AlreadyOpen,
    /// `close()` was called on a session with no active stream.
    Close,
    /// A single hardware buffer was malformed or dropped by the subsystem.
    Delivery,
}

} // verus!
