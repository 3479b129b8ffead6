//! Full-display PNG capture for the `screenshotRequest` quick action. The
//! capture itself (through the desktop portal) is the caller's job; the
//! requester enforces its own deadline, since a portal consent dialog may
//! never be answered.

use vstd::prelude::*;

verus! {

/// The long side of a screenshot is scaled down to at most this many
/// pixels.
pub const LONG_SIDE_MAX_PX: u32 = 2048;

/// How long a requester waits for a screenshot result, in seconds.
pub const REQUESTER_TIMEOUT_SECS: u64 = 8;

/// Captures screenshots.
pub struct ScreenshotCapturer;

impl ScreenshotCapturer {
    pub fn new() -> (capturer: ScreenshotCapturer) {
        ScreenshotCapturer
    }
}

impl Default for ScreenshotCapturer {
    fn default() -> (capturer: Self) {
        ScreenshotCapturer::new()
    }
}

} // verus!
