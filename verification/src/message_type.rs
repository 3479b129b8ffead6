//! The `messageType` discriminator of the envelope.

use vstd::prelude::*;

verus! {

/// What an envelope's payload is. A peer may send types this version does
/// not know; such a frame is dropped, never a reason to close the
/// connection.
#[derive(Debug, Clone, Copy, PartialEq, Eq, Structural)]
pub enum MessageType {
    Hello,
    PairRequest,
    PairResponse,
    Heartbeat,
    InputEvent,
    ReleaseControl,
    ClipboardText,
    FileOffer,
    FileChunk,
    FileAck,
    UrlPush,
    ScreenshotRequest,
    ScreenshotResult,
    Error,
}

} // verus!
