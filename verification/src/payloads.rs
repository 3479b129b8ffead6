//! The type-specific payloads carried inside the envelope. Field names go
//! on the wire in camelCase; an optional field that is `None` is left off
//! the wire rather than sent as `null`.

use vstd::prelude::*;

verus! {

/// Sent immediately after the TCP connection opens.
#[derive(Debug, Clone, PartialEq, Eq)]
pub struct HelloPayload {
    pub device_name: String,
    pub device_model: String,
    pub app_version: String,
    /// One or more of `"controller"` / `"receiver"`.
    pub roles: Vec<String>,
    /// Coarse OS identifier; this client sends `"Linux"`.
    pub platform: Option<String>,
}

/// Asks the peer to trust this device. `pin_hash` is reserved: sent as
/// `""`, and an empty value is never a reason to reject.
#[derive(Debug, Clone, PartialEq, Eq)]
pub struct PairRequestPayload {
    pub requester_device_id: String,
    pub requester_device_name: String,
    pub pin_hash: String,
}

/// The answer to a `pairRequest`.
#[derive(Debug, Clone, PartialEq, Eq)]
pub struct PairResponsePayload {
    pub accepted: bool,
    pub trusted_device_id: Option<String>,
    pub rejection_reason: Option<String>,
}

/// Sent receiver to controller when the receiver sees local input: the
/// controller stops forwarding `inputEvent`s at once.
#[derive(Debug, Clone, PartialEq, Eq)]
pub struct ReleaseControlPayload {
    pub reason: String,
}

/// Plain-text clipboard contents, UTF-8, at most
/// `MAX_CLIPBOARD_TEXT_BYTES` bytes.
#[derive(Debug, Clone, PartialEq, Eq)]
pub struct ClipboardTextPayload {
    pub text: String,
}

/// The sender-side cap on clipboard text, in UTF-8 bytes.
pub const MAX_CLIPBOARD_TEXT_BYTES: usize = 1048576;

/// An error report; `code` is one of the codes below.
#[derive(Debug, Clone, PartialEq, Eq)]
pub struct ErrorPayload {
    pub code: String,
    pub message: String,
}

/// Error code: the peer speaks another protocol version.
pub const UNKNOWN_PROTOCOL_VERSION: &'static str = "unknownProtocolVersion";

/// Error code: the sender is not trusted.
pub const NOT_TRUSTED: &'static str = "notTrusted";

/// Error code: an OS permission the request needs is missing.
pub const PERMISSION_MISSING: &'static str = "permissionMissing";

/// Error code: the Emergency Stop is on.
pub const EMERGENCY_STOP_ACTIVE: &'static str = "emergencyStopActive";

/// Offers a file. `kind` is an optional discriminator: `"printJob"` spools
/// to the printer, anything else (or none) is a regular file drop.
#[derive(Debug, Clone, PartialEq, Eq)]
pub struct FileOfferPayload {
    pub transfer_id: String,
    pub name: String,
    pub size_bytes: u64,
    pub total_chunks: u32,
    pub chunk_size: u32,
    pub kind: Option<String>,
}

/// The `kind` of a file offer that is a print job.
pub const PRINT_JOB_KIND: &'static str = "printJob";

/// One chunk of a file: `data` is the base64 of `chunk_size` bytes of the
/// offer (the last chunk may be shorter); `sequence` counts from 0.
#[derive(Debug, Clone, PartialEq, Eq)]
pub struct FileChunkPayload {
    pub transfer_id: String,
    pub sequence: u32,
    pub data: String,
}

/// Sent by the receiver after the last chunk.
#[derive(Debug, Clone, PartialEq, Eq)]
pub struct FileAckPayload {
    pub transfer_id: String,
    pub ok: bool,
    pub failure_reason: Option<String>,
}

/// Asks for a screenshot of the peer's main display.
#[derive(Debug, Clone, PartialEq, Eq)]
pub struct ScreenshotRequestPayload {
    pub request_id: String,
}

/// The answer to a screenshot request: base64 PNG data, or an error.
#[derive(Debug, Clone, PartialEq, Eq)]
pub struct ScreenshotResultPayload {
    pub request_id: String,
    pub png_data: Option<String>,
    pub error: Option<String>,
}

/// Asks the peer to open a URL.
#[derive(Debug, Clone, PartialEq, Eq)]
pub struct UrlPushPayload {
    pub url: String,
}

/// The text of an optional string.
pub open spec fn opt_text(o: Option<String>) -> Option<Seq<char>> {
    match o {
        Some(s) => Some(s@),
        None => None,
    }
}

/// The abstract contents of a `hello`.
pub struct HelloView {
    pub device_name: Seq<char>,
    pub device_model: Seq<char>,
    pub app_version: Seq<char>,
    pub roles: Seq<Seq<char>>,
    pub platform: Option<Seq<char>>,
}

impl View for HelloPayload {
    type V = HelloView;

    open spec fn view(&self) -> HelloView {
        HelloView {
            device_name: self.device_name@,
            device_model: self.device_model@,
            app_version: self.app_version@,
            roles: self.roles@.map_values(|r: String| r@),
            platform: opt_text(self.platform),
        }
    }
}

/// The abstract contents of a `pairRequest`.
pub struct PairRequestView {
    pub requester_device_id: Seq<char>,
    pub requester_device_name: Seq<char>,
    pub pin_hash: Seq<char>,
}

impl View for PairRequestPayload {
    type V = PairRequestView;

    open spec fn view(&self) -> PairRequestView {
        PairRequestView {
            requester_device_id: self.requester_device_id@,
            requester_device_name: self.requester_device_name@,
            pin_hash: self.pin_hash@,
        }
    }
}

/// The abstract contents of a `pairResponse`.
pub struct PairResponseView {
    pub accepted: bool,
    pub trusted_device_id: Option<Seq<char>>,
    pub rejection_reason: Option<Seq<char>>,
}

impl View for PairResponsePayload {
    type V = PairResponseView;

    open spec fn view(&self) -> PairResponseView {
        PairResponseView {
            accepted: self.accepted,
            trusted_device_id: opt_text(self.trusted_device_id),
            rejection_reason: opt_text(self.rejection_reason),
        }
    }
}

impl View for ReleaseControlPayload {
    type V = Seq<char>;

    /// The reason.
    open spec fn view(&self) -> Seq<char> {
        self.reason@
    }
}

} // verus!
