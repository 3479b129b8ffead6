//! Plain-text clipboard sync between trusted devices, off by default.
//! Outgoing text is capped at `MAX_CLIPBOARD_TEXT_BYTES` bytes of UTF-8,
//! cut on a character boundary so the payload is always valid UTF-8.

use vstd::prelude::*;
use vstd::string::StringSliceAdditionalSpecFns;
use vstd::utf8::{encode_utf8, is_char_boundary};
use crate::payloads::{ClipboardTextPayload, MAX_CLIPBOARD_TEXT_BYTES};

verus! {

broadcast use vstd::utf8::group_utf8_lib;

/// The largest character boundary of `bytes` at or below `i` (0 is
/// always one).
pub open spec fn boundary_at_or_below(bytes: Seq<u8>, i: int) -> int
    decreases i,
{
    if i <= 0 {
        0
    } else if is_char_boundary(bytes, i) {
        i
    } else {
        boundary_at_or_below(bytes, i - 1)
    }
}

/// How many leading bytes of a text's UTF-8 are sent: all of them if they
/// fit the cap, else up to the last character boundary within the cap.
pub open spec fn clipboard_cut(bytes: Seq<u8>) -> int {
    if bytes.len() > MAX_CLIPBOARD_TEXT_BYTES {
        boundary_at_or_below(bytes, MAX_CLIPBOARD_TEXT_BYTES as int)
    } else {
        bytes.len() as int
    }
}

/// The largest boundary at or below `i` is a boundary, lies in `0..=i`,
/// and no index above it up to `i` is a boundary.
pub proof fn lemma_boundary_at_or_below(bytes: Seq<u8>, i: int)
    requires
        vstd::utf8::valid_utf8(bytes),
        0 <= i,
    ensures
        0 <= boundary_at_or_below(bytes, i) <= i,
        is_char_boundary(bytes, boundary_at_or_below(bytes, i)),
        forall|j: int| boundary_at_or_below(bytes, i) < j <= i ==> !is_char_boundary(bytes, j),
    decreases i,
{
    vstd::utf8::is_char_boundary_start_end_of_seq(bytes);
    if i > 0 && !is_char_boundary(bytes, i) {
        lemma_boundary_at_or_below(bytes, i - 1);
    }
}

/// Builds clipboard payloads, when enabled.
pub struct ClipboardSyncService {
    enabled: bool,
}

impl ClipboardSyncService {
    /// Whether clipboard sync is on.
    pub closed spec fn is_enabled(&self) -> bool {
        self.enabled
    }

    /// Sync starts off.
    pub fn new() -> (service: ClipboardSyncService)
        ensures
            !service.is_enabled(),
    {
        ClipboardSyncService { enabled: false }
    }

    /// Turns sync on or off.
    pub fn set_enabled(&mut self, enabled: bool)
        ensures
            final(self).is_enabled() == enabled,
    {
        self.enabled = enabled;
    }

    /// The payload for outgoing clipboard text: `None` while sync is off,
    /// else the text cut to the cap on a character boundary.
    pub fn build_payload(&self, text: &str) -> (payload: Option<ClipboardTextPayload>)
        ensures
            !self.is_enabled() ==> payload is None,
            self.is_enabled() ==> (payload matches Some(p) && encode_utf8(p.text@)
                == text.spec_bytes().subrange(0, clipboard_cut(text.spec_bytes()))),
            payload matches Some(p) ==> encode_utf8(p.text@).len() <= MAX_CLIPBOARD_TEXT_BYTES,
    {
        if !self.enabled {
            return None;
        }
        let ghost bytes = text.spec_bytes();
        proof {
            vstd::utf8::encode_utf8_valid_utf8(text@);
        }
        let len = text.as_bytes().len();
        let cut = if len > MAX_CLIPBOARD_TEXT_BYTES {
            let mut end = MAX_CLIPBOARD_TEXT_BYTES;
            proof {
                lemma_boundary_at_or_below(bytes, MAX_CLIPBOARD_TEXT_BYTES as int);
            }
            while !text.is_char_boundary(end)
                invariant
                    vstd::utf8::valid_utf8(bytes),
                    bytes == text.spec_bytes(),
                    0 <= end <= MAX_CLIPBOARD_TEXT_BYTES,
                    boundary_at_or_below(bytes, end as int) == boundary_at_or_below(
                        bytes,
                        MAX_CLIPBOARD_TEXT_BYTES as int,
                    ),
                decreases end,
            {
                proof {
                    vstd::utf8::is_char_boundary_start_end_of_seq(bytes);
                }
                end = end - 1;
            }
            assert(is_char_boundary(bytes, end as int));
            assert(end as int == boundary_at_or_below(bytes, end as int));
            end
        } else {
            len
        };
        proof {
            vstd::utf8::is_char_boundary_start_end_of_seq(bytes);
            lemma_boundary_at_or_below(bytes, MAX_CLIPBOARD_TEXT_BYTES as int);
            assert(cut as int == clipboard_cut(bytes));
            assert(is_char_boundary(bytes, cut as int));
        }
        let (head, _) = text.split_at(cut);
        Some(ClipboardTextPayload { text: head.to_owned() })
    }
}

impl Default for ClipboardSyncService {
    /// Sync off, as `new`.
    fn default() -> (service: Self)
        ensures
            !service.is_enabled(),
    {
        ClipboardSyncService::new()
    }
}
} // verus!
