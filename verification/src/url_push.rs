//! The scheme allow-list for pushed URLs: only `http`, `https` and `file`
//! URLs are opened. Launching the browser is the caller's job, and it must
//! pass the URL as a process argument, never through a shell.

use vstd::prelude::*;
use vstd::string::StringSliceAdditionalSpecFns;
use vstd::utf8::{encode_utf8, is_char_boundary};

verus! {

broadcast use vstd::utf8::group_utf8_lib;

/// Why a pushed URL is not opened.
#[derive(Debug, Clone, PartialEq, Eq)]
pub enum UrlPushError {
    /// The URL's scheme, lowercased, is not on the allow-list.
    SchemeNotAllowed(String),
}

/// The Unicode lowercase of a text, as `str::to_lowercase` computes it.
pub uninterp spec fn unicode_lowercase(text: Seq<char>) -> Seq<char>;

/// `str::to_lowercase`: the result is the Unicode lowercase of the input,
/// named `unicode_lowercase`.
#[verifier::external_body]
fn to_lowercase(text: &str) -> (lower: String)
    ensures
        lower@ == unicode_lowercase(text@),
{
    text.to_lowercase()
}

/// The UTF-8 of `:`.
pub const COLON: u8 = 58;

/// The index of the first `:` in `bytes`, or the length if there is none.
pub open spec fn first_colon(bytes: Seq<u8>) -> int
    decreases bytes.len(),
{
    if bytes.len() == 0 {
        0
    } else if bytes[0] == COLON {
        0
    } else {
        1 + first_colon(bytes.drop_first())
    }
}

/// The scheme of a URL: its text up to the first `:` (all of it if there
/// is no `:`), as UTF-8.
pub open spec fn scheme_bytes(url: Seq<u8>) -> Seq<u8> {
    url.subrange(0, first_colon(url))
}

/// Whether a lowercased scheme is on the allow-list.
pub open spec fn scheme_allowed(lower: Seq<char>) -> bool {
    lower == "http"@ || lower == "https"@ || lower == "file"@
}

proof fn lemma_first_colon(bytes: Seq<u8>)
    ensures
        0 <= first_colon(bytes) <= bytes.len(),
        first_colon(bytes) < bytes.len() ==> bytes[first_colon(bytes)] == COLON,
        forall|j: int| 0 <= j < first_colon(bytes) ==> bytes[j] != COLON,
    decreases bytes.len(),
{
    if bytes.len() > 0 && bytes[0] != COLON {
        lemma_first_colon(bytes.drop_first());
        assert forall|j: int| 0 <= j < first_colon(bytes) implies bytes[j] != COLON by {
            if j > 0 {
                assert(bytes[j] == bytes.drop_first()[j - 1]);
            }
        }
    }
}

/// Whether a pushed URL may be opened: `Ok` exactly when the Unicode
/// lowercase of its scheme is `http`, `https` or `file`; otherwise the
/// error carries that lowercased scheme.
pub fn check_url_scheme(url: &str) -> (result: Result<(), UrlPushError>)
    ensures
        exists|scheme: Seq<char>| #[trigger] encode_utf8(scheme) == scheme_bytes(url.spec_bytes()),
        forall|scheme: Seq<char>| #[trigger]
            encode_utf8(scheme) == scheme_bytes(url.spec_bytes()) ==> match result {
                Ok(()) => scheme_allowed(unicode_lowercase(scheme)),
                Err(UrlPushError::SchemeNotAllowed(s)) => !scheme_allowed(unicode_lowercase(scheme))
                    && s@ == unicode_lowercase(scheme),
            },
{
    let bytes = url.as_bytes();
    let mut i: usize = 0;
    proof {
        lemma_first_colon(bytes@);
    }
    while i < bytes.len() && bytes[i] != COLON
        invariant
            0 <= i <= bytes.len(),
            i <= first_colon(bytes@),
            0 <= first_colon(bytes@) <= bytes@.len(),
            first_colon(bytes@) < bytes@.len() ==> bytes@[first_colon(bytes@)] == COLON,
            forall|j: int| 0 <= j < first_colon(bytes@) ==> bytes@[j] != COLON,
        decreases bytes.len() - i,
    {
        i = i + 1;
    }
    assert(i == first_colon(bytes@));
    proof {
        vstd::utf8::encode_utf8_valid_utf8(url@);
        vstd::utf8::is_char_boundary_start_end_of_seq(bytes@);
        if i < bytes@.len() {
            vstd::utf8::is_char_boundary_iff_not_is_continuation_byte(bytes@, i as int);
            assert(is_char_boundary(bytes@, i as int));
        }
    }
    let (scheme, _) = url.split_at(i);
    let lower = to_lowercase(scheme);
    proof {
        assert forall|s: Seq<char>| #[trigger]
            encode_utf8(s) == scheme_bytes(url.spec_bytes()) implies s == scheme@ by {
            vstd::utf8::encode_utf8_decode_utf8(s);
            vstd::utf8::encode_utf8_decode_utf8(scheme@);
        }
        assert(encode_utf8(scheme@) == scheme_bytes(url.spec_bytes()));
    }
    check_lowercase_scheme(lower)
}

/// The allow-list applied to a scheme already lowercased: `Ok` exactly for
/// `http`, `https` and `file`; otherwise the error carries the scheme.
pub fn check_lowercase_scheme(lower: String) -> (result: Result<(), UrlPushError>)
    ensures
        match result {
            Ok(()) => scheme_allowed(lower@),
            Err(UrlPushError::SchemeNotAllowed(s)) => !scheme_allowed(lower@) && s@ == lower@,
        },
{
    let http = "http".to_owned();
    let https = "https".to_owned();
    let file = "file".to_owned();
    proof {
        reveal_strlit("http");
        reveal_strlit("https");
        reveal_strlit("file");
    }
    if lower == http || lower == https || lower == file {
        Ok(())
    } else {
        Err(UrlPushError::SchemeNotAllowed(lower))
    }
}

} // verus!
