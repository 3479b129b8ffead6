//! Auto-update support: the update manifest, and the integrity check of a
//! downloaded package against the SHA-256 the manifest lists.

use vstd::prelude::*;
use vstd::string::StringSliceAdditionalSpecFns;
use vstd::utf8::encode_utf8;
use sha2::Digest;

verus! {

broadcast use vstd::utf8::group_utf8_lib;

/// Where the update manifest is published.
pub const MANIFEST_URL: &'static str = "https://entanglo.pages.dev/updates/latest-linux.json";

/// The update manifest (`latest-linux.json`).
#[derive(Debug, Clone)]
pub struct UpdateManifest {
    pub version: String,
    pub download_url: String,
    /// Lowercase or uppercase hex of the package's SHA-256.
    pub sha256: String,
    pub size_bytes: u64,
}

/// Checks downloaded updates.
pub struct UpdateService;

/// The SHA-256 digest of `bytes`.
pub uninterp spec fn sha256_digest(bytes: Seq<u8>) -> Seq<u8>;

/// `sha2::Sha256::digest`: the result is the SHA-256 of the input, named
/// `sha256_digest`, 32 bytes long.
#[verifier::external_body]
fn sha256(bytes: &[u8]) -> (digest: Vec<u8>)
    ensures
        digest@ == sha256_digest(bytes@),
        digest@.len() == 32,
{
    sha2::Sha256::digest(bytes).to_vec()
}

/// The lowercase hex digit of a value below 16.
pub open spec fn hex_digit(v: u8) -> char {
    if v < 10 {
        (('0' as u8) + v) as char
    } else {
        (('a' as u8) + v - 10) as char
    }
}

/// Lowercase hex of `bytes`: two digits per byte, high nibble first.
pub open spec fn hex_lower(bytes: Seq<u8>) -> Seq<char> {
    Seq::new(
        2 * bytes.len(),
        |i: int|
            if i % 2 == 0 {
                hex_digit(bytes[i / 2] / 16)
            } else {
                hex_digit(bytes[i / 2] % 16)
            },
    )
}

/// `hex::encode`: lowercase hex, two digits per input byte.
#[verifier::external_body]
fn hex_encode(bytes: &[u8]) -> (text: String)
    requires
        bytes@.len() <= 0x3fff_ffff,
    ensures
        text@ == hex_lower(bytes@),
{
    hex::encode(bytes)
}

/// A byte with ASCII `A`..=`Z` mapped to `a`..=`z`.
pub open spec fn ascii_lower(b: u8) -> u8 {
    if 65 <= b <= 90 {
        (b + 32) as u8
    } else {
        b
    }
}

/// Equality up to ASCII case, byte by byte (`str::eq_ignore_ascii_case`).
pub open spec fn eq_ignore_ascii_case(a: Seq<u8>, b: Seq<u8>) -> bool {
    a.len() == b.len() && forall|i: int| 0 <= i < a.len() ==> ascii_lower(a[i]) == ascii_lower(b[i])
}

/// Whether two byte strings are equal up to ASCII case.
pub fn bytes_eq_ignore_ascii_case(a: &[u8], b: &[u8]) -> (same: bool)
    ensures
        same == eq_ignore_ascii_case(a@, b@),
{
    if a.len() != b.len() {
        return false;
    }
    let mut i: usize = 0;
    while i < a.len()
        invariant
            0 <= i <= a.len(),
            a@.len() == b@.len(),
            forall|j: int| 0 <= j < i ==> ascii_lower(a@[j]) == ascii_lower(b@[j]),
        decreases a.len() - i,
    {
        let x = a[i];
        let y = b[i];
        let lx = if 65 <= x && x <= 90 {
            x + 32
        } else {
            x
        };
        let ly = if 65 <= y && y <= 90 {
            y + 32
        } else {
            y
        };
        if lx != ly {
            return false;
        }
        i = i + 1;
    }
    true
}

impl UpdateService {
    /// Whether `bytes` hash to `expected_hex`: the hex of their SHA-256,
    /// compared ignoring ASCII case.
    pub fn verify_sha256(bytes: &[u8], expected_hex: &str) -> (ok: bool)
        ensures
            ok == eq_ignore_ascii_case(
                encode_utf8(hex_lower(sha256_digest(bytes@))),
                expected_hex.spec_bytes(),
            ),
    {
        let digest = sha256(bytes);
        Self::digest_matches(digest.as_slice(), expected_hex)
    }

    /// Whether a SHA-256 digest matches `expected_hex`: its lowercase hex,
    /// compared ignoring ASCII case.
    pub fn digest_matches(digest: &[u8], expected_hex: &str) -> (ok: bool)
        requires
            digest@.len() <= 0x3fff_ffff,
        ensures
            ok == eq_ignore_ascii_case(encode_utf8(hex_lower(digest@)), expected_hex.spec_bytes()),
    {
        let hex = hex_encode(digest);
        let hex_bytes = hex.as_str().as_bytes();
        bytes_eq_ignore_ascii_case(hex_bytes, expected_hex.as_bytes())
    }
}

} // verus!
