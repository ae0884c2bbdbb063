//! ETags: the lowercase hex SHA-256 of a file's exact bytes.
//!
//! Every write in the daemon carries the ETag the caller read; a write whose
//! ETag no longer matches the on-disk bytes is refused.

use vstd::prelude::*;
use sha2::Digest;
use crate::text::{chars_of, chars_eq, string_of};
use vstd::string::StringSliceAdditionalSpecFns;

verus! {

/// The SHA-256 digest of a byte string, as computed by the `sha2` crate.
pub uninterp spec fn sha256_digest(data: Seq<u8>) -> Seq<u8>;

/// Calls `sha2::Sha256::digest`: the result is the SHA-256 digest of the
/// argument (named by [`sha256_digest`]) and, as for every SHA-256 digest,
/// is 32 bytes long.
#[verifier::external_body]
fn sha256(data: &[u8]) -> (d: Vec<u8>)
    ensures
        d@ == sha256_digest(data@),
        d@.len() == 32,
{
    sha2::Sha256::digest(data).to_vec()
}

/// Lowercase hexadecimal digit for a value below sixteen.
pub open spec fn hex_digit(n: int) -> char {
    if n < 10 {
        (('0' as int) + n) as char
    } else {
        (('a' as int) + n - 10) as char
    }
}

/// Lowercase hexadecimal encoding, two digits per byte, high nibble first.
pub open spec fn hex_encode(bytes: Seq<u8>) -> Seq<char> {
    Seq::new(
        2 * bytes.len(),
        |i: int|
            if i % 2 == 0 {
                hex_digit(bytes[i / 2] as int / 16)
            } else {
                hex_digit(bytes[i / 2] as int % 16)
            },
    )
}

/// The ETag of a byte string: lowercase hex of its SHA-256 digest.
pub open spec fn etag_of(bytes: Seq<u8>) -> Seq<char> {
    hex_encode(sha256_digest(bytes))
}

fn hex_char(n: u8) -> (c: char)
    requires
        n < 16,
    ensures
        c == hex_digit(n as int),
{
    if n < 10 {
        ((48u8 + n) as char)
    } else {
        ((87u8 + n) as char)
    }
}

/// Hex-encode a byte slice.
pub fn to_hex(bytes: &[u8]) -> (s: Vec<char>)
    requires
        bytes@.len() * 2 <= usize::MAX,
    ensures
        s@ == hex_encode(bytes@),
{
    let mut out: Vec<char> = Vec::new();
    let mut i: usize = 0;
    while i < bytes.len()
        invariant
            i <= bytes@.len(),
            bytes@.len() * 2 <= usize::MAX,
            out@.len() == 2 * i,
            forall|k: int| 0 <= k < 2 * i ==> out@[k] == #[trigger] hex_encode(bytes@)[k],
        decreases bytes@.len() - i,
    {
        let b = bytes[i];
        out.push(hex_char(b / 16));
        out.push(hex_char(b % 16));
        proof {
            assert forall|k: int| 0 <= k < 2 * (i + 1) implies out@[k] == #[trigger] hex_encode(
                bytes@,
            )[k] by {
                if k >= 2 * i {
                    assert(k / 2 == i as int);
                }
            }
        }
        i = i + 1;
    }
    assert(out@ =~= hex_encode(bytes@));
    out
}

/// Compute the ETag of a byte slice: 64 lowercase hex characters.
pub fn compute_etag(data: &[u8]) -> (e: String)
    ensures
        e@ == etag_of(data@),
        e@.len() == 64,
{
    let d = sha256(data);
    let h = to_hex(d.as_slice());
    string_of(h)
}

/// Compute the ETag of a text's UTF-8 bytes.
pub fn compute_etag_str(s: &str) -> (e: String)
    ensures
        e@ == etag_of(s.spec_bytes()),
        e@.len() == 64,
{
    compute_etag(s.as_bytes())
}

/// Whether `expected` is the current ETag of `data`.
pub fn verify_etag(expected: &str, data: &[u8]) -> (ok: bool)
    ensures
        ok == (expected@ == etag_of(data@)),
{
    let d = sha256(data);
    let h = to_hex(d.as_slice());
    let e = chars_of(expected);
    chars_eq(e.as_slice(), h.as_slice())
}

} // verus!
