//! Content identity: MD5 digests, lower-case hex encoding, and the
//! check that decides whether a local file already matches a remote object.
//!
//! A remote store reports an opaque integrity token for each object; after
//! stripping any surrounding quote characters it is compared, byte for byte,
//! against the lower-case hex MD5 digest of the local file's contents.

use vstd::prelude::*;
use crate::strutil::{spec_trim_leading, spec_trim_trailing, str_eq, trim_leading_char,
    trim_trailing_char};

verus! {

/// The MD5 digest of a byte sequence. The algorithm takes pages to state, so
/// the digest is left as a named function of the input bytes alone.
pub uninterp spec fn md5_of(bytes: Seq<u8>) -> Seq<u8>;

/// Relies on `md5::compute`: the 16-byte MD5 digest of the input,
/// a deterministic function of the input bytes alone.
#[verifier::external_body]
fn md5_digest(data: &[u8]) -> (r: Vec<u8>)
    ensures
        r@ == md5_of(data@),
        r@.len() == 16,
{
    let digest = md5::compute(data);
    digest.0.to_vec()
}

/// The lower-case hex character for a nibble value.
pub open spec fn hex_digit(n: u8) -> char {
    if n == 0 {
        '0'
    } else if n == 1 {
        '1'
    } else if n == 2 {
        '2'
    } else if n == 3 {
        '3'
    } else if n == 4 {
        '4'
    } else if n == 5 {
        '5'
    } else if n == 6 {
        '6'
    } else if n == 7 {
        '7'
    } else if n == 8 {
        '8'
    } else if n == 9 {
        '9'
    } else if n == 10 {
        'a'
    } else if n == 11 {
        'b'
    } else if n == 12 {
        'c'
    } else if n == 13 {
        'd'
    } else if n == 14 {
        'e'
    } else {
        'f'
    }
}

/// Lower-case hex encoding: two digits per byte, high nibble first.
pub open spec fn hex_lower_of(bytes: Seq<u8>) -> Seq<char>
    decreases bytes.len(),
{
    if bytes.len() == 0 {
        Seq::<char>::empty()
    } else {
        seq![hex_digit(bytes[0] / 16), hex_digit(bytes[0] % 16)] + hex_lower_of(
            bytes.drop_first(),
        )
    }
}

/// Relies on `base16::encode_lower`: each input byte becomes two lower-case
/// hex digits, high nibble first.
#[verifier::external_body]
fn hex_encode_lower(data: &[u8]) -> (r: String)
    requires
        data@.len() <= usize::MAX / 2,
    ensures
        r@ == hex_lower_of(data@),
{
    base16::encode_lower(data)
}

/// A remote integrity token with any surrounding quote characters removed.
pub open spec fn spec_normalize_digest(s: Seq<char>) -> Seq<char> {
    spec_trim_trailing(spec_trim_leading(s, '"'), '"')
}

/// Strip surrounding quote characters from a remote integrity token.
pub fn normalize_digest(s: &str) -> (r: String)
    ensures
        r@ == spec_normalize_digest(s@),
{
    let unquoted = trim_leading_char(s, '"');
    trim_trailing_char(unquoted.as_str(), '"')
}

/// The content identity test: the bytes hash to exactly the expected digest.
pub open spec fn spec_content_matches(data: Seq<u8>, expected: Seq<char>) -> bool {
    hex_lower_of(md5_of(data)) == expected
}

/// Does the file content `data` hash to `expected_hash` (a lower-case hex
/// MD5 digest, already unquoted)?
pub fn checkfile(data: &[u8], expected_hash: &str) -> (r: bool)
    ensures
        r == spec_content_matches(data@, expected_hash@),
{
    let digest = md5_digest(data);
    let hex = hex_encode_lower(digest.as_slice());
    str_eq(hex.as_str(), expected_hash)
}

} // verus!
