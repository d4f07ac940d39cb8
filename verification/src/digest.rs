//! The trusted fingerprinting boundary: SHA-256 rendered as lowercase hex.

use vstd::prelude::*;

verus! {

/// The lowercase hexadecimal SHA-256 digest of the UTF-8 encoding of `input`.
/// The digest itself is not modelled; it is named here so that contracts can
/// state exactly which text each fingerprint was computed from.
pub uninterp spec fn sha256_hex(input: Seq<char>) -> Seq<char>;

/// Lowercase hexadecimal digit.
pub open spec fn is_hex_char(c: char) -> bool {
    ('0' <= c && c <= '9') || ('a' <= c && c <= 'f')
}

/// Every character of `s` is a lowercase hexadecimal digit.
pub open spec fn is_hex_seq(s: Seq<char>) -> bool {
    forall|i: int| 0 <= i < s.len() ==> is_hex_char(#[trigger] s[i])
}

/// Relies on sha2::Sha256::digest: the SHA-256 digest of the input bytes,
/// a pure function of the input alone, 32 bytes long; rendered here as 64
/// lowercase hexadecimal characters, two per digest byte.
#[verifier::external_body]
pub(crate) fn sha256_hex_digest(input: &str) -> (r: String)
    ensures
        r@ == sha256_hex(input@),
        r@.len() == 64,
        is_hex_seq(r@),
{
    let digest = <sha2::Sha256 as sha2::Digest>::digest(input.as_bytes());
    let mut out = String::with_capacity(64);
    for byte in digest {
        out.push_str(&format!("{:02x}", byte));
    }
    out
}

} // verus!
