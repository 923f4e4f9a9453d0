//! MD5 digests and their hexadecimal form.

use vstd::prelude::*;
use crate::text::Text;

verus! {

/// The MD5 digest of a byte string, as `md5::compute` returns it.
pub uninterp spec fn md5_digest(data: Seq<u8>) -> Seq<u8>;

/// The sixteen hexadecimal digits, lower case, in order of value.
pub open spec fn hex_digits() -> Seq<char> {
    seq!['0', '1', '2', '3', '4', '5', '6', '7', '8', '9', 'a', 'b', 'c', 'd', 'e', 'f']
}

/// The lower-case hexadecimal form of a byte string: two digits for each
/// byte, the high half first.
pub open spec fn hex_lower(bytes: Seq<u8>) -> Text {
    Seq::new(
        2 * bytes.len(),
        |i: int| if i % 2 == 0 {
            hex_digits()[bytes[i / 2] as int / 16]
        } else {
            hex_digits()[bytes[i / 2] as int % 16]
        },
    )
}

/// The lower-case hexadecimal MD5 digest of a text's UTF-8 encoding.
pub open spec fn md5_hex(text: Text) -> Text {
    hex_lower(md5_digest(vstd::utf8::encode_utf8(text)))
}

/// Calls `md5::compute` on the bytes given. Nothing here proves what MD5
/// is: the contract only gives the digest its name, `md5_digest`.
#[verifier::external_body]
fn md5_compute(data: &[u8]) -> (digest: [u8; 16])
    ensures
        digest@ == md5_digest(data@),
{
    md5::compute(data).0
}

/// Formats a digest through `md5::Digest`'s `LowerHex`, which writes each
/// byte as two lower-case hexadecimal digits, in order.
#[verifier::external_body]
fn digest_hex(digest: [u8; 16]) -> (hex: String)
    ensures
        hex@ == hex_lower(digest@),
{
    format!("{:x}", md5::Digest(digest))
}

/// The lower-case hexadecimal MD5 digest of a string.
pub fn md5_hex_of(text: &str) -> (hex: String)
    ensures
        hex@ == md5_hex(text@),
        hex@.len() == 32,
{
    let digest = md5_compute(text.as_bytes());
    digest_hex(digest)
}

} // verus!
