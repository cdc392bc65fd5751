//! SHA-256 content hashes in their textual form: `0x` followed by the lowercase
//! hexadecimal digest.

use sha2::Digest;
use vstd::prelude::*;
use vstd::string::*;
use vstd::utf8::encode_utf8;

verus! {

/// The SHA-256 digest of a byte string.
pub uninterp spec fn sha256_digest(data: Seq<u8>) -> Seq<u8>;

/// The sixteen lowercase hexadecimal digits, by value.
pub open spec fn hex_digits() -> Seq<char> {
    seq!['0', '1', '2', '3', '4', '5', '6', '7', '8', '9', 'a', 'b', 'c', 'd', 'e', 'f']
}

/// Lowercase hexadecimal text of a byte string: two digits per byte, the high
/// nibble first.
pub open spec fn hex_text(data: Seq<u8>) -> Seq<char>
    decreases data.len(),
{
    if data.len() == 0 {
        Seq::empty()
    } else {
        hex_text(data.drop_last()) + seq![
            hex_digits()[data.last() as int / 16],
            hex_digits()[data.last() as int % 16],
        ]
    }
}

/// The hexadecimal SHA-256 digest of a text's UTF-8 bytes.
pub open spec fn digest_of_text(input: Seq<char>) -> Seq<char> {
    hex_text(sha256_digest(encode_utf8(input)))
}

/// The content hash of a text: `0x` and the hexadecimal SHA-256 digest of its
/// UTF-8 bytes.
pub open spec fn hash_of_text(input: Seq<char>) -> Seq<char> {
    "0x"@ + digest_of_text(input)
}

/// Calls `sha2::Sha256::digest`. Trusted: the bytes returned are the SHA-256
/// digest of `data`, a function of `data` alone.
#[verifier::external_body]
fn sha256(data: &[u8]) -> (digest: Vec<u8>)
    ensures
        digest@ == sha256_digest(data@),
{
    sha2::Sha256::digest(data).to_vec()
}

/// Calls `hex::encode`. Trusted: every byte becomes two lowercase hexadecimal
/// digits, in order.
#[verifier::external_body]
fn hex_encode(data: &[u8]) -> (text: String)
    ensures
        text@ == hex_text(data@),
{
    hex::encode(data)
}

/// The hexadecimal SHA-256 digest of a text.
pub fn sha256_hex(input: &str) -> (hex: String)
    ensures
        hex@ == digest_of_text(input@),
{
    let digest = sha256(input.as_bytes());
    hex_encode(digest.as_slice())
}

/// Hashes a text to its `0x`-prefixed hexadecimal SHA-256 form.
pub fn hash_str(input: &str) -> (hash: String)
    ensures
        hash@ == hash_of_text(input@),
{
    let hex = sha256_hex(input);
    let mut hash = String::from_str("0x");
    hash.append(hex.as_str());
    hash
}

} // verus!
