use vstd::prelude::*;

verus! {

/// The lowercase hexadecimal SHA-256 digest of a byte sequence.
pub uninterp spec fn sha256_hex_of(data: Seq<u8>) -> Seq<char>;

/// Relies on crypto's Sha256 with Digest::input and Digest::result_str: the
/// digest is a function of the input bytes alone, rendered as the 64
/// hexadecimal characters of the 32-byte digest.
#[verifier::external_body]
pub(crate) fn sha256_hex(data: &Vec<u8>) -> (r: String)
    ensures
        r@ == sha256_hex_of(data@),
        r@.len() == 64,
{
    let mut digest = crypto::sha2::Sha256::new();
    crypto::digest::Digest::input(&mut digest, data.as_slice());
    crypto::digest::Digest::result_str(&mut digest)
}

} // verus!
