use vstd::prelude::*;
use sha3::{Digest, Keccak256};
use vstd::string::StringSliceAdditionalSpecFns;

verus! {

/// The Keccak-256 digest of a byte string: 32 bytes.
pub uninterp spec fn keccak256_digest(data: Seq<u8>) -> Seq<u8>;

/// The word made of four bytes, `b0` being the most significant.
pub open spec fn be_word(b0: u8, b1: u8, b2: u8, b3: u8) -> u32 {
    ((b0 as u32) << 24) | ((b1 as u32) << 16) | ((b2 as u32) << 8) | (b3 as u32)
}

/// The selector that a digest gives: its first four bytes, big-endian.
pub open spec fn selector_of(digest: Seq<u8>) -> u32
    recommends
        digest.len() >= 4,
{
    be_word(digest[0], digest[1], digest[2], digest[3])
}

/// Feeds `data` to a fresh `sha3::Keccak256` hasher (`Digest::new`,
/// `Digest::update`, `Digest::finalize`) and returns the 32 bytes of the
/// digest, which depend on `data` alone and are named `keccak256_digest`.
#[verifier::external_body]
fn keccak256(data: &[u8]) -> (digest: [u8; 32])
    ensures
        digest@ == keccak256_digest(data@),
{
    let mut hasher = Keccak256::new();
    hasher.update(data);
    hasher.finalize().into()
}

/// The selector of a digest: its first four bytes as a big-endian word.
pub fn selector_from_digest(digest: &[u8; 32]) -> (r: u32)
    ensures
        r == selector_of(digest@),
{
    ((digest[0] as u32) << 24) | ((digest[1] as u32) << 16) | ((digest[2] as u32) << 8) | (
    digest[3] as u32)
}

/// The selector of a function signature: the first four bytes, big-endian,
/// of the Keccak-256 digest of its UTF-8 bytes.
pub fn selector(signature: &str) -> (r: u32)
    ensures
        r == selector_of(keccak256_digest(signature.spec_bytes())),
{
    let digest: [u8; 32] = keccak256(signature.as_bytes());
    selector_from_digest(&digest)
}

} // verus!
