use vstd::prelude::*;
use sha2::Digest;
use sha2::Sha256;
use crate::endian::le_u32;
use crate::endian::read_le_u32;
use crate::endian::u32_le;
use vstd::slice::slice_subrange;

verus! {

/// The SHA-256 digest of a byte string.
pub uninterp spec fn sha256(data: Seq<u8>) -> Seq<u8>;

/// The integrity digest of a payload: SHA-256 applied twice.
pub open spec fn double_sha256(payload: Seq<u8>) -> Seq<u8> {
    sha256(sha256(payload))
}

/// The 4-byte tag that stands in a frame header: the first four bytes of
/// the digest, read as a little-endian integer so that they reach the wire
/// in digest order.
pub open spec fn tag_of(digest: Seq<u8>) -> u32 {
    le_u32(digest.subrange(0, 4))
}

/// One pass of `sha2::Sha256` over `data` (`Digest::chain_update`, then
/// `Digest::finalize`): the 32 bytes that come back are the SHA-256
/// digest of exactly these bytes.
#[verifier::external_body]
fn sha256_digest(data: &[u8]) -> (digest: [u8; 32])
    ensures
        digest@ == sha256(data@),
{
    Sha256::default().chain_update(data).finalize().into()
}

/// The full 32-byte double-SHA-256 digest of `payload`.
pub fn checksum(payload: &[u8]) -> (digest: [u8; 32])
    ensures
        digest@ == double_sha256(payload@),
{
    let first = sha256_digest(payload);
    sha256_digest(first.as_slice())
}

/// The header tag of a digest: its first four bytes as a little-endian
/// integer.
pub fn checksum_tag(digest: &[u8; 32]) -> (tag: u32)
    ensures
        tag == tag_of(digest@),
{
    read_le_u32(slice_subrange(digest.as_slice(), 0, 4))
}

/// Equal payloads have equal digests and equal tags: the checksum depends
/// on the payload bytes alone.
pub proof fn lemma_checksum_deterministic(first: Seq<u8>, second: Seq<u8>)
    requires
        first =~= second,
    ensures
        double_sha256(first) == double_sha256(second),
        tag_of(double_sha256(first)) == tag_of(double_sha256(second)),
{
}

/// Written little-endian, the tag of a digest is the digest's first four
/// bytes.
pub proof fn lemma_tag_bytes(digest: Seq<u8>)
    requires
        digest.len() >= 4,
    ensures
        u32_le(tag_of(digest)) == digest.subrange(0, 4),
{
    assert(u32_le(tag_of(digest)) =~= digest.subrange(0, 4));
}

} // verus!
