//! SHA-256 checksums of canonical payloads, as lowercase hexadecimal text.

use vstd::prelude::*;
use sha2::Digest;
use crate::text::{encode, hex_text, lemma_hex_text_bytes};
use crate::canonical::canonical_payload;
use crate::model::SnapshotPayload;

verus! {

/// The SHA-256 digest of `data` (FIPS 180-4).
pub uninterp spec fn sha256(data: Seq<u8>) -> Seq<u8>;

/// `sha2::Sha256::digest`: returns the SHA-256 digest of `data`, which is
/// 32 bytes long. Nothing is claimed of the digest's value beyond its name.
#[verifier::external_body]
fn sha256_digest(data: &[u8]) -> (r: Vec<u8>)
    ensures
        r@ == sha256(data@),
        r@.len() == 32,
{
    sha2::Sha256::digest(data).to_vec()
}

/// The checksum text of some bytes: their SHA-256 digest in lowercase hex.
pub open spec fn checksum_of_bytes(bytes: Seq<u8>) -> Seq<char> {
    hex_text(sha256(bytes))
}

/// The checksum text that a snapshot header records for a payload.
pub open spec fn checksum_text(payload: &SnapshotPayload) -> Seq<char> {
    checksum_of_bytes(canonical_payload(payload))
}

/// The lowercase hex SHA-256 checksum of `payload_bytes`.
pub fn checksum_for_payload_bytes(payload_bytes: &[u8]) -> (r: String)
    ensures
        r@ == checksum_of_bytes(payload_bytes@),
        r@.len() == 64,
{
    let digest = sha256_digest(payload_bytes);
    proof {
        lemma_hex_text_bytes(digest@);
    }
    encode(digest.as_slice())
}

} // verus!
