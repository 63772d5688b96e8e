//! Match identity: the immutable identifier that binds two players and a
//! disambiguating nonce to one match.  Every envelope must carry this
//! identifier, and the engine recomputes it on every move to shut out
//! cross-match replay.

use vstd::prelude::*;

use sha2::Digest;

verus! {

/// The SHA-256 digest of a byte string, as the sha2 crate computes it:
/// a pure function of the bytes alone, 32 bytes long.
pub uninterp spec fn sha256_of(bytes: Seq<u8>) -> Seq<u8>;

/// Relies on sha2::Sha256::digest: the digest depends on the input bytes
/// alone and is always 32 bytes long.
#[verifier::external_body]
fn sha256(data: &[u8]) -> (r: [u8; 32])
    ensures
        r@ == sha256_of(data@),
{
    sha2::Sha256::digest(data).into()
}

/// The match identifier: SHA-256 over the fixed-order concatenation of both
/// public keys and the nonce bytes.
pub open spec fn match_id_of(whites_pubkey: Seq<u8>, blacks_pubkey: Seq<u8>, nonce: Seq<u8>) -> Seq<u8> {
    sha256_of(whites_pubkey + blacks_pubkey + nonce)
}

/// Derive the identifier that scopes all moves of one match.  Any byte
/// inputs are accepted and hashed; there is no error condition.
pub fn derive_match_id(whites_pubkey: &[u8], blacks_pubkey: &[u8], nonce: &[u8; 16]) -> (r: [u8; 32])
    ensures
        r@ == match_id_of(whites_pubkey@, blacks_pubkey@, nonce@),
{
    let mut data: Vec<u8> = Vec::new();
    data.extend_from_slice(whites_pubkey);
    data.extend_from_slice(blacks_pubkey);
    data.extend_from_slice(nonce.as_slice());
    proof {
        assert(data@ =~= whites_pubkey@ + blacks_pubkey@ + nonce@);
    }
    sha256(data.as_slice())
}

/// The identifier is deterministic: it depends on nothing but the two
/// public keys and the nonce, so equal inputs always give the equal id.
pub proof fn lemma_match_id_deterministic(
    whites1: Seq<u8>, blacks1: Seq<u8>, nonce1: Seq<u8>,
    whites2: Seq<u8>, blacks2: Seq<u8>, nonce2: Seq<u8>,
)
    requires
        whites1 == whites2,
        blacks1 == blacks2,
        nonce1 == nonce2,
    ensures
        match_id_of(whites1, blacks1, nonce1) == match_id_of(whites2, blacks2, nonce2),
{
}

} // verus!
