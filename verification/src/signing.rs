//! Move authentication: the byte string a player signs for one move, and the
//! ECDSA check that ties an envelope to the key entitled to move.

use vstd::prelude::*;

use k256::ecdsa::signature::Verifier;

verus! {

/// Whether the ECDSA signature checks out under the compressed public key
/// for exactly this message, as k256 decides it.  Verification is a pure
/// function of the three byte strings.
pub uninterp spec fn ecdsa_verifies(pubkey: Seq<u8>, msg: Seq<u8>, sig: Seq<u8>) -> bool;

/// Relies on k256::ecdsa::VerifyingKey::try_from (SEC1 key decoding),
/// k256::ecdsa::Signature::try_from (fixed-size signature decoding) and
/// Verifier::verify: deterministic in the three byte strings; a key or
/// signature that does not decode never verifies.
#[verifier::external_body]
pub(crate) fn ecdsa_verify(pubkey: &[u8], msg: &[u8], sig: &[u8]) -> (r: bool)
    ensures
        r == ecdsa_verifies(pubkey@, msg@, sig@),
{
    let key = match k256::ecdsa::VerifyingKey::try_from(pubkey) {
        Ok(key) => key,
        Err(_) => return false,
    };
    let sig = match k256::ecdsa::Signature::try_from(sig) {
        Ok(sig) => sig,
        Err(_) => return false,
    };
    key.verify(msg, &sig).is_ok()
}

/// The byte string that the mover signs: matchId ‖ boardState ‖ playerMove,
/// the text fields taken as their UTF-8 bytes.
pub open spec fn message_bytes(match_id: Seq<u8>, board_state: Seq<char>, player_move: Seq<char>) -> Seq<u8> {
    match_id + vstd::utf8::encode_utf8(board_state) + vstd::utf8::encode_utf8(player_move)
}

/// Build the exact byte concatenation that the signature covers.
pub fn signing_message(match_id: &[u8; 32], board_state: &str, player_move: &str) -> (r: Vec<u8>)
    ensures
        r@ == message_bytes(match_id@, board_state@, player_move@),
{
    let mut data: Vec<u8> = Vec::new();
    data.extend_from_slice(match_id.as_slice());
    data.extend_from_slice(board_state.as_bytes());
    data.extend_from_slice(player_move.as_bytes());
    proof {
        assert(data@ =~= message_bytes(match_id@, board_state@, player_move@));
    }
    data
}

} // verus!
