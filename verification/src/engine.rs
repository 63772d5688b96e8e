//! The transition engine: the pure, deterministic function that binds a
//! match's identity, authenticates the mover, validates and applies a move,
//! and classifies the resulting game state.  Every rejection is a typed
//! error; either a complete result is produced or none is.

use vstd::prelude::*;

use crate::game::{ChessMove, ChessMoveResult, ChessMoveResultView, ChessMoveView, MatchState, NextMove};
use crate::identity::{derive_match_id, match_id_of};
use crate::rules::{
    fen_after, fen_parses, move_legal, move_parses, parse_side_to_move, play_move, status_after,
    white_to_move, PlayedMove,
};
use crate::signing::{ecdsa_verifies, ecdsa_verify, message_bytes, signing_message};

verus! {

/// Why an envelope was rejected.  Each failure aborts the whole transition;
/// no partial state is ever produced.
#[derive(Clone, Copy, Debug, PartialEq, Eq, Structural)]
pub enum VerificationError {
    /// The recomputed match identifier disagrees with the embedded one.
    IdentityMismatch,
    /// The board record does not parse.
    InvalidBoardEncoding,
    /// The move text does not parse.
    InvalidMoveEncoding,
    /// The signature does not verify under the key of the side to move.
    SignatureVerificationFailure,
    /// The move parses but the rules engine rejects it on this board.
    IllegalMove,
}

/// The key entitled to sign this envelope: white's exactly when white is to
/// move on the embedded board.
pub open spec fn authorized_key(m: ChessMoveView) -> Seq<u8> {
    if white_to_move(m.board_state) {
        m.whites_pubkey
    } else {
        m.blacks_pubkey
    }
}

/// How the position after a move is classified: won or drawn once
/// terminal, otherwise ongoing with the turn handed to the side that did
/// not just move.
pub open spec fn classify_after(fen: Seq<char>, player_move: Seq<char>) -> MatchState {
    if status_after(fen, player_move) == 1 {
        MatchState::Won
    } else if status_after(fen, player_move) == 2 {
        MatchState::Drawn
    } else if white_to_move(fen) {
        MatchState::OnGoing(NextMove::Blacks)
    } else {
        MatchState::OnGoing(NextMove::Whites)
    }
}

/// What the transition returns for every envelope: the checks in order —
/// identity, board encoding, signature, move encoding, legality — and on
/// success the played-out board with its classification.
pub open spec fn transition(m: ChessMoveView) -> Result<ChessMoveResultView, VerificationError> {
    if m.match_id != match_id_of(m.whites_pubkey, m.blacks_pubkey, m.nonce) {
        Err(VerificationError::IdentityMismatch)
    } else if !fen_parses(m.board_state) {
        Err(VerificationError::InvalidBoardEncoding)
    } else if !ecdsa_verifies(
        authorized_key(m),
        message_bytes(m.match_id, m.board_state, m.player_move),
        m.player_sig,
    ) {
        Err(VerificationError::SignatureVerificationFailure)
    } else if !move_parses(m.player_move) {
        Err(VerificationError::InvalidMoveEncoding)
    } else if !move_legal(m.board_state, m.player_move) {
        Err(VerificationError::IllegalMove)
    } else {
        Ok(ChessMoveResultView {
            board_state: fen_after(m.board_state, m.player_move),
            match_state: classify_after(m.board_state, m.player_move),
        })
    }
}

/// A transition outcome as a mathematical value.
pub open spec fn outcome_view(r: Result<ChessMoveResult, VerificationError>) -> Result<
    ChessMoveResultView,
    VerificationError,
> {
    match r {
        Ok(result) => Ok(result@),
        Err(e) => Err(e),
    }
}

/// Compare two 32-byte identifiers.
fn bytes32_equal(a: &[u8; 32], b: &[u8; 32]) -> (r: bool)
    ensures
        r <==> a@ == b@,
{
    let mut i: usize = 0;
    while i < 32
        invariant
            i <= 32,
            forall|j: int| 0 <= j < i ==> a@[j] == b@[j],
        decreases 32 - i,
    {
        if a[i] != b[i] {
            return false;
        }
        i += 1;
    }
    proof {
        assert(a@ =~= b@);
    }
    true
}

/// Verify one signed move envelope and apply it: recompute and compare the
/// match identifier, parse the board, check the signature under the key of
/// the side to move, play the move under full rule legality, and classify
/// the resulting position.  Deterministic and side-effect-free; identical
/// envelopes always yield identical results.
pub fn verify_and_apply(envelope: &ChessMove) -> (r: Result<ChessMoveResult, VerificationError>)
    ensures
        outcome_view(r) == transition(envelope@),
        r matches Ok(result) ==> (white_to_move(result@.board_state) <==> !white_to_move(
            envelope@.board_state,
        )),
{
    let expected = derive_match_id(
        envelope.whites_pubkey.as_slice(),
        envelope.blacks_pubkey.as_slice(),
        &envelope.nonce,
    );
    if !bytes32_equal(&envelope.match_id, &expected) {
        return Err(VerificationError::IdentityMismatch);
    }
    let white_moves = match parse_side_to_move(envelope.board_state.as_str()) {
        Some(white) => white,
        None => {
            return Err(VerificationError::InvalidBoardEncoding);
        },
    };
    let signer_key = if white_moves {
        envelope.whites_pubkey.as_slice()
    } else {
        envelope.blacks_pubkey.as_slice()
    };
    let message = signing_message(
        &envelope.match_id,
        envelope.board_state.as_str(),
        envelope.player_move.as_str(),
    );
    if !ecdsa_verify(signer_key, message.as_slice(), envelope.player_sig.as_slice()) {
        return Err(VerificationError::SignatureVerificationFailure);
    }
    let (next_board, status, white_next) = match play_move(
        envelope.board_state.as_str(),
        envelope.player_move.as_str(),
    ) {
        PlayedMove::Unparsable => {
            return Err(VerificationError::InvalidMoveEncoding);
        },
        PlayedMove::Illegal => {
            return Err(VerificationError::IllegalMove);
        },
        PlayedMove::Played { board_state, status, white_next } => (board_state, status, white_next),
    };
    let match_state = if status == 1 {
        MatchState::Won
    } else if status == 2 {
        MatchState::Drawn
    } else if white_next {
        MatchState::OnGoing(NextMove::Whites)
    } else {
        MatchState::OnGoing(NextMove::Blacks)
    };
    Ok(ChessMoveResult { board_state: next_board, match_state })
}

/// Replay changes nothing: the transition is a function of the envelope
/// alone, so the identical envelope always yields the identical result.
pub proof fn lemma_transition_deterministic(m1: ChessMoveView, m2: ChessMoveView)
    requires
        m1 == m2,
    ensures
        transition(m1) == transition(m2),
{
}

/// An envelope whose embedded identifier does not equal the recomputed hash
/// is rejected with `IdentityMismatch`, whatever its other fields hold.
pub proof fn lemma_identity_mismatch_rejected(m: ChessMoveView)
    requires
        m.match_id != match_id_of(m.whites_pubkey, m.blacks_pubkey, m.nonce),
    ensures
        transition(m) == Err::<ChessMoveResultView, VerificationError>(
            VerificationError::IdentityMismatch,
        ),
{
}

/// An envelope whose signature does not verify under the key of the side to
/// move — in particular one signed by the other side's key — is rejected
/// with `SignatureVerificationFailure`.
pub proof fn lemma_unauthorized_signature_rejected(m: ChessMoveView)
    requires
        m.match_id == match_id_of(m.whites_pubkey, m.blacks_pubkey, m.nonce),
        fen_parses(m.board_state),
        !ecdsa_verifies(
            authorized_key(m),
            message_bytes(m.match_id, m.board_state, m.player_move),
            m.player_sig,
        ),
    ensures
        transition(m) == Err::<ChessMoveResultView, VerificationError>(
            VerificationError::SignatureVerificationFailure,
        ),
{
}

/// A syntactically valid but rule-illegal move is rejected with
/// `IllegalMove`; no result is produced for it.
pub proof fn lemma_illegal_move_rejected(m: ChessMoveView)
    requires
        m.match_id == match_id_of(m.whites_pubkey, m.blacks_pubkey, m.nonce),
        fen_parses(m.board_state),
        ecdsa_verifies(
            authorized_key(m),
            message_bytes(m.match_id, m.board_state, m.player_move),
            m.player_sig,
        ),
        move_parses(m.player_move),
        !move_legal(m.board_state, m.player_move),
    ensures
        transition(m) == Err::<ChessMoveResultView, VerificationError>(
            VerificationError::IllegalMove,
        ),
{
}

} // verus!
