//! The data carried through one match: the signed move envelope, the match
//! state after a move, and the result handed back to the caller.

use vstd::prelude::*;

verus! {

/// Which side makes the next move.
#[derive(Clone, Copy, Debug, PartialEq, Eq, Structural)]
pub enum NextMove {
    Whites,
    Blacks,
}

/// Where the match stands after a move: still running with a known side to
/// move, or over.  Terminal states admit no further moves.
#[derive(Clone, Copy, Debug, PartialEq, Eq, Structural)]
pub enum MatchState {
    OnGoing(NextMove),
    Won,
    Drawn,
}

/// One move of one match, signed by the player entitled to make it.
///
/// `match_id` is the SHA-256 digest of the two public keys and the nonce;
/// `player_sig` is an ECDSA signature over `match_id ‖ board_state ‖
/// player_move` by whichever key is entitled to move in `board_state`.
#[derive(Clone, Debug)]
pub struct ChessMove {
    pub match_id: [u8; 32],
    pub nonce: [u8; 16],
    pub whites_pubkey: Vec<u8>,
    pub blacks_pubkey: Vec<u8>,
    pub board_state: String,
    pub player_move: String,
    pub player_sig: Vec<u8>,
}

/// The mathematical value of a `ChessMove`: each field as a sequence.
pub ghost struct ChessMoveView {
    pub match_id: Seq<u8>,
    pub nonce: Seq<u8>,
    pub whites_pubkey: Seq<u8>,
    pub blacks_pubkey: Seq<u8>,
    pub board_state: Seq<char>,
    pub player_move: Seq<char>,
    pub player_sig: Seq<u8>,
}

impl View for ChessMove {
    type V = ChessMoveView;

    open spec fn view(&self) -> ChessMoveView {
        ChessMoveView {
            match_id: self.match_id@,
            nonce: self.nonce@,
            whites_pubkey: self.whites_pubkey@,
            blacks_pubkey: self.blacks_pubkey@,
            board_state: self.board_state@,
            player_move: self.player_move@,
            player_sig: self.player_sig@,
        }
    }
}

/// What a successful transition produces: the board after the move and the
/// classification of the resulting position.
#[derive(Clone, Debug)]
pub struct ChessMoveResult {
    pub board_state: String,
    pub match_state: MatchState,
}

/// The mathematical value of a `ChessMoveResult`.
pub ghost struct ChessMoveResultView {
    pub board_state: Seq<char>,
    pub match_state: MatchState,
}

impl View for ChessMoveResult {
    type V = ChessMoveResultView;

    open spec fn view(&self) -> ChessMoveResultView {
        ChessMoveResultView { board_state: self.board_state@, match_state: self.match_state }
    }
}

impl PartialEq for ChessMoveResult {
    fn eq(&self, other: &ChessMoveResult) -> (r: bool) {
        self.board_state == other.board_state && self.match_state == other.match_state
    }
}

impl vstd::std_specs::cmp::PartialEqSpecImpl for ChessMoveResult {
    open spec fn obeys_eq_spec() -> bool {
        true
    }

    open spec fn eq_spec(&self, other: &ChessMoveResult) -> bool {
        self.board_state@ == other.board_state@ && self.match_state == other.match_state
    }
}

} // verus!
