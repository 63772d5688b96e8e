//! The rules engine, consumed through a board-state string and a move-apply
//! call.  Board parsing, move legality and status classification are
//! cozy_chess's; each call stands behind a trusted wrapper whose contract
//! speaks of the board record and move text alone.

use vstd::prelude::*;

use core::str::FromStr;

verus! {

/// Whether cozy_chess accepts the text as a board record (a FEN line:
/// placement, side to move, castling rights, en passant, counters).
pub uninterp spec fn fen_parses(fen: Seq<char>) -> bool;

/// Whether white is the side to move on the board the record describes.
pub uninterp spec fn white_to_move(fen: Seq<char>) -> bool;

/// Whether cozy_chess accepts the text as a coordinate-notation move.
pub uninterp spec fn move_parses(player_move: Seq<char>) -> bool;

/// Whether the move is legal on the board under full rule legality
/// (checks, pins, castling, promotion, en passant).
pub uninterp spec fn move_legal(fen: Seq<char>, player_move: Seq<char>) -> bool;

/// The record of the board after the legal move is played.
pub uninterp spec fn fen_after(fen: Seq<char>, player_move: Seq<char>) -> Seq<char>;

/// The classification of the position after the legal move: 0 while the
/// game goes on, 1 once the side to move has lost, 2 once it is drawn.
pub uninterp spec fn status_after(fen: Seq<char>, player_move: Seq<char>) -> int;

/// How one legal move goes: the move text may not parse, the move may be
/// illegal on the board, or it is played and yields the next record, its
/// classification, and whose turn comes next.
pub(crate) enum PlayedMove {
    Unparsable,
    Illegal,
    Played { board_state: String, status: u8, white_next: bool },
}

/// Relies on cozy_chess::Board::from_str and Board::side_to_move: the board
/// record parses or not, and its side to move, both functions of the text
/// alone.
#[verifier::external_body]
pub(crate) fn parse_side_to_move(fen: &str) -> (r: Option<bool>)
    ensures
        r is Some <==> fen_parses(fen@),
        r matches Some(white) ==> (white <==> white_to_move(fen@)),
{
    match cozy_chess::Board::from_str(fen) {
        Ok(board) => Some(board.side_to_move() == cozy_chess::Color::White),
        Err(_) => None,
    }
}

/// Relies on cozy_chess::Move::from_str, Board::from_str, Board::try_play,
/// Board::status, Board::side_to_move and the board's Display form: the
/// move is played exactly when it parses and is legal; the record, the
/// classification and the side to move are then read off the played board,
/// and playing a move always hands the turn to the other side.
#[verifier::external_body]
pub(crate) fn play_move(fen: &str, player_move: &str) -> (r: PlayedMove)
    requires
        fen_parses(fen@),
    ensures
        r is Unparsable <==> !move_parses(player_move@),
        move_parses(player_move@) ==> ((r is Illegal) <==> !move_legal(fen@, player_move@)),
        r matches PlayedMove::Played { board_state, status, white_next } ==> move_legal(
            fen@,
            player_move@,
        ) && board_state@ == fen_after(fen@, player_move@) && status as int == status_after(
            fen@,
            player_move@,
        ) && status <= 2 && (white_next <==> !white_to_move(fen@)) && (white_to_move(
            fen_after(fen@, player_move@),
        ) <==> !white_to_move(fen@)),
{
    let mut board = cozy_chess::Board::from_str(fen).unwrap();
    let mv = match cozy_chess::Move::from_str(player_move) {
        Ok(mv) => mv,
        Err(_) => return PlayedMove::Unparsable,
    };
    if board.try_play(mv).is_err() {
        return PlayedMove::Illegal;
    }
    let status: u8 = match board.status() {
        cozy_chess::GameStatus::Ongoing => 0,
        cozy_chess::GameStatus::Won => 1,
        cozy_chess::GameStatus::Drawn => 2,
    };
    let white_next = board.side_to_move() == cozy_chess::Color::White;
    PlayedMove::Played { board_state: board.to_string(), status, white_next }
}

} // verus!
