//! Stepping through a recorded game, and the small rules of the board view.
use crate::text::{same_text, starts_with};
use vstd::prelude::*;

verus! {

/// A step through the positions of a game.
#[derive(Clone, Copy, Debug, PartialEq, Eq, Structural)]
pub enum ReplayMove {
    Next,
    Previous,
}

/// Where a replay stands after a step: the cursor, and the position to put
/// on the board where the step reached one.
#[derive(Clone, Copy, Debug, PartialEq, Eq, Structural)]
pub struct ReplayStep {
    pub cursor: usize,
    pub shown: Option<usize>,
}

/// The step that a key stands for: the right arrow goes on, the left arrow
/// goes back, every other key does nothing.
pub fn key_move(key: &str) -> (res: Option<ReplayMove>)
    ensures
        res == if key@ == "ArrowRight"@ {
            Some(ReplayMove::Next)
        } else if key@ == "ArrowLeft"@ {
            Some(ReplayMove::Previous)
        } else {
            None
        },
{
    if same_text(key, "ArrowRight") {
        Some(ReplayMove::Next)
    } else if same_text(key, "ArrowLeft") {
        Some(ReplayMove::Previous)
    } else {
        None
    }
}

/// Where a replay of `positions` positions stands after a step from
/// `cursor`.
pub open spec fn replayed(cursor: usize, positions: usize, step: ReplayMove) -> ReplayStep {
    match step {
        ReplayMove::Next => if cursor + 1 < positions {
            ReplayStep { cursor: (cursor + 1) as usize, shown: Some((cursor + 1) as usize) }
        } else {
            ReplayStep { cursor, shown: None }
        },
        ReplayMove::Previous => if cursor == 0 {
            ReplayStep { cursor, shown: None }
        } else if cursor - 1 < positions {
            ReplayStep { cursor: (cursor - 1) as usize, shown: Some((cursor - 1) as usize) }
        } else {
            ReplayStep { cursor: (cursor - 1) as usize, shown: None }
        },
    }
}

/// Takes one step through a game of `positions` positions. A step forward
/// stops at the last position, a step back at the first.
pub fn replay(cursor: usize, positions: usize, step: ReplayMove) -> (res: ReplayStep)
    ensures
        res == replayed(cursor, positions, step),
{
    match step {
        ReplayMove::Next => {
            if positions >= 2 && cursor <= positions - 2 {
                ReplayStep { cursor: cursor + 1, shown: Some(cursor + 1) }
            } else {
                ReplayStep { cursor, shown: None }
            }
        },
        ReplayMove::Previous => {
            if cursor == 0 {
                ReplayStep { cursor, shown: None }
            } else if cursor - 1 < positions {
                ReplayStep { cursor: cursor - 1, shown: Some(cursor - 1) }
            } else {
                ReplayStep { cursor: cursor - 1, shown: None }
            }
        },
    }
}

/// A replay that starts inside the game never leaves it.
pub proof fn lemma_replay_stays_in_the_game(cursor: usize, positions: usize, step: ReplayMove)
    requires
        cursor < positions,
    ensures
        replayed(cursor, positions, step).cursor < positions,
        replayed(cursor, positions, step).shown matches Some(p) ==> p == replayed(
            cursor,
            positions,
            step,
        ).cursor,
{
}

/// How the half-move at place `index` of a game is labelled: the number of
/// its turn, which is shown before White's half-moves only.
#[derive(Clone, Copy, Debug, PartialEq, Eq, Structural)]
pub struct MoveLabel {
    pub turn_number: usize,
    pub is_white: bool,
}

/// The label of the half-move at place `index`, counted from 0.
pub fn move_label(index: usize) -> (label: MoveLabel)
    ensures
        label.turn_number == index / 2 + 1,
        label.is_white == (index % 2 == 0),
{
    MoveLabel { turn_number: index / 2 + 1, is_white: index % 2 == 0 }
}

/// The name shown for a player: the recorded one, or `fallback` where none
/// is recorded.
pub fn player_name(recorded: &str, fallback: &str) -> (name: String)
    ensures
        name@ == if recorded@.len() == 0 {
            fallback@
        } else {
            recorded@
        },
{
    if recorded.is_empty() {
        fallback.to_owned()
    } else {
        recorded.to_owned()
    }
}

/// Whether a piece may be picked up: never once the game is over, and only
/// by the side to move. A piece's code begins with `w` or `b`.
pub fn may_pick_up(game_over: bool, white_to_move: bool, piece: &str) -> (res: bool)
    ensures
        res == (!game_over && !(white_to_move && "b"@.is_prefix_of(piece@)) && !(!white_to_move
            && "w"@.is_prefix_of(piece@))),
{
    if game_over {
        return false;
    }
    if (white_to_move && starts_with(piece, "b")) || (!white_to_move && starts_with(piece, "w")) {
        return false;
    }
    true
}

} // verus!
