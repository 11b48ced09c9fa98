//! The outcome resolver: a pure, deterministic rule mapping two move values
//! to a result.
//!
//! Moves are encoded as small integers: Rock = 1, Paper = 2, Scissors = 3.
//! Rock beats Scissors, Paper beats Rock, Scissors beats Paper; equal moves
//! tie. Any pairing involving a value outside {1, 2, 3} also resolves to a
//! tie: the resolver degrades on malformed input rather than failing, as a
//! deliberate permissive default. Move values are constrained at submission
//! time by the lifecycle manager.

use vstd::prelude::*;

verus! {

/// The move encoding for Rock.
pub const ROCK: u8 = 1;
/// The move encoding for Paper.
pub const PAPER: u8 = 2;
/// The move encoding for Scissors.
pub const SCISSORS: u8 = 3;

/// The resolved result of comparing the two stored moves: a win for one of
/// the participants, or a tie.
#[derive(Clone, Copy, Debug, PartialEq, Eq, Structural)]
pub enum GameResult {
    Player1Wins,
    Player2Wins,
    Tie,
}

/// Whether `m` is one of the three legal move encodings.
pub open spec fn valid_move(m: u8) -> bool {
    m == ROCK || m == PAPER || m == SCISSORS
}

/// Whether the move `a` beats the move `b`: Rock beats Scissors, Paper beats
/// Rock, Scissors beats Paper. No other pair wins.
pub open spec fn beats(a: u8, b: u8) -> bool {
    ||| (a == ROCK && b == SCISSORS)
    ||| (a == PAPER && b == ROCK)
    ||| (a == SCISSORS && b == PAPER)
}

/// The result of resolving `move1` against `move2`: a win for whichever side
/// played the beating move, and a tie in every other case, including equal
/// moves and any value outside {1, 2, 3}.
pub open spec fn resolve(move1: u8, move2: u8) -> GameResult {
    if beats(move1, move2) {
        GameResult::Player1Wins
    } else if beats(move2, move1) {
        GameResult::Player2Wins
    } else {
        GameResult::Tie
    }
}

/// Resolves the two stored moves to an outcome, exactly as `resolve` states.
pub fn determine_winner(move1: u8, move2: u8) -> (r: GameResult)
    ensures
        r == resolve(move1, move2),
{
    match (move1, move2) {
        (1, 3) | (2, 1) | (3, 2) => GameResult::Player1Wins,
        (3, 1) | (1, 2) | (2, 3) => GameResult::Player2Wins,
        _ => GameResult::Tie,
    }
}

} // verus!
