//! The rules of a single round: three moves, a cyclic order among them, and
//! the result of a round as the player sees it.

use vstd::prelude::*;

verus! {

/// One of the three moves.
#[derive(Clone, Copy, Debug, PartialEq, Eq, Structural)]
pub enum Move {
    Rock,
    Paper,
    Scissors,
}

/// How a round ended for the player: a `Win` is a win of the player.
#[derive(Clone, Copy, Debug, PartialEq, Eq, Structural)]
pub enum GameResult {
    Win,
    Loss,
    Tie,
}

/// One finished round: both moves and the result for the player.
#[derive(Clone, Copy, Debug, PartialEq, Eq, Structural)]
pub struct GameOutcome {
    pub player_move: Move,
    pub computer_move: Move,
    pub result: GameResult,
}

/// The move that wins against `m`: paper wraps rock, scissors cut paper,
/// rock blunts scissors.
pub open spec fn counter_of(m: Move) -> Move {
    match m {
        Move::Rock => Move::Paper,
        Move::Paper => Move::Scissors,
        Move::Scissors => Move::Rock,
    }
}

/// Whether `a` wins against `b`.
pub open spec fn beats(a: Move, b: Move) -> bool {
    a == counter_of(b)
}

/// The result of a round for the player who chose `player_move`.
pub open spec fn result_of(player_move: Move, computer_move: Move) -> GameResult {
    if player_move == computer_move {
        GameResult::Tie
    } else if beats(player_move, computer_move) {
        GameResult::Win
    } else {
        GameResult::Loss
    }
}

/// The same round seen from the other side of the table.
pub open spec fn reversed(result: GameResult) -> GameResult {
    match result {
        GameResult::Win => GameResult::Loss,
        GameResult::Loss => GameResult::Win,
        GameResult::Tie => GameResult::Tie,
    }
}

impl GameOutcome {
    /// A record is consistent when its result is the one the two moves give.
    pub open spec fn consistent(self) -> bool {
        self.result == result_of(self.player_move, self.computer_move)
    }
}

/// Computes the move that wins against `m`.
pub fn counter_move(m: Move) -> (c: Move)
    ensures
        c == counter_of(m),
{
    match m {
        Move::Rock => Move::Paper,
        Move::Paper => Move::Scissors,
        Move::Scissors => Move::Rock,
    }
}

/// Decides a round from the player's point of view.
pub fn determine_winner(player_move: &Move, computer_move: &Move) -> (result: GameResult)
    ensures
        result == result_of(*player_move, *computer_move),
{
    if *player_move == *computer_move {
        return GameResult::Tie;
    }
    match (*player_move, *computer_move) {
        (Move::Rock, Move::Scissors) => GameResult::Win,
        (Move::Paper, Move::Rock) => GameResult::Win,
        (Move::Scissors, Move::Paper) => GameResult::Win,
        _ => GameResult::Loss,
    }
}

/// Two equal moves always tie.
pub proof fn lemma_equal_moves_tie(a: Move, b: Move)
    requires
        a == b,
    ensures
        result_of(a, b) == GameResult::Tie,
{
}

/// Two different moves never tie: the player wins exactly when their move is
/// the stronger one in the cycle rock > scissors > paper > rock, and loses
/// otherwise. Swapping the two moves swaps win and loss.
pub proof fn lemma_distinct_moves_decide(a: Move, b: Move)
    requires
        a != b,
    ensures
        result_of(a, b) == GameResult::Win <==> (a, b) == (Move::Rock, Move::Scissors) || (a, b)
            == (Move::Scissors, Move::Paper) || (a, b) == (Move::Paper, Move::Rock),
        result_of(a, b) == GameResult::Loss <==> (a, b) == (Move::Scissors, Move::Rock) || (a, b)
            == (Move::Paper, Move::Scissors) || (a, b) == (Move::Rock, Move::Paper),
        result_of(a, b) != GameResult::Tie,
        result_of(b, a) == reversed(result_of(a, b)),
        result_of(b, a) != result_of(a, b),
{
}

} // verus!
