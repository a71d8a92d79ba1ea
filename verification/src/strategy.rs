//! How the opponent picks its move: at random while it knows nothing or is
//! being beaten, and otherwise by guessing the player's next move from the
//! round just played.

use crate::game::{counter_move, counter_of, determine_winner, GameOutcome, GameResult, Move};
use crate::history::{
    calculate_percentage_won, rate_above, rounds_counted, wins_in, WinRatePolicy,
};
use crate::random::random_below;
use rand::rngs::StdRng;
use vstd::prelude::*;

verus! {

/// The opponent stops guessing once the player wins more than this many per
/// cent of the rounds that somebody won.
pub const WINNING_PERCENT: u8 = 55;

/// A winning streak only counts once more than this many rounds were played.
pub const ROUNDS_TO_TRUST: usize = 5;

/// The move that a drawn number stands for.
pub open spec fn move_at(index: int) -> Move {
    if index == 0 {
        Move::Rock
    } else if index == 1 {
        Move::Paper
    } else {
        Move::Scissors
    }
}

/// Turns a drawn number into a move: 0 is rock, 1 is paper, anything else
/// scissors.
pub fn move_from_index(index: u32) -> (m: Move)
    ensures
        m == move_at(index as int),
{
    match index {
        0 => Move::Rock,
        1 => Move::Paper,
        _ => Move::Scissors,
    }
}

/// Picks one of the three moves by drawing from `rng`.
///
/// Any of the three moves may come back; the contract promises none in
/// particular.
pub fn random_move(rng: &mut StdRng) -> (m: Move)
    ensures
        exists|index: int| 0 <= index < 3 && m == #[trigger] move_at(index),
{
    let index: u32 = random_below(rng, 3);
    move_from_index(index)
}

/// What the round just played suggests for the next one, if anything.
///
/// A player who won tends to repeat the winning move, so the answer is the
/// move that wins against it. A player who lost tends to switch to the move
/// that would have won against their own, so the answer is the move that wins
/// against that one. A tie suggests nothing.
pub open spec fn predicted_reply(previous_round: GameOutcome) -> Option<Move> {
    match previous_round.result {
        GameResult::Win => Some(counter_of(previous_round.player_move)),
        GameResult::Loss => Some(counter_of(counter_of(previous_round.player_move))),
        GameResult::Tie => None,
    }
}

/// Computes the reply that the round just played suggests.
pub fn predict_reply(previous_round: &GameOutcome) -> (reply: Option<Move>)
    ensures
        reply == predicted_reply(*previous_round),
{
    match previous_round.result {
        GameResult::Tie => None,
        GameResult::Win => Some(counter_move(previous_round.player_move)),
        GameResult::Loss => Some(counter_move(counter_move(previous_round.player_move))),
    }
}

/// Chooses the opponent's move from the round just played: the predicted
/// reply where there is one, a random move after a tie. A predicted reply
/// leaves the generator as it was.
pub fn find_best_move(previous_round: &GameOutcome, rng: &mut StdRng) -> (m: Move)
    ensures
        predicted_reply(*previous_round) matches Some(reply) ==> m == reply,
        predicted_reply(*previous_round).is_some() ==> *final(rng) == *old(rng),
{
    match predict_reply(previous_round) {
        Some(reply) => reply,
        None => random_move(rng),
    }
}

/// Whether the opponent plays at random after `history`: always before the
/// first round, and later whenever the player has won more than
/// `WINNING_PERCENT` per cent of the decided rounds over more than
/// `ROUNDS_TO_TRUST` rounds. A player who wins that often has probably seen
/// through the guessing.
pub open spec fn plays_at_random(history: Seq<GameOutcome>) -> bool {
    history.len() == 0 || (history.len() > ROUNDS_TO_TRUST && rate_above(
        wins_in(history),
        rounds_counted(history, WinRatePolicy::DecisiveRounds),
        WINNING_PERCENT as nat,
    ))
}

/// The move that the opponent is bound to play after `history`, or `None`
/// where it leaves the choice to chance. Only the last round enters the
/// guess; older rounds matter through the win rate alone.
pub open spec fn planned_move(history: Seq<GameOutcome>) -> Option<Move> {
    if plays_at_random(history) {
        None
    } else {
        predicted_reply(history.last())
    }
}

/// Decides whether the opponent plays its next move at random.
pub fn should_randomize(past_games: &Vec<GameOutcome>) -> (random: bool)
    ensures
        random == plays_at_random(past_games@),
{
    if past_games.len() == 0 {
        return true;
    }
    let rate = calculate_percentage_won(past_games, WinRatePolicy::DecisiveRounds);
    rate.is_above(WINNING_PERCENT) && past_games.len() > ROUNDS_TO_TRUST
}

/// Chooses the opponent's next move from the rounds played so far. The
/// player's coming move is not among the inputs.
pub fn choose_computer_move(past_games: &Vec<GameOutcome>, rng: &mut StdRng) -> (m: Move)
    ensures
        planned_move(past_games@) matches Some(reply) ==> m == reply,
        planned_move(past_games@).is_some() ==> *final(rng) == *old(rng),
{
    if should_randomize(past_games) {
        random_move(rng)
    } else {
        find_best_move(&past_games[past_games.len() - 1], rng)
    }
}

/// Plays one round: the opponent chooses from the rounds so far, the round
/// is decided, and its record is added to the end of `past_games` and handed
/// back.
pub fn play_round(past_games: &mut Vec<GameOutcome>, player_move: Move, rng: &mut StdRng) -> (outcome:
    GameOutcome)
    ensures
        final(past_games)@ == old(past_games)@.push(outcome),
        outcome.player_move == player_move,
        outcome.consistent(),
        planned_move(old(past_games)@) matches Some(reply) ==> outcome.computer_move == reply,
        planned_move(old(past_games)@).is_some() ==> *final(rng) == *old(rng),
{
    let computer_move = choose_computer_move(past_games, rng);
    let result = determine_winner(&player_move, &computer_move);
    let outcome = GameOutcome { player_move, computer_move, result };
    past_games.push(outcome);
    outcome
}

/// The guess written out move by move. After a win of the player the
/// opponent answers rock with paper, paper with scissors and scissors with
/// rock; after a loss of the player it answers rock with scissors, paper with
/// rock and scissors with paper; a tie gives no guess.
pub proof fn lemma_reply_table(previous_round: GameOutcome)
    ensures
        previous_round.result == GameResult::Win ==> predicted_reply(previous_round) == Some(
            match previous_round.player_move {
                Move::Rock => Move::Paper,
                Move::Paper => Move::Scissors,
                Move::Scissors => Move::Rock,
            },
        ),
        previous_round.result == GameResult::Loss ==> predicted_reply(previous_round) == Some(
            match previous_round.player_move {
                Move::Rock => Move::Scissors,
                Move::Paper => Move::Rock,
                Move::Scissors => Move::Paper,
            },
        ),
        previous_round.result == GameResult::Tie ==> predicted_reply(previous_round).is_none(),
{
}

/// While the opponent is guessing, its move depends on the last round alone:
/// two histories that end in the same round get the same answer.
pub proof fn lemma_only_last_round_matters(first: Seq<GameOutcome>, second: Seq<GameOutcome>)
    requires
        !plays_at_random(first),
        !plays_at_random(second),
        first.last() == second.last(),
    ensures
        planned_move(first) == planned_move(second),
{
}

/// A player who has won more than `WINNING_PERCENT` per cent of the decided
/// rounds over more than `ROUNDS_TO_TRUST` rounds meets a random opponent,
/// whatever the last round was.
pub proof fn lemma_winning_player_meets_chance(history: Seq<GameOutcome>)
    requires
        history.len() > ROUNDS_TO_TRUST,
        100 * wins_in(history) > WINNING_PERCENT * rounds_counted(
            history,
            WinRatePolicy::DecisiveRounds,
        ),
    ensures
        plays_at_random(history),
        planned_move(history).is_none(),
{
}

/// Up to `ROUNDS_TO_TRUST` rounds the win rate does not matter: from the
/// second round on the opponent guesses from the last round.
pub proof fn lemma_early_rounds_are_guessed(history: Seq<GameOutcome>)
    requires
        0 < history.len() <= ROUNDS_TO_TRUST,
    ensures
        !plays_at_random(history),
        planned_move(history) == predicted_reply(history.last()),
{
}

} // verus!
