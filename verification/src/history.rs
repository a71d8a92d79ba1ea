//! The rounds played so far, oldest first, and what they say about how the
//! player is doing.
//!
//! A history is a plain `Vec<GameOutcome>` that its owner lends out. Rounds are
//! only ever added at the end; nothing here removes or rewrites one.

use crate::game::{GameOutcome, GameResult, Move};
use vstd::prelude::*;

verus! {

/// Which rounds a win rate is measured against.
#[derive(Clone, Copy, Debug, PartialEq, Eq, Structural)]
pub enum WinRatePolicy {
    /// Every round counts, ties included.
    AllRounds,
    /// Only rounds that somebody won count.
    DecisiveRounds,
}

/// A player who won more than this many per cent was lucky.
pub const LUCKY_PERCENT: u8 = 60;

/// A player who won less than this many per cent was out of luck.
pub const UNLUCKY_PERCENT: u8 = 40;

/// What there is to say about a session when it ends.
#[derive(Clone, Copy, Debug, PartialEq, Eq, Structural)]
pub enum Remark {
    /// The player won remarkably often.
    Lucky,
    /// The player won remarkably seldom.
    Unlucky,
    /// Nothing worth a word.
    Nothing,
}

/// Number of rounds in `history` that ended with `result`.
pub open spec fn count_of(history: Seq<GameOutcome>, result: GameResult) -> nat {
    history.filter(|round: GameOutcome| round.result == result).len()
}

/// Number of rounds that the player won.
pub open spec fn wins_in(history: Seq<GameOutcome>) -> nat {
    count_of(history, GameResult::Win)
}

/// Number of rounds that nobody won.
pub open spec fn ties_in(history: Seq<GameOutcome>) -> nat {
    count_of(history, GameResult::Tie)
}

/// Number of rounds that a win rate under `policy` is measured against.
pub open spec fn rounds_counted(history: Seq<GameOutcome>, policy: WinRatePolicy) -> nat {
    match policy {
        WinRatePolicy::AllRounds => history.len(),
        WinRatePolicy::DecisiveRounds => (history.len() - ties_in(history)) as nat,
    }
}

/// A rate of `wins` out of `rounds` as a percentage with two decimals, given
/// in hundredths of a per cent: the nearest such value, the upper one where
/// two are equally near, and 0 where there are no rounds.
pub open spec fn percent_hundredths(wins: nat, rounds: nat) -> nat {
    if rounds == 0 {
        0
    } else {
        ((20000 * wins + rounds) / (2 * rounds)) as nat
    }
}

/// Whether `wins` out of `rounds` is more than `percent` per cent. With no
/// rounds the rate is zero, which is above nothing.
pub open spec fn rate_above(wins: nat, rounds: nat, percent: nat) -> bool {
    100 * wins > percent * rounds
}

/// Whether `wins` out of `rounds` is less than `percent` per cent. With no
/// rounds the rate is zero.
pub open spec fn rate_below(wins: nat, rounds: nat, percent: nat) -> bool {
    if rounds == 0 {
        0 < percent
    } else {
        100 * wins < percent * rounds
    }
}

/// The remark that `wins` out of `rounds` deserves: lucky above
/// `LUCKY_PERCENT` per cent, unlucky below `UNLUCKY_PERCENT` per cent, and
/// nothing in between, both limits included.
pub open spec fn remark_for(wins: nat, rounds: nat) -> Remark {
    if rate_above(wins, rounds, LUCKY_PERCENT as nat) {
        Remark::Lucky
    } else if rate_below(wins, rounds, UNLUCKY_PERCENT as nat) {
        Remark::Unlucky
    } else {
        Remark::Nothing
    }
}

/// Counting one more round: the count for `result` grows by one exactly when
/// the new round ended that way.
pub proof fn lemma_count_push(history: Seq<GameOutcome>, round: GameOutcome, result: GameResult)
    ensures
        count_of(history.push(round), result) == count_of(history, result) + (if round.result
            == result {
            1nat
        } else {
            0nat
        }),
{
    reveal(Seq::filter);
    assert(history.push(round).drop_last() =~= history);
}

/// No round is counted twice: wins and ties together never exceed the number
/// of rounds, so the wins never exceed the rounds they are measured against.
pub proof fn lemma_wins_within_rounds(history: Seq<GameOutcome>, policy: WinRatePolicy)
    ensures
        wins_in(history) + ties_in(history) <= history.len(),
        wins_in(history) <= rounds_counted(history, policy),
    decreases history.len(),
{
    reveal(Seq::filter);
    if history.len() > 0 {
        let earlier = history.drop_last();
        lemma_wins_within_rounds(earlier, policy);
        assert(earlier.push(history.last()) =~= history);
        lemma_count_push(earlier, history.last(), GameResult::Win);
        lemma_count_push(earlier, history.last(), GameResult::Tie);
    }
}

/// How often the player won, kept as two exact counts rather than as a
/// rounded number: `won()` wins out of `counted()` rounds.
#[derive(Clone, Copy, Debug)]
pub struct WinRate {
    wins: usize,
    rounds: usize,
}

impl WinRate {
    #[verifier::type_invariant]
    spec fn wins_fit(self) -> bool {
        self.wins <= self.rounds
    }

    /// The number of wins.
    pub closed spec fn won(self) -> nat {
        self.wins as nat
    }

    /// The number of rounds that the wins are measured against.
    pub closed spec fn counted(self) -> nat {
        self.rounds as nat
    }

    /// The number of wins.
    pub fn wins(&self) -> (n: usize)
        ensures
            n == self.won(),
    {
        self.wins
    }

    /// The number of rounds that the wins are measured against.
    pub fn rounds(&self) -> (n: usize)
        ensures
            n == self.counted(),
    {
        self.rounds
    }

    /// The rate as a percentage with two decimals, in hundredths of a per
    /// cent: 6667 stands for 66.67 %. A rate over no rounds is 0.
    pub fn hundredths(&self) -> (h: u32)
        ensures
            h == percent_hundredths(self.won(), self.counted()),
            h <= 10000,
    {
        if self.rounds == 0 {
            return 0;
        }
        proof {
            use_type_invariant(self);
            lemma_percent_hundredths_nearest(self.won(), self.counted());
        }
        let wins = self.wins as u128;
        let rounds = self.rounds as u128;
        let rounded = (20000 * wins + rounds) / (2 * rounds);
        rounded as u32
    }

    /// Whether the rate is more than `percent` per cent.
    pub fn is_above(&self, percent: u8) -> (above: bool)
        ensures
            above == rate_above(self.won(), self.counted(), percent as nat),
    {
        let rounds = self.rounds as u128;
        let limit = percent as u128;
        assert(limit * rounds <= 255 * rounds) by (nonlinear_arith)
            requires
                limit <= 255,
        ;
        100 * (self.wins as u128) > limit * rounds
    }

    /// Whether the rate is less than `percent` per cent.
    pub fn is_below(&self, percent: u8) -> (below: bool)
        ensures
            below == rate_below(self.won(), self.counted(), percent as nat),
    {
        if self.rounds == 0 {
            return 0 < percent;
        }
        let rounds = self.rounds as u128;
        let limit = percent as u128;
        assert(limit * rounds <= 255 * rounds) by (nonlinear_arith)
            requires
                limit <= 255,
        ;
        100 * (self.wins as u128) < limit * rounds
    }
}

/// The rounded percentage is the nearest one: it lies within half a
/// hundredth of the exact rate, the upper of two candidates where the exact
/// rate falls halfway between them. It never exceeds 100 % while the wins do
/// not exceed the rounds.
pub proof fn lemma_percent_hundredths_nearest(wins: nat, rounds: nat)
    requires
        rounds > 0,
    ensures
        2 * rounds * percent_hundredths(wins, rounds) <= 20000 * wins + rounds,
        20000 * wins + rounds < 2 * rounds * (percent_hundredths(wins, rounds) + 1),
        wins <= rounds ==> percent_hundredths(wins, rounds) <= 10000,
{
    let total = (20000 * wins + rounds) as int;
    let divisor = (2 * rounds) as int;
    let h = total / divisor;
    vstd::arithmetic::div_mod::lemma_fundamental_div_mod(total, divisor);
    vstd::arithmetic::div_mod::lemma_mod_bound(total, divisor);
    assert(0 <= h) by {
        vstd::arithmetic::div_mod::lemma_div_pos_is_pos(total, divisor);
    }
    assert(divisor * (h + 1) == divisor * h + divisor) by (nonlinear_arith);
    if wins <= rounds && h > 10000 {
        assert(divisor * h >= divisor * 10001) by (nonlinear_arith)
            requires
                h >= 10001,
                divisor > 0,
        ;
    }
}

/// A rate over no rounds is zero: under either policy a history without a
/// counted round, be it empty or all ties, gives 0 % and never divides by
/// zero.
pub proof fn lemma_rate_without_rounds(history: Seq<GameOutcome>, policy: WinRatePolicy)
    requires
        rounds_counted(history, policy) == 0,
    ensures
        wins_in(history) == 0,
        percent_hundredths(wins_in(history), rounds_counted(history, policy)) == 0,
        !rate_above(wins_in(history), rounds_counted(history, policy), 0),
{
    lemma_wins_within_rounds(history, policy);
}

/// Measures how often the player won over `past_games`, against the rounds
/// that `policy` counts.
pub fn calculate_percentage_won(past_games: &Vec<GameOutcome>, policy: WinRatePolicy) -> (rate:
    WinRate)
    ensures
        rate.won() == wins_in(past_games@),
        rate.counted() == rounds_counted(past_games@, policy),
{
    let mut past_game_win_count: usize = 0;
    let mut tie_games: usize = 0;
    let mut i: usize = 0;
    while i < past_games.len()
        invariant
            i <= past_games.len(),
            past_game_win_count == wins_in(past_games@.take(i as int)),
            tie_games == ties_in(past_games@.take(i as int)),
            past_game_win_count + tie_games <= i,
        decreases past_games.len() - i,
    {
        let game = &past_games[i];
        proof {
            let seen = past_games@.take(i as int);
            assert(seen.push(*game) =~= past_games@.take(i + 1));
            lemma_count_push(seen, *game, GameResult::Win);
            lemma_count_push(seen, *game, GameResult::Tie);
        }
        if game.result == GameResult::Win {
            past_game_win_count += 1;
        }
        if game.result == GameResult::Tie {
            tie_games += 1;
        }
        i += 1;
    }
    assert(past_games@.take(i as int) =~= past_games@);
    let rounds = match policy {
        WinRatePolicy::AllRounds => past_games.len(),
        WinRatePolicy::DecisiveRounds => past_games.len() - tie_games,
    };
    WinRate { wins: past_game_win_count, rounds }
}

/// Chooses the remark that closes a session with this win rate.
pub fn closing_remark(rate: &WinRate) -> (remark: Remark)
    ensures
        remark == remark_for(rate.won(), rate.counted()),
{
    if rate.is_above(LUCKY_PERCENT) {
        Remark::Lucky
    } else if rate.is_below(UNLUCKY_PERCENT) {
        Remark::Unlucky
    } else {
        Remark::Nothing
    }
}

/// Appends a finished round to the history. Earlier rounds stay as they are.
pub fn record(
    history: &mut Vec<GameOutcome>,
    player_move: Move,
    computer_move: Move,
    result: GameResult,
)
    ensures
        final(history)@ == old(history)@.push((GameOutcome { player_move, computer_move, result })),
{
    history.push(GameOutcome { player_move, computer_move, result });
}

} // verus!
