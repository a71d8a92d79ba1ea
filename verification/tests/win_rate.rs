use rock_paper_scissors::game::{GameOutcome, GameResult, Move};
use rock_paper_scissors::history::{
    calculate_percentage_won, closing_remark, record, Remark, WinRatePolicy,
};

/// A history with the given results, each with moves that give that result.
fn history_of(results: &[GameResult]) -> Vec<GameOutcome> {
    let mut history = Vec::new();
    for result in results {
        let computer_move = match result {
            GameResult::Win => Move::Scissors,
            GameResult::Loss => Move::Paper,
            GameResult::Tie => Move::Rock,
        };
        record(&mut history, Move::Rock, computer_move, *result);
    }
    history
}

fn repeated(wins: usize, losses: usize, ties: usize) -> Vec<GameOutcome> {
    let mut results = vec![GameResult::Win; wins];
    results.extend(vec![GameResult::Loss; losses]);
    results.extend(vec![GameResult::Tie; ties]);
    history_of(&results)
}

fn percent(history: &Vec<GameOutcome>, policy: WinRatePolicy) -> f64 {
    calculate_percentage_won(history, policy).hundredths() as f64 / 100.0
}

#[test]
fn all_rounds_rate_of_empty_history_is_zero() {
    let history = history_of(&[]);
    let rate = calculate_percentage_won(&history, WinRatePolicy::AllRounds);
    assert_eq!(rate.wins(), 0);
    assert_eq!(rate.rounds(), 0);
    assert_eq!(rate.hundredths(), 0);
    assert_eq!(percent(&history, WinRatePolicy::AllRounds), 0.0);
}

#[test]
fn decisive_rate_of_empty_history_is_zero() {
    let history = history_of(&[]);
    assert_eq!(calculate_percentage_won(&history, WinRatePolicy::DecisiveRounds).hundredths(), 0);
}

#[test]
fn all_rounds_rate_of_two_wins_and_a_loss() {
    let history = history_of(&[GameResult::Win, GameResult::Win, GameResult::Loss]);
    let rate = calculate_percentage_won(&history, WinRatePolicy::AllRounds);
    assert_eq!(rate.wins(), 2);
    assert_eq!(rate.rounds(), 3);
    assert_eq!(rate.hundredths(), 6667);
    assert_eq!(percent(&history, WinRatePolicy::AllRounds), 66.67);
}

#[test]
fn decisive_rate_of_ties_only_is_zero() {
    let history = history_of(&[GameResult::Tie, GameResult::Tie]);
    let rate = calculate_percentage_won(&history, WinRatePolicy::DecisiveRounds);
    assert_eq!(rate.wins(), 0);
    assert_eq!(rate.rounds(), 0);
    assert_eq!(rate.hundredths(), 0);
    assert_eq!(percent(&history, WinRatePolicy::DecisiveRounds), 0.0);
}

#[test]
fn decisive_rate_leaves_ties_out() {
    let history = history_of(&[GameResult::Win, GameResult::Tie, GameResult::Loss]);
    let rate = calculate_percentage_won(&history, WinRatePolicy::DecisiveRounds);
    assert_eq!(rate.wins(), 1);
    assert_eq!(rate.rounds(), 2);
    assert_eq!(rate.hundredths(), 5000);
    assert_eq!(percent(&history, WinRatePolicy::DecisiveRounds), 50.0);
}

#[test]
fn all_rounds_rate_counts_ties() {
    let history = history_of(&[GameResult::Win, GameResult::Tie, GameResult::Loss]);
    let rate = calculate_percentage_won(&history, WinRatePolicy::AllRounds);
    assert_eq!(rate.wins(), 1);
    assert_eq!(rate.rounds(), 3);
    assert_eq!(rate.hundredths(), 3333);
}

#[test]
fn all_rounds_rate_of_ties_only_is_zero() {
    let history = history_of(&[GameResult::Tie, GameResult::Tie]);
    let rate = calculate_percentage_won(&history, WinRatePolicy::AllRounds);
    assert_eq!(rate.wins(), 0);
    assert_eq!(rate.rounds(), 2);
    assert_eq!(rate.hundredths(), 0);
}

#[test]
fn rate_is_rounded_to_the_nearest_hundredth() {
    // 1 of 3 is 33.333..., 2 of 3 is 66.666..., 1 of 7 is 14.2857...
    assert_eq!(calculate_percentage_won(&repeated(1, 2, 0), WinRatePolicy::AllRounds).hundredths(), 3333);
    assert_eq!(calculate_percentage_won(&repeated(2, 1, 0), WinRatePolicy::AllRounds).hundredths(), 6667);
    assert_eq!(calculate_percentage_won(&repeated(1, 6, 0), WinRatePolicy::AllRounds).hundredths(), 1429);
    assert_eq!(calculate_percentage_won(&repeated(1, 7, 0), WinRatePolicy::AllRounds).hundredths(), 1250);
    assert_eq!(calculate_percentage_won(&repeated(5, 0, 0), WinRatePolicy::AllRounds).hundredths(), 10000);
    assert_eq!(calculate_percentage_won(&repeated(0, 4, 0), WinRatePolicy::AllRounds).hundredths(), 0);
}

#[test]
fn rate_halfway_between_two_hundredths_goes_up() {
    // 1 of 32 is 3.125 %, 3 of 32 is 9.375 %
    assert_eq!(calculate_percentage_won(&repeated(1, 31, 0), WinRatePolicy::AllRounds).hundredths(), 313);
    assert_eq!(calculate_percentage_won(&repeated(3, 29, 0), WinRatePolicy::AllRounds).hundredths(), 938);
}

#[test]
fn rate_thresholds_are_strict() {
    let sixty = calculate_percentage_won(&repeated(3, 2, 0), WinRatePolicy::AllRounds);
    assert!(!sixty.is_above(60));
    assert!(sixty.is_above(59));
    assert!(!sixty.is_below(60));
    assert!(sixty.is_below(61));
    let none = calculate_percentage_won(&repeated(0, 0, 3), WinRatePolicy::DecisiveRounds);
    assert!(!none.is_above(0));
    assert!(!none.is_below(0));
    assert!(none.is_below(1));
    let all = calculate_percentage_won(&repeated(4, 0, 0), WinRatePolicy::DecisiveRounds);
    assert!(all.is_above(99));
    assert!(!all.is_above(100));
    assert!(!all.is_below(100));
    assert!(all.is_below(101));
    assert!(!all.is_above(255));
}

#[test]
fn remark_for_a_lucky_session() {
    let rate = calculate_percentage_won(&repeated(7, 3, 0), WinRatePolicy::AllRounds);
    assert_eq!(closing_remark(&rate), Remark::Lucky);
    let rate = calculate_percentage_won(&repeated(61, 39, 0), WinRatePolicy::AllRounds);
    assert_eq!(closing_remark(&rate), Remark::Lucky);
}

#[test]
fn remark_for_an_unlucky_session() {
    let rate = calculate_percentage_won(&repeated(1, 3, 0), WinRatePolicy::AllRounds);
    assert_eq!(closing_remark(&rate), Remark::Unlucky);
    let rate = calculate_percentage_won(&repeated(39, 61, 0), WinRatePolicy::AllRounds);
    assert_eq!(closing_remark(&rate), Remark::Unlucky);
}

#[test]
fn remark_for_a_session_without_rounds() {
    let rate = calculate_percentage_won(&repeated(0, 0, 0), WinRatePolicy::AllRounds);
    assert_eq!(closing_remark(&rate), Remark::Unlucky);
}

#[test]
fn no_remark_between_the_limits() {
    for (wins, losses) in [(2, 3), (1, 1), (3, 2)] {
        let rate = calculate_percentage_won(&repeated(wins, losses, 0), WinRatePolicy::AllRounds);
        assert_eq!(closing_remark(&rate), Remark::Nothing);
    }
}

#[test]
fn remark_depends_on_the_policy() {
    let history = repeated(3, 1, 4);
    let all = calculate_percentage_won(&history, WinRatePolicy::AllRounds);
    let decisive = calculate_percentage_won(&history, WinRatePolicy::DecisiveRounds);
    assert_eq!(all.hundredths(), 3750);
    assert_eq!(decisive.hundredths(), 7500);
    assert_eq!(closing_remark(&all), Remark::Unlucky);
    assert_eq!(closing_remark(&decisive), Remark::Lucky);
}

#[test]
fn record_appends_and_keeps_earlier_rounds() {
    let mut history = Vec::new();
    record(&mut history, Move::Rock, Move::Scissors, GameResult::Win);
    let first = history[0];
    assert_eq!(
        first,
        GameOutcome {
            player_move: Move::Rock,
            computer_move: Move::Scissors,
            result: GameResult::Win
        }
    );
    record(&mut history, Move::Paper, Move::Paper, GameResult::Tie);
    record(&mut history, Move::Scissors, Move::Rock, GameResult::Loss);
    assert_eq!(history.len(), 3);
    assert_eq!(history[0], first);
    assert_eq!(history[1].player_move, Move::Paper);
    assert_eq!(history[1].result, GameResult::Tie);
    assert_eq!(history[2].computer_move, Move::Rock);
    assert_eq!(history[2].result, GameResult::Loss);
}

#[test]
fn wins_never_exceed_the_rounds_counted() {
    for wins in 0..4 {
        for losses in 0..4 {
            for ties in 0..4 {
                let history = repeated(wins, losses, ties);
                for policy in [WinRatePolicy::AllRounds, WinRatePolicy::DecisiveRounds] {
                    let rate = calculate_percentage_won(&history, policy);
                    assert_eq!(rate.wins(), wins);
                    assert!(rate.wins() <= rate.rounds());
                    assert!(rate.hundredths() <= 10000);
                }
                let all = calculate_percentage_won(&history, WinRatePolicy::AllRounds);
                let decisive = calculate_percentage_won(&history, WinRatePolicy::DecisiveRounds);
                assert_eq!(all.rounds(), wins + losses + ties);
                assert_eq!(decisive.rounds(), wins + losses);
            }
        }
    }
}
