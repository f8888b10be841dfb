//! A player's running totals, updated when a game ends and when play time is
//! reported.

use vstd::prelude::*;

verus! {

/// How many guess outcomes count as one game.
pub const OUTCOMES_PER_GAME: u64 = 5;

/// A player's totals. Every counter saturates at `u32::MAX`.
#[derive(Clone, Copy, Debug, PartialEq, Eq, Structural)]
pub struct PlayerStats {
    pub total_games: u32,
    pub correct_guesses: u32,
    pub incorrect_guesses: u32,
    pub total_time: u32,
}

/// `v`, or `u32::MAX` where it does not fit.
pub open spec fn saturate(v: int) -> u32 {
    if v > u32::MAX {
        u32::MAX
    } else {
        v as u32
    }
}

/// Totals of a player who has not played yet.
pub open spec fn zero_stats() -> PlayerStats {
    PlayerStats { total_games: 0, correct_guesses: 0, incorrect_guesses: 0, total_time: 0 }
}

/// The totals after one more outcome: the matching counter goes up by one, and
/// the game count goes up whenever the number of outcomes reaches a multiple
/// of five.
pub open spec fn counts_after(s: PlayerStats, correct: bool) -> PlayerStats {
    let c = if correct {
        saturate(s.correct_guesses + 1)
    } else {
        s.correct_guesses
    };
    let i = if correct {
        s.incorrect_guesses
    } else {
        saturate(s.incorrect_guesses + 1)
    };
    PlayerStats {
        total_games: if (c + i) % 5 == 0 {
            saturate(s.total_games + 1)
        } else {
            s.total_games
        },
        correct_guesses: c,
        incorrect_guesses: i,
        total_time: s.total_time,
    }
}

fn saturating_inc(v: u32) -> (r: u32)
    ensures
        r == saturate(v + 1),
{
    if v == u32::MAX {
        v
    } else {
        v + 1
    }
}

impl PlayerStats {
    /// Totals of a player who has not played yet.
    pub fn new() -> (r: PlayerStats)
        ensures
            r == zero_stats(),
    {
        PlayerStats { total_games: 0, correct_guesses: 0, incorrect_guesses: 0, total_time: 0 }
    }
}

impl Default for PlayerStats {
    fn default() -> (r: PlayerStats)
        ensures
            r == zero_stats(),
    {
        PlayerStats::new()
    }
}

/// Counts one outcome, correct or not.
pub fn update_guess_counts(stats: &mut PlayerStats, correct: bool)
    ensures
        *final(stats) == counts_after(*old(stats), correct),
{
    if correct {
        stats.correct_guesses = saturating_inc(stats.correct_guesses);
    } else {
        stats.incorrect_guesses = saturating_inc(stats.incorrect_guesses);
    }
    let outcomes: u64 = stats.correct_guesses as u64 + stats.incorrect_guesses as u64;
    if outcomes % OUTCOMES_PER_GAME == 0 {
        stats.total_games = saturating_inc(stats.total_games);
    }
}

/// Adds `time` to the play time; the other totals stay.
pub fn update_stats(stats: &mut PlayerStats, time: u32)
    ensures
        *final(stats) == (PlayerStats {
            total_time: saturate(old(stats).total_time + time),
            ..*old(stats)
        }),
{
    stats.total_time = if stats.total_time > u32::MAX - time {
        u32::MAX
    } else {
        stats.total_time + time
    };
}

/// The totals on record for a player, or zero totals where none are.
pub fn get_stats(entry: Option<&PlayerStats>) -> (r: PlayerStats)
    ensures
        r == match entry {
            Some(s) => *s,
            None => zero_stats(),
        },
{
    match entry {
        Some(s) => *s,
        None => PlayerStats::new(),
    }
}

} // verus!
