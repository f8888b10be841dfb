//! Qualitative rating of a guess against the target value.

use vstd::prelude::*;

verus! {

/// The feedback given on a guess.
#[derive(Clone, Copy, Debug, PartialEq, Eq, Structural)]
pub enum FeedbackLabel {
    ColdFirstGuess,
    WarmFirstGuess,
    Warmer,
    Cooler,
    ExactMatch,
}

/// The absolute distance between `a` and `b`.
pub open spec fn distance(a: int, b: int) -> int {
    if a >= b {
        a - b
    } else {
        b - a
    }
}

/// A first guess is warm when it lies within a factor of two of the target on
/// both sides: `guess / target < 2` and `target / guess > 1/2`, read over the
/// reals (a guess of zero gives an infinite second ratio). Against a zero
/// target every guess is cold.
pub open spec fn first_guess_warm(target: int, guess: int) -> bool {
    &&& target > 0
    &&& guess < 2 * target
    &&& (guess == 0 || 2 * target > guess)
}

/// The label for `guess`, given the guess before it, if any: a first guess is
/// rated by the ratio test, a later one by whether its distance to the target
/// strictly shrank (a tie counts as cooler).
pub open spec fn classify_spec(target: u64, guess: u64, previous: Option<u64>) -> FeedbackLabel {
    match previous {
        None => if first_guess_warm(target as int, guess as int) {
            FeedbackLabel::WarmFirstGuess
        } else {
            FeedbackLabel::ColdFirstGuess
        },
        Some(p) => if distance(guess as int, target as int) < distance(p as int, target as int) {
            FeedbackLabel::Warmer
        } else {
            FeedbackLabel::Cooler
        },
    }
}

/// The sentence that opens the reply for a label.
pub open spec fn feedback_text(label: FeedbackLabel) -> Seq<char> {
    match label {
        FeedbackLabel::ColdFirstGuess => "Cold! Your guess is more than a factor of two away."@,
        FeedbackLabel::WarmFirstGuess => "Warm! Your guess is within a factor of two."@,
        FeedbackLabel::Warmer => "Warmer! You are closer than with your last guess."@,
        FeedbackLabel::Cooler => "Cooler! You are no closer than with your last guess."@,
        FeedbackLabel::ExactMatch => "Exact match!"@,
    }
}

fn abs_diff(a: u64, b: u64) -> (r: u64)
    ensures
        r == distance(a as int, b as int),
{
    if a >= b {
        a - b
    } else {
        b - a
    }
}

/// Rates `guess` against `target`, given the previous guess of the session.
pub fn classify(target: u64, guess: u64, previous: Option<u64>) -> (r: FeedbackLabel)
    ensures
        r == classify_spec(target, guess, previous),
        r != FeedbackLabel::ExactMatch,
        previous.is_none() ==> (r == FeedbackLabel::WarmFirstGuess || r
            == FeedbackLabel::ColdFirstGuess),
        previous.is_some() && distance(guess as int, target as int) == distance(
            previous.unwrap() as int,
            target as int,
        ) ==> r == FeedbackLabel::Cooler,
{
    match previous {
        None => {
            let warm = if target == 0 {
                false
            } else if guess <= target {
                true
            } else {
                guess - target < target
            };
            if warm {
                FeedbackLabel::WarmFirstGuess
            } else {
                FeedbackLabel::ColdFirstGuess
            }
        },
        Some(p) => {
            if abs_diff(guess, target) < abs_diff(p, target) {
                FeedbackLabel::Warmer
            } else {
                FeedbackLabel::Cooler
            }
        },
    }
}

/// The sentence that opens the reply for a label.
pub fn feedback_sentence(label: FeedbackLabel) -> (r: &'static str)
    ensures
        r@ == feedback_text(label),
{
    match label {
        FeedbackLabel::ColdFirstGuess => "Cold! Your guess is more than a factor of two away.",
        FeedbackLabel::WarmFirstGuess => "Warm! Your guess is within a factor of two.",
        FeedbackLabel::Warmer => "Warmer! You are closer than with your last guess.",
        FeedbackLabel::Cooler => "Cooler! You are no closer than with your last guess.",
        FeedbackLabel::ExactMatch => "Exact match!",
    }
}

} // verus!
