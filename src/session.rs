//! The guessing session: up to four guesses, taken strictly in order.

use vstd::prelude::*;
use vstd::string::*;
use crate::classify::{classify, classify_spec, distance, feedback_sentence, feedback_text, FeedbackLabel};
use crate::format::{billion_text, decimal, decimal_text, format_billion, nearest_billion, round_billion};
use crate::hint::{hint_for_round, hint_spec, hint_text, CompanyRecord, HintView, RecordView};

verus! {

/// The number of rounds in a game.
pub const LAST_ROUND: u64 = 4;

/// Where a session stands.
#[derive(Clone, Copy, Debug, PartialEq, Eq, Structural)]
pub enum SessionStatus {
    InProgress,
    Won,
    Revealed,
}

/// Why a guess was refused. A refused guess leaves the session unchanged.
#[derive(Clone, Copy, Debug, PartialEq, Eq, Structural)]
pub enum GuessError {
    /// The round is not the next one expected.
    OutOfSequenceRound,
    /// The session has already been won or revealed.
    SessionAlreadyTerminal,
    /// No target has been assigned.
    NoActiveTarget,
}

/// A game on one company: the record it was started on, the guesses taken so
/// far (guess `k` was made in round `k + 1`), and its status.
pub struct GuessSession {
    record: CompanyRecord,
    history: Vec<u64>,
    status: SessionStatus,
}

/// The mathematical content of a `GuessSession`.
pub struct SessionView {
    pub record: RecordView,
    pub history: Seq<u64>,
    pub status: SessionStatus,
}

impl View for GuessSession {
    type V = SessionView;

    closed spec fn view(&self) -> SessionView {
        SessionView { record: self.record@, history: self.history@, status: self.status }
    }
}

/// A session in progress has played at most three rounds; a won one at least
/// one; a revealed one all four.
pub open spec fn session_wf(s: SessionView) -> bool {
    &&& s.history.len() <= 4
    &&& s.status == SessionStatus::InProgress ==> s.history.len() <= 3
    &&& s.status == SessionStatus::Won ==> s.history.len() >= 1
    &&& s.status == SessionStatus::Revealed ==> s.history.len() == 4
}

/// A guess counts as exact when it rounds to the same whole billion as the
/// target.
pub open spec fn is_exact(target: u64, guess: u64) -> bool {
    round_billion(target as nat) == round_billion(guess as nat)
}

/// The last guess taken, if any.
pub open spec fn previous_guess(s: SessionView) -> Option<u64> {
    if s.history.len() == 0 {
        None
    } else {
        Some(s.history.last())
    }
}

/// The reply to an exact guess.
pub open spec fn won_text(record: RecordView) -> Seq<char> {
    "Correct! The company ranks #"@ + decimal(record.rank as nat)
        + " in the industry "@ + record.industry + ". "@ + record.description
}

/// The reply to a wrong guess in the last round: the guess, the target and
/// their distance, each in billions.
pub open spec fn reveal_text(target: u64, guess: u64) -> Seq<char> {
    "Your guess: "@ + billion_text(guess as nat) + ". Actual value: "@ + billion_text(
        target as nat,
    ) + ". Difference: "@ + billion_text(distance(guess as int, target as int) as nat) + "."@
}

/// The reply to a wrong guess in rounds one to three: the feedback on it,
/// then the round's hint.
pub open spec fn round_text(s: SessionView, round: int, guess: u64) -> Seq<char> {
    feedback_text(classify_spec(s.record.market_value, guess, previous_guess(s))) + hint_text(
        hint_spec(round, s.record),
    )
}

/// What submitting `guess` for `round` to `s` returns.
pub open spec fn submit_result(s: SessionView, round: int, guess: u64) -> Result<
    Seq<char>,
    GuessError,
> {
    if s.status != SessionStatus::InProgress {
        Err(GuessError::SessionAlreadyTerminal)
    } else if round != s.history.len() + 1 {
        Err(GuessError::OutOfSequenceRound)
    } else if is_exact(s.record.market_value, guess) {
        Ok(won_text(s.record))
    } else if round == 4 {
        Ok(reveal_text(s.record.market_value, guess))
    } else {
        Ok(round_text(s, round, guess))
    }
}

/// The session after submitting `guess` for `round` to `s`: unchanged when
/// the guess is refused; otherwise the guess is appended, and the session is
/// won on an exact guess and revealed after a wrong one in the last round.
pub open spec fn submit_state(s: SessionView, round: int, guess: u64) -> SessionView {
    if s.status != SessionStatus::InProgress || round != s.history.len() + 1 {
        s
    } else {
        SessionView {
            record: s.record,
            history: s.history.push(guess),
            status: if is_exact(s.record.market_value, guess) {
                SessionStatus::Won
            } else if round == 4 {
                SessionStatus::Revealed
            } else {
                SessionStatus::InProgress
            },
        }
    }
}

/// The view of a `Result` carrying a reply.
pub open spec fn reply_view(r: Result<String, GuessError>) -> Result<Seq<char>, GuessError> {
    match r {
        Ok(t) => Ok(t@),
        Err(e) => Err(e),
    }
}

impl GuessSession {
    /// Every session is well formed.
    #[verifier::type_invariant]
    closed spec fn inv(&self) -> bool {
        session_wf(self@)
    }

    /// A fresh session on `record`: in progress, no guesses yet.
    pub fn new(record: CompanyRecord) -> (r: GuessSession)
        ensures
            r@.record == record@,
            r@.history == Seq::<u64>::empty(),
            r@.status == SessionStatus::InProgress,
            session_wf(r@),
    {
        GuessSession { record, history: Vec::new(), status: SessionStatus::InProgress }
    }

    /// The session's status.
    pub fn status(&self) -> (r: SessionStatus)
        ensures
            r == self@.status,
    {
        self.status
    }

    /// The number of guesses taken so far.
    pub fn rounds_played(&self) -> (r: usize)
        ensures
            r == self@.history.len(),
    {
        self.history.len()
    }

    /// The guesses taken so far, in order.
    pub fn history(&self) -> (r: &Vec<u64>)
        ensures
            r@ == self@.history,
    {
        &self.history
    }

    /// The record the session was started on.
    pub fn record(&self) -> (r: &CompanyRecord)
        ensures
            r@ == self@.record,
    {
        &self.record
    }

    /// The outcome to report once the game is over: `Some(true)` when won,
    /// `Some(false)` when revealed, `None` while it is in progress.
    pub fn outcome(&self) -> (r: Option<bool>)
        ensures
            r == match self@.status {
                SessionStatus::InProgress => None::<bool>,
                SessionStatus::Won => Some(true),
                SessionStatus::Revealed => Some(false),
            },
    {
        match self.status {
            SessionStatus::InProgress => None,
            SessionStatus::Won => Some(true),
            SessionStatus::Revealed => Some(false),
        }
    }

    /// Takes `guess` as the guess for `round` and returns the reply: the win
    /// message on an exact guess; in rounds one to three the feedback and the
    /// round's hint; in round four the final comparison.
    pub fn submit(&mut self, round: u64, guess: u64) -> (r: Result<String, GuessError>)
        ensures
            reply_view(r) == submit_result(old(self)@, round as int, guess),
            final(self)@ == submit_state(old(self)@, round as int, guess),
            session_wf(final(self)@),
    {
        proof {
            use_type_invariant(&*self);
        }
        if self.status != SessionStatus::InProgress {
            return Err(GuessError::SessionAlreadyTerminal);
        }
        if round != self.history.len() as u64 + 1 {
            return Err(GuessError::OutOfSequenceRound);
        }
        let target = self.record.market_value;
        if nearest_billion(target) == nearest_billion(guess) {
            self.record_guess(guess, SessionStatus::Won);
            return Ok(self.won_message());
        }
        if round == LAST_ROUND {
            self.record_guess(guess, SessionStatus::Revealed);
            return Ok(reveal_message(target, guess));
        }
        let previous = if self.history.len() == 0 {
            None
        } else {
            Some(self.history[self.history.len() - 1])
        };
        let label: FeedbackLabel = classify(target, guess, previous);
        let mut reply = String::from_str(feedback_sentence(label));
        let hint = hint_for_round(round, &self.record);
        let hint_line = hint.render();
        reply.append(hint_line.as_str());
        self.record_guess(guess, SessionStatus::InProgress);
        Ok(reply)
    }

    /// Appends `guess` to the history and moves to `status`.
    fn record_guess(&mut self, guess: u64, status: SessionStatus)
        requires
            session_wf(
                SessionView { record: old(self)@.record, history: old(self)@.history.push(guess), status },
            ),
        ensures
            final(self)@ == (SessionView {
                record: old(self)@.record,
                history: old(self)@.history.push(guess),
                status,
            }),
    {
        let mut history = self.history.clone();
        history.push(guess);
        let record = self.record.snapshot();
        *self = GuessSession { record, history, status };
    }

    fn won_message(&self) -> (r: String)
        ensures
            r@ == won_text(self@.record),
    {
        let mut t = String::from_str("Correct! The company ranks #");
        let rank = decimal_text(self.record.rank as u64);
        t.append(rank.as_str());
        t.append(" in the industry ");
        t.append(self.record.industry.as_str());
        t.append(". ");
        t.append(self.record.description.as_str());
        t
    }
}

fn reveal_message(target: u64, guess: u64) -> (r: String)
    ensures
        r@ == reveal_text(target, guess),
{
    let difference = if guess >= target {
        guess - target
    } else {
        target - guess
    };
    let mut t = String::from_str("Your guess: ");
    let g = format_billion(guess);
    t.append(g.as_str());
    t.append(". Actual value: ");
    let a = format_billion(target);
    t.append(a.as_str());
    t.append(". Difference: ");
    let d = format_billion(difference);
    t.append(d.as_str());
    t.append(".");
    t
}

/// Submits `guess` for `round` to the current session, if one has been
/// started; without a session the guess is refused with `NoActiveTarget`.
pub fn submit_guess(slot: &mut Option<GuessSession>, round: u64, guess: u64) -> (r: Result<
    String,
    GuessError,
>)
    ensures
        match *old(slot) {
            None => r == Err::<String, GuessError>(GuessError::NoActiveTarget) && (*final(slot)).is_none(),
            Some(s) => {
                &&& reply_view(r) == submit_result(s@, round as int, guess)
                &&& *final(slot) matches Some(t) && t@ == submit_state(s@, round as int, guess)
            },
        },
{
    match slot {
        None => Err(GuessError::NoActiveTarget),
        Some(session) => session.submit(round, guess),
    }
}

/// A guess for any round other than the next one is refused as out of
/// sequence and leaves the guesses unchanged.
pub proof fn lemma_round_ordering(s: SessionView, round: int, guess: u64)
    requires
        s.status == SessionStatus::InProgress,
        round != s.history.len() + 1,
    ensures
        submit_result(s, round, guess) == Err::<Seq<char>, GuessError>(
            GuessError::OutOfSequenceRound,
        ),
        submit_state(s, round, guess) == s,
{
}

/// Once won or revealed, a session refuses every guess as terminal and stays
/// as it is, so it refuses all later guesses too.
pub proof fn lemma_terminal_idempotence(s: SessionView, round: int, guess: u64)
    requires
        s.status != SessionStatus::InProgress,
    ensures
        submit_result(s, round, guess) == Err::<Seq<char>, GuessError>(
            GuessError::SessionAlreadyTerminal,
        ),
        submit_state(s, round, guess) == s,
{
}

/// A guess in the expected round that rounds to the target's billion wins the
/// game at once.
pub proof fn lemma_exact_match_wins(s: SessionView, guess: u64)
    requires
        s.status == SessionStatus::InProgress,
        is_exact(s.record.market_value, guess),
    ensures
        submit_state(s, (s.history.len() + 1) as int, guess).status == SessionStatus::Won,
        submit_result(s, (s.history.len() + 1) as int, guess) == Ok::<Seq<char>, GuessError>(
            won_text(s.record),
        ),
{
}

/// From round two on, a guess as far from the target as the one before it
/// is rated cooler.
pub proof fn lemma_tie_reply_is_cooler(s: SessionView, guess: u64)
    requires
        s.status == SessionStatus::InProgress,
        1 <= s.history.len() <= 2,
        !is_exact(s.record.market_value, guess),
        distance(guess as int, s.record.market_value as int) == distance(
            s.history.last() as int,
            s.record.market_value as int,
        ),
    ensures
        submit_result(s, (s.history.len() + 1) as int, guess) == Ok::<Seq<char>, GuessError>(
            feedback_text(FeedbackLabel::Cooler) + hint_text(
                hint_spec((s.history.len() + 1) as int, s.record),
            ),
        ),
{
}

/// A wrong guess in round four ends the game as revealed, with a reply that
/// gives the guess, the target and their distance in billions.
pub proof fn lemma_last_round_reveals(s: SessionView, guess: u64)
    requires
        s.status == SessionStatus::InProgress,
        s.history.len() == 3,
        !is_exact(s.record.market_value, guess),
    ensures
        submit_state(s, 4, guess).status == SessionStatus::Revealed,
        submit_result(s, 4, guess) == Ok::<Seq<char>, GuessError>(
            "Your guess: "@ + billion_text(guess as nat) + ". Actual value: "@ + billion_text(
                s.record.market_value as nat,
            ) + ". Difference: "@ + billion_text(
                distance(guess as int, s.record.market_value as int) as nat,
            ) + "."@,
        ),
{
}

/// Whatever the guesses, a wrong guess in rounds one, two and three is
/// followed by the industry, the description and the rank, respectively.
pub proof fn lemma_hint_sequence(s: SessionView, guess: u64)
    requires
        s.status == SessionStatus::InProgress,
        s.history.len() <= 2,
        !is_exact(s.record.market_value, guess),
    ensures
        submit_result(s, (s.history.len() + 1) as int, guess) == Ok::<Seq<char>, GuessError>(
            feedback_text(classify_spec(s.record.market_value, guess, previous_guess(s)))
                + hint_text(hint_spec((s.history.len() + 1) as int, s.record)),
        ),
        hint_spec(1, s.record) == HintView::Industry(s.record.industry),
        hint_spec(2, s.record) == HintView::Description(s.record.description),
        hint_spec(3, s.record) == HintView::Rank(s.record.rank),
{
}

} // verus!
