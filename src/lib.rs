//! A "guess the company's market value" game engine: a session that takes up
//! to four guesses in order, rates each one, reveals hints, and reports the
//! final answer.

pub mod classify;
pub mod format;
pub mod game;
pub mod hint;
pub mod session;
pub mod stats;

pub use classify::{classify, feedback_sentence, FeedbackLabel};
pub use format::{decimal_text, format_billion, nearest_billion, BILLION};
pub use game::{company, get_user_id, start_game};
pub use hint::{hint_for_round, CompanyRecord, HintPayload};
pub use session::{submit_guess, GuessError, GuessSession, SessionStatus};
pub use stats::{get_stats, update_guess_counts, update_stats, PlayerStats};
