//! Starting a game on a record drawn from a catalog, and naming the player.

use vstd::prelude::*;
use rand::Rng;
use crate::hint::CompanyRecord;
use crate::session::{session_wf, GuessSession, SessionStatus};

verus! {

/// The length of a hyphenated UUID.
pub const PLAYER_ID_LEN: usize = 36;

/// Relies on rand's `thread_rng` and `Rng::gen_range`: a value drawn from
/// `0..len`; `gen_range` panics on an empty range.
#[verifier::external_body]
fn random_index(len: usize) -> (r: usize)
    requires
        len > 0,
    ensures
        r < len,
{
    rand::thread_rng().gen_range(0..len)
}

/// Relies on uuid's `Uuid::new_v4` and its `Display`, which writes the
/// hyphenated lower-case form: 36 characters.
#[verifier::external_body]
fn fresh_user_id() -> (r: String)
    ensures
        r@.len() == PLAYER_ID_LEN,
{
    uuid::Uuid::new_v4().to_string()
}

/// A fresh session on the record at `index` of `catalog`, if there is one.
pub fn start_game(catalog: &Vec<CompanyRecord>, index: usize) -> (r: Option<GuessSession>)
    ensures
        r.is_some() == (index < catalog@.len()),
        r matches Some(s) ==> {
            &&& s@.record == catalog@[index as int]@
            &&& s@.history.len() == 0
            &&& s@.status == SessionStatus::InProgress
            &&& session_wf(s@)
        },
{
    if index < catalog.len() {
        Some(GuessSession::new(catalog[index].snapshot()))
    } else {
        None
    }
}

/// A fresh session on a record drawn at random from `catalog`; `None` when
/// the catalog is empty.
pub fn company(catalog: &Vec<CompanyRecord>) -> (r: Option<GuessSession>)
    ensures
        r.is_some() == (catalog@.len() > 0),
        r matches Some(s) ==> {
            &&& exists|i: int| 0 <= i < catalog@.len() && s@.record == #[trigger] catalog@[i]@
            &&& s@.history.len() == 0
            &&& s@.status == SessionStatus::InProgress
            &&& session_wf(s@)
        },
{
    if catalog.len() == 0 {
        return None;
    }
    let index = random_index(catalog.len());
    start_game(catalog, index)
}

/// The player's identifier: the one already held, or a fresh random one.
pub fn get_user_id(existing: Option<String>) -> (r: String)
    ensures
        match existing {
            Some(id) => r@ == id@,
            None => r@.len() == PLAYER_ID_LEN,
        },
{
    match existing {
        Some(id) => id,
        None => fresh_user_id(),
    }
}

} // verus!
