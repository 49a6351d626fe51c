//! The counter route on a live session.
//!
//! The session belongs to `tower_sessions`: its data sits behind a lock that
//! the session middleware shares, so nothing is claimed here about what a read
//! finds. [`root`] makes the two calls; what it does with their results is
//! [`visit`] and [`settle`], which are stated for every result. Storing an
//! unsigned integer cannot fail, so every visit is answered.

use crate::counter::{count_message, visit, Visit, COUNTER_KEY};
use tower_sessions::session::Error;
use tower_sessions::Session;
use vstd::prelude::*;

verus! {

/// `tower_sessions::Session`: a handle to one client's session data.
#[verifier::external_type_specification]
#[verifier::external_body]
pub struct ExSession(Session);

/// `tower_sessions::session::Error`: why a session value could not be
/// converted to or from its stored form.
#[verifier::external_type_specification]
#[verifier::external_body]
pub struct ExSessionError(Error);

/// Why a visit got no reply.
#[derive(Clone, Copy, Debug, PartialEq, Eq)]
pub enum VisitError {
    /// The session did not take the new count.
    NotStored,
}

/// The status of the response sent when the session middleware fails on a
/// request, whatever the cause.
pub const SESSION_FAILURE_STATUS: u16 = 400;

/// Calls `Session::get` for a `usize` under `key`. The session's data is
/// shared with the middleware, so the contract says nothing of the result:
/// it may be a number, none, or an error for a value that is no `usize`.
#[verifier::external_body]
fn session_get(session: &Session, key: &str) -> (read: Result<Option<usize>, Error>) {
    session.get::<usize>(key)
}

/// Calls `Session::insert` to store `value` under `key`. The call fails only
/// where the value cannot be turned into a JSON value, and an unsigned integer
/// always can: `serde_json` makes a number of it without a test. So the
/// contract claims that the result is `Ok`. Nothing is claimed of the session
/// afterwards, whose data is shared with the middleware.
#[verifier::external_body]
fn session_insert(session: &Session, key: &str, value: usize) -> (written: Result<(), Error>)
    ensures
        written is Ok,
{
    session.insert(key, value)
}

/// The end of a visit, from what storing the next count gave: the reply if
/// the session took it, the error if not.
pub fn settle<E>(outcome: Visit, written: Result<(), E>) -> (reply: Result<String, VisitError>)
    ensures
        written is Ok ==> reply == Ok::<String, VisitError>(outcome.body),
        written is Err ==> reply == Err::<String, VisitError>(VisitError::NotStored),
{
    match written {
        Ok(()) => Ok(outcome.body),
        Err(_) => Err(VisitError::NotStored),
    }
}

/// The status sent in place of a reply when the session middleware fails.
pub fn session_failure_status() -> (status: u16)
    ensures
        status == 400,
{
    SESSION_FAILURE_STATUS
}

/// Serves one visit on `session`: reads the counter, stores the one after
/// it, and replies with the number read. Every visit gets its reply, and
/// whatever the session holds, the reply is the message of some count.
pub fn root(session: &Session) -> (reply: Result<String, VisitError>)
    ensures
        reply is Ok,
        exists|n: nat| n <= usize::MAX && reply->Ok_0@ == #[trigger] count_message(n),
{
    let read = session_get(session, COUNTER_KEY);
    let outcome = visit(read);
    proof {
        let n = crate::counter::stored_count(read);
        assert(outcome.body@ == count_message(n));
    }
    let written = session_insert(session, COUNTER_KEY, outcome.next);
    settle(outcome, written)
}

} // verus!
