//! The visit counter: what one visit reads, reports and stores.
//!
//! A session keeps one unsigned integer under [`COUNTER_KEY`]. A visit reports
//! the number it finds, zero where it finds none, and leaves the next number
//! behind. The number never goes down: at `usize::MAX` it stays where it is.

use crate::decimal::{decimal, lemma_decimal_injective, push_decimal};
use vstd::prelude::*;
use vstd::string::*;

verus! {

/// The session key under which the counter is kept.
pub const COUNTER_KEY: &'static str = "counter";

/// The number of visits that a session has seen.
#[derive(Clone, Copy, Debug, PartialEq, Eq)]
pub struct Counter(pub usize);

impl Default for Counter {
    /// A counter that has seen no visit.
    fn default() -> (counter: Self)
        ensures
            counter.0 == 0,
    {
        Counter(0)
    }
}

/// What one visit comes to.
#[derive(Debug, PartialEq, Eq)]
pub struct Visit {
    /// The text sent to the visitor.
    pub body: String,
    /// The number to keep in the session for the next visit.
    pub next: usize,
}

/// The number that a visit reports, given what reading the session gave: the
/// stored number, or zero where none is stored or the stored value is no
/// number.
pub open spec fn stored_count<E>(read: Result<Option<usize>, E>) -> nat {
    match read {
        Ok(Some(n)) => n as nat,
        Ok(None) => 0,
        Err(_) => 0,
    }
}

/// The number kept after a visit that reported `n`: one more, but for the
/// largest number, which stays.
pub open spec fn following(n: nat) -> nat {
    if n < usize::MAX {
        n + 1
    } else {
        n
    }
}

/// The text of the reply to a visit that reports `n`.
pub open spec fn count_message(n: nat) -> Seq<char> {
    "Current count: "@ + decimal(n)
}

/// The number that the `visits`-th next visit reports, in a session whose
/// next visit reports `first` and that nothing else writes to.
pub open spec fn count_after(first: nat, visits: nat) -> nat
    decreases visits,
{
    if visits == 0 {
        first
    } else {
        following(count_after(first, (visits - 1) as nat))
    }
}

impl Counter {
    /// The counter of a session, from what reading it gave. A missing or
    /// unreadable value counts as no visit so far.
    pub fn from_read<E>(read: Result<Option<usize>, E>) -> (counter: Self)
        ensures
            counter.0 == stored_count(read),
    {
        match read {
            Ok(Some(n)) => Counter(n),
            Ok(None) => Counter::default(),
            Err(_) => Counter::default(),
        }
    }

    /// The counter after one more visit.
    pub fn next(self) -> (after: Self)
        ensures
            after.0 == following(self.0 as nat),
            after.0 >= self.0,
    {
        if self.0 < usize::MAX {
            Counter(self.0 + 1)
        } else {
            self
        }
    }

    /// The reply to a visit that finds this counter.
    pub fn message(self) -> (body: String)
        ensures
            body@ == count_message(self.0 as nat),
    {
        let mut body = String::from_str("Current count: ");
        push_decimal(&mut body, self.0);
        body
    }
}

/// One visit, from what reading the session gave: the reply shows the number
/// found, and the number to store is the one after it.
pub fn visit<E>(read: Result<Option<usize>, E>) -> (outcome: Visit)
    ensures
        outcome.body@ == count_message(stored_count(read)),
        outcome.next == following(stored_count(read)),
{
    let counter = Counter::from_read(read);
    Visit { body: counter.message(), next: counter.next().0 }
}

/// A session's counter never goes down, however many visits follow.
pub proof fn lemma_count_never_decreases(first: nat, visits: nat)
    ensures
        count_after(first, visits) <= count_after(first, visits + 1),
        first <= count_after(first, visits),
    decreases visits,
{
    if visits > 0 {
        lemma_count_never_decreases(first, (visits - 1) as nat);
    }
}

/// Visits to one session count up from where it stood: the `visits`-th next
/// visit reports `first + visits`, as long as that is a `usize`.
pub proof fn lemma_count_after(first: nat, visits: nat)
    requires
        first + visits <= usize::MAX,
    ensures
        count_after(first, visits) == first + visits,
    decreases visits,
{
    if visits > 0 {
        lemma_count_after(first, (visits - 1) as nat);
    }
}

/// A session that starts with no counter answers its visits with 0, 1, 2 and
/// so on, in order: the visit after `visits` earlier ones reports `visits`.
pub proof fn lemma_fresh_session_counts_from_zero(visits: nat)
    requires
        visits <= usize::MAX,
    ensures
        count_after(stored_count::<()>(Ok(None)), visits) == visits,
{
    lemma_count_after(0, visits);
}

/// What a visit stores is what the next visit reads: reading back the number
/// left by a visit reports the number after the one just shown.
pub proof fn lemma_next_visit_reads_what_was_stored<E>(read: Result<Option<usize>, E>, next: usize)
    requires
        next == following(stored_count(read)),
    ensures
        stored_count(Ok::<Option<usize>, E>(Some(next))) == count_after(stored_count(read), 1),
{
    assert(count_after(stored_count(read), 0) == stored_count(read));
}

/// The number that `client`'s next visit reports after the visits in
/// `schedule`, where `schedule[i]` names the client of the `i`-th visit, each
/// client has a session of its own, and every session starts with no counter.
pub open spec fn reported_after(schedule: Seq<nat>, client: nat) -> nat
    decreases schedule.len(),
{
    if schedule.len() == 0 {
        stored_count::<()>(Ok(None))
    } else if schedule.last() == client {
        following(reported_after(schedule.drop_last(), client))
    } else {
        reported_after(schedule.drop_last(), client)
    }
}

/// How many of the visits in `schedule` are `client`'s.
pub open spec fn visits_by(schedule: Seq<nat>, client: nat) -> nat
    decreases schedule.len(),
{
    if schedule.len() == 0 {
        0
    } else if schedule.last() == client {
        visits_by(schedule.drop_last(), client) + 1
    } else {
        visits_by(schedule.drop_last(), client)
    }
}

/// Clients with sessions of their own count independently: each starts at
/// zero, and what a client's next visit reports is the number of its own
/// earlier visits, however the visits of the others fall between them.
pub proof fn lemma_sessions_count_independently(schedule: Seq<nat>, client: nat)
    requires
        schedule.len() <= usize::MAX,
    ensures
        reported_after(schedule, client) == visits_by(schedule, client),
        visits_by(schedule, client) <= schedule.len(),
        reported_after(Seq::<nat>::empty(), client) == 0,
    decreases schedule.len(),
{
    if schedule.len() > 0 {
        lemma_sessions_count_independently(schedule.drop_last(), client);
    }
}

/// Two visits get the same reply only if they report the same number.
pub proof fn lemma_count_message_injective(a: nat, b: nat)
    requires
        count_message(a) == count_message(b),
    ensures
        a == b,
{
    let prefix = "Current count: "@;
    assert(decimal(a) =~= count_message(a).subrange(prefix.len() as int, count_message(a).len() as int));
    assert(decimal(b) =~= count_message(b).subrange(prefix.len() as int, count_message(b).len() as int));
    lemma_decimal_injective(a, b);
}

} // verus!
