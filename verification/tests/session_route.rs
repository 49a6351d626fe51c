use tower_sessions::Session;
use visit_counter::counter::{Visit, COUNTER_KEY};
use visit_counter::session::{root, session_failure_status, settle, VisitError, SESSION_FAILURE_STATUS};

#[test]
fn fresh_session_counts_zero_then_one() {
    let session = Session::default();
    assert_eq!(root(&session), Ok(String::from("Current count: 0")));
    assert_eq!(root(&session), Ok(String::from("Current count: 1")));
}

#[test]
fn sequential_visits_count_in_order() {
    let session = Session::default();
    let mut expected: usize = 0;
    while expected < 25 {
        assert_eq!(root(&session), Ok(format!("Current count: {}", expected)));
        expected += 1;
    }
}

#[test]
fn two_sessions_count_independently() {
    let first = Session::default();
    let second = Session::default();
    assert_eq!(root(&first), Ok(String::from("Current count: 0")));
    assert_eq!(root(&first), Ok(String::from("Current count: 1")));
    assert_eq!(root(&second), Ok(String::from("Current count: 0")));
    assert_eq!(root(&first), Ok(String::from("Current count: 2")));
    assert_eq!(root(&second), Ok(String::from("Current count: 1")));
}

#[test]
fn visit_stores_the_next_count_under_the_key() {
    let session = Session::default();
    assert_eq!(session.get::<usize>(COUNTER_KEY).unwrap(), None);
    root(&session).unwrap();
    assert_eq!(session.get::<usize>(COUNTER_KEY).unwrap(), Some(1));
    root(&session).unwrap();
    assert_eq!(session.get::<usize>("counter").unwrap(), Some(2));
}

#[test]
fn visit_reads_the_count_that_is_stored() {
    let session = Session::default();
    session.insert(COUNTER_KEY, 99usize).unwrap();
    assert_eq!(root(&session), Ok(String::from("Current count: 99")));
    assert_eq!(root(&session), Ok(String::from("Current count: 100")));
}

#[test]
fn visit_leaves_other_keys_alone() {
    let session = Session::default();
    session.insert("name", "alice").unwrap();
    root(&session).unwrap();
    assert_eq!(session.get::<String>("name").unwrap(), Some(String::from("alice")));
}

#[test]
fn malformed_counter_starts_again_at_zero() {
    let session = Session::default();
    session.insert(COUNTER_KEY, "many").unwrap();
    assert_eq!(root(&session), Ok(String::from("Current count: 0")));
    assert_eq!(root(&session), Ok(String::from("Current count: 1")));
}

#[test]
fn negative_counter_starts_again_at_zero() {
    let session = Session::default();
    session.insert(COUNTER_KEY, -3i64).unwrap();
    assert_eq!(root(&session), Ok(String::from("Current count: 0")));
    assert_eq!(session.get::<usize>(COUNTER_KEY).unwrap(), Some(1));
}

#[test]
fn counter_at_the_largest_number_stays_in_the_session() {
    let session = Session::default();
    session.insert(COUNTER_KEY, usize::MAX).unwrap();
    assert_eq!(root(&session), Ok(format!("Current count: {}", usize::MAX)));
    assert_eq!(session.get::<usize>(COUNTER_KEY).unwrap(), Some(usize::MAX));
    assert_eq!(root(&session), Ok(format!("Current count: {}", usize::MAX)));
}

#[test]
fn settle_replies_when_the_count_was_stored() {
    let outcome = Visit { body: String::from("Current count: 3"), next: 4 };
    assert_eq!(settle(outcome, Ok::<(), ()>(())), Ok(String::from("Current count: 3")));
}

#[test]
fn settle_fails_when_the_count_was_not_stored() {
    let outcome = Visit { body: String::from("Current count: 3"), next: 4 };
    assert_eq!(settle(outcome, Err::<(), &str>("refused")), Err(VisitError::NotStored));
}

#[test]
fn session_failure_is_a_bad_request() {
    assert_eq!(session_failure_status(), 400);
    assert_eq!(SESSION_FAILURE_STATUS, 400);
}
