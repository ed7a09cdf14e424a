use zero2prod::idempotency::IdempotencyKey;
use zero2prod::idempotency::IdempotencyStore;
use zero2prod::idempotency::IdentityId;
use zero2prod::idempotency::PersistenceError;
use zero2prod::idempotency::ReservationOutcome;
use zero2prod::idempotency::ValidationError;
use zero2prod::publish::success_response;

#[test]
fn empty_key_is_rejected() {
    assert_eq!(
        IdempotencyKey::parse("".to_string()).unwrap_err(),
        ValidationError::Empty
    );
}

#[test]
fn whitespace_only_key_is_rejected_as_empty() {
    assert_eq!(
        IdempotencyKey::parse("   ".to_string()).unwrap_err(),
        ValidationError::Empty
    );
}

#[test]
fn key_of_length_51_is_rejected() {
    let key = "k".repeat(51);
    assert_eq!(
        IdempotencyKey::parse(key).unwrap_err(),
        ValidationError::TooLong
    );
}

#[test]
fn key_of_length_50_is_accepted() {
    let key = "k".repeat(50);
    let parsed = IdempotencyKey::parse(key).unwrap();
    assert_eq!(parsed.as_str().len(), 50);
}

#[test]
fn single_character_key_is_accepted() {
    let parsed = IdempotencyKey::parse("a".to_string()).unwrap();
    assert_eq!(parsed.as_str(), "a");
}

#[test]
fn key_is_kept_unchanged_without_normalization() {
    let parsed = IdempotencyKey::parse("  AbC-123  ".to_string()).unwrap();
    assert_eq!(parsed.as_str(), "  AbC-123  ");
}

#[test]
fn fresh_pair_is_reserved() {
    let mut store = IdempotencyStore::new();
    let key = IdempotencyKey::parse("abc-123".to_string()).unwrap();
    let outcome = store.try_reserve(IdentityId(1), &key, 10);
    assert!(matches!(outcome, ReservationOutcome::Reserved));
}

#[test]
fn second_reservation_of_the_same_pair_is_a_conflict() {
    let mut store = IdempotencyStore::new();
    let key = IdempotencyKey::parse("abc-123".to_string()).unwrap();
    let first = store.try_reserve(IdentityId(1), &key, 10);
    assert!(matches!(first, ReservationOutcome::Reserved));
    let second = store.try_reserve(IdentityId(1), &key, 11);
    assert!(matches!(second, ReservationOutcome::AlreadyReserved));
}

#[test]
fn completed_pair_replays_the_committed_response() {
    let mut store = IdempotencyStore::new();
    let key = IdempotencyKey::parse("abc-123".to_string()).unwrap();
    let identity = IdentityId(1);
    assert!(matches!(
        store.try_reserve(identity, &key, 10),
        ReservationOutcome::Reserved
    ));
    let response = success_response();
    store.commit(identity, &key, response.duplicate()).unwrap();
    match store.try_reserve(identity, &key, 11) {
        ReservationOutcome::AlreadyCompleted(saved) => {
            assert!(saved.same_as(&response));
        }
        _ => panic!("expected the committed response to be replayed"),
    }
}

#[test]
fn reservations_are_isolated_per_key_and_identity() {
    let mut store = IdempotencyStore::new();
    let key_a = IdempotencyKey::parse("key-a".to_string()).unwrap();
    let key_b = IdempotencyKey::parse("key-b".to_string()).unwrap();
    let identity_1 = IdentityId(1);
    let identity_2 = IdentityId(2);
    assert!(matches!(
        store.try_reserve(identity_1, &key_a, 1),
        ReservationOutcome::Reserved
    ));
    store
        .commit(identity_1, &key_a, success_response())
        .unwrap();
    // Same identity, different key: no replay across the boundary.
    assert!(matches!(
        store.try_reserve(identity_1, &key_b, 2),
        ReservationOutcome::Reserved
    ));
    // Same key, different identity: no replay across the boundary.
    assert!(matches!(
        store.try_reserve(identity_2, &key_a, 3),
        ReservationOutcome::Reserved
    ));
}

#[test]
fn commit_without_reservation_reports_a_missing_record() {
    let mut store = IdempotencyStore::new();
    let key = IdempotencyKey::parse("abc-123".to_string()).unwrap();
    let err = store
        .commit(IdentityId(1), &key, success_response())
        .unwrap_err();
    assert_eq!(err, PersistenceError::RecordMissing);
}

#[test]
fn committing_twice_reports_an_already_completed_record() {
    let mut store = IdempotencyStore::new();
    let key = IdempotencyKey::parse("abc-123".to_string()).unwrap();
    let identity = IdentityId(1);
    store.try_reserve(identity, &key, 1);
    store.commit(identity, &key, success_response()).unwrap();
    let err = store
        .commit(identity, &key, success_response())
        .unwrap_err();
    assert_eq!(err, PersistenceError::AlreadyCompleted);
}

#[test]
fn saved_response_is_absent_until_commit() {
    let mut store = IdempotencyStore::new();
    let key = IdempotencyKey::parse("abc-123".to_string()).unwrap();
    let identity = IdentityId(1);
    assert!(store.get_saved_response(identity, &key).is_none());
    store.try_reserve(identity, &key, 1);
    assert!(store.get_saved_response(identity, &key).is_none());
    let response = success_response();
    store.commit(identity, &key, response.duplicate()).unwrap();
    let saved = store.get_saved_response(identity, &key).unwrap();
    assert!(saved.same_as(&response));
}
