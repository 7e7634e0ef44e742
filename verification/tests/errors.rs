use repository::repo::base::{DriverFailure, Rejection, StoreError};

#[test]
fn unreachable_store_is_connectivity_and_retryable() {
    for failure in [
        DriverFailure::PoolTimedOut,
        DriverFailure::PoolClosed,
        DriverFailure::WorkerCrashed,
        DriverFailure::Io,
        DriverFailure::Tls,
    ] {
        let e = StoreError::from_driver(failure);
        assert_eq!(e, StoreError::Connectivity);
        assert!(e.is_retryable());
        assert!(!e.is_constraint_violation());
    }
}

#[test]
fn refused_keys_are_constraint_violations() {
    let unique = StoreError::from_driver(DriverFailure::Database(Rejection::UniqueViolation));
    assert_eq!(unique, StoreError::UniqueViolation);
    assert!(unique.is_constraint_violation());
    assert!(!unique.is_retryable());
    let foreign = StoreError::from_driver(DriverFailure::Database(Rejection::ForeignKeyViolation));
    assert_eq!(foreign, StoreError::ForeignKeyViolation);
    assert!(foreign.is_constraint_violation());
    assert!(!foreign.is_retryable());
}

#[test]
fn every_other_report_is_other() {
    for failure in [
        DriverFailure::Database(Rejection::NotNullViolation),
        DriverFailure::Database(Rejection::CheckViolation),
        DriverFailure::Database(Rejection::Other),
        DriverFailure::Other,
    ] {
        let e = StoreError::from_driver(failure);
        assert_eq!(e, StoreError::Other);
        assert!(!e.is_retryable());
        assert!(!e.is_constraint_violation());
    }
}

#[test]
fn exhausted_sequence_is_neither_retryable_nor_a_constraint() {
    assert!(!StoreError::SequenceExhausted.is_retryable());
    assert!(!StoreError::SequenceExhausted.is_constraint_violation());
}

#[test]
fn every_failure_describes_itself() {
    assert_eq!(StoreError::Connectivity.to_string(), "the store could not be reached");
    assert_eq!(StoreError::UniqueViolation.to_string(), "a value that must be unique is already present");
    assert_eq!(StoreError::ForeignKeyViolation.to_string(), "a row refers to a row that does not exist");
    assert_eq!(StoreError::SequenceExhausted.to_string(), "the table has no identifier left");
    assert_eq!(StoreError::Other.to_string(), "the store reported a failure");
}
