//! What every part of the repository shares: identifiers, failures and the
//! handle behind which the store stands.

use vstd::prelude::*;
use crate::repo::database::Database;
use crate::repo::schema::DatabaseView;

verus! {

/// Identifier that the store hands out for a freshly inserted row.
#[derive(Debug, Clone, Copy, PartialEq, Eq, Structural)]
pub struct EntityId {
    pub id: i64,
}

/// Why a store operation failed.
#[derive(Debug, Clone, Copy, PartialEq, Eq, Structural)]
pub enum StoreError {
    /// The store could not be reached: pool exhausted, transport failure,
    /// store unavailable. Trying again later may succeed.
    Connectivity,
    /// A value that must be unique is already present (a user name).
    UniqueViolation,
    /// A row refers to a row that does not exist.
    ForeignKeyViolation,
    /// The store has run out of identifiers for the table.
    SequenceExhausted,
    /// Any other failure that the store reported.
    Other,
}

/// Why the store refused a statement, as its driver tells it.
#[derive(Debug, Clone, Copy, PartialEq, Eq, Structural)]
pub enum Rejection {
    /// A unique or primary key is already present.
    UniqueViolation,
    /// A foreign key points at no row.
    ForeignKeyViolation,
    /// A column that must be filled was not.
    NotNullViolation,
    /// A check constraint does not hold.
    CheckViolation,
    /// Any other refusal.
    Other,
}

/// What the driver of a store reports when a request fails, as plain data.
#[derive(Debug, Clone, Copy, PartialEq, Eq, Structural)]
pub enum DriverFailure {
    /// The pool gave no connection in time.
    PoolTimedOut,
    /// The pool is closed.
    PoolClosed,
    /// The driver's background worker is gone.
    WorkerCrashed,
    /// Reading from or writing to the store failed.
    Io,
    /// No secure connection could be made.
    Tls,
    /// The store received the statement and refused it.
    Database(Rejection),
    /// Any other failure: configuration, decoding, a protocol error.
    Other,
}

impl DriverFailure {
    /// The store was not reached, or not in time.
    pub open spec fn is_connectivity(self) -> bool {
        self is PoolTimedOut || self is PoolClosed || self is WorkerCrashed || self is Io || self is Tls
    }
}

impl StoreError {
    /// The kind of failure that a driver's report stands for: not reaching
    /// the store is `Connectivity`; a refused unique or foreign key is that
    /// violation; everything else is `Other`.
    pub open spec fn spec_from_driver(failure: DriverFailure) -> StoreError {
        match failure {
            DriverFailure::Database(Rejection::UniqueViolation) => StoreError::UniqueViolation,
            DriverFailure::Database(Rejection::ForeignKeyViolation) => StoreError::ForeignKeyViolation,
            DriverFailure::Database(_) => StoreError::Other,
            DriverFailure::Other => StoreError::Other,
            _ => StoreError::Connectivity,
        }
    }

    /// The kind of failure that a driver's report stands for.
    #[verifier::when_used_as_spec(spec_from_driver)]
    pub fn from_driver(failure: DriverFailure) -> (e: StoreError)
        ensures
            e == StoreError::spec_from_driver(failure),
            e.is_retryable() <==> failure.is_connectivity(),
            e.is_constraint_violation() <==> failure == DriverFailure::Database(Rejection::UniqueViolation)
                || failure == DriverFailure::Database(Rejection::ForeignKeyViolation),
            e != StoreError::SequenceExhausted,
    {
        match failure {
            DriverFailure::PoolTimedOut => StoreError::Connectivity,
            DriverFailure::PoolClosed => StoreError::Connectivity,
            DriverFailure::WorkerCrashed => StoreError::Connectivity,
            DriverFailure::Io => StoreError::Connectivity,
            DriverFailure::Tls => StoreError::Connectivity,
            DriverFailure::Database(rejection) => match rejection {
                Rejection::UniqueViolation => StoreError::UniqueViolation,
                Rejection::ForeignKeyViolation => StoreError::ForeignKeyViolation,
                _ => StoreError::Other,
            },
            DriverFailure::Other => StoreError::Other,
        }
    }

    /// A short description of the failure.
    pub fn to_string(self) -> (text: String)
        ensures
            text@ == match self {
                StoreError::Connectivity => "the store could not be reached"@,
                StoreError::UniqueViolation => "a value that must be unique is already present"@,
                StoreError::ForeignKeyViolation => "a row refers to a row that does not exist"@,
                StoreError::SequenceExhausted => "the table has no identifier left"@,
                StoreError::Other => "the store reported a failure"@,
            },
    {
        match self {
            StoreError::Connectivity => "the store could not be reached".to_owned(),
            StoreError::UniqueViolation => "a value that must be unique is already present".to_owned(),
            StoreError::ForeignKeyViolation => "a row refers to a row that does not exist".to_owned(),
            StoreError::SequenceExhausted => "the table has no identifier left".to_owned(),
            StoreError::Other => "the store reported a failure".to_owned(),
        }
    }

    /// The failure is a broken rule of the data model; the same request
    /// fails again until the data changes.
    pub open spec fn spec_is_constraint_violation(self) -> bool {
        self == StoreError::UniqueViolation || self == StoreError::ForeignKeyViolation
    }

    /// The failure is a broken rule of the data model; the same request
    /// fails again until the data changes.
    #[verifier::when_used_as_spec(spec_is_constraint_violation)]
    pub fn is_constraint_violation(self) -> (r: bool)
        ensures
            r == self.spec_is_constraint_violation(),
    {
        match self {
            StoreError::UniqueViolation | StoreError::ForeignKeyViolation => true,
            _ => false,
        }
    }

    /// The same request may succeed when it is sent again: only a failure
    /// to reach the store is of that kind.
    pub open spec fn spec_is_retryable(self) -> bool {
        self == StoreError::Connectivity
    }

    /// The same request may succeed when it is sent again: only a failure
    /// to reach the store is of that kind.
    #[verifier::when_used_as_spec(spec_is_retryable)]
    pub fn is_retryable(self) -> (r: bool)
        ensures
            r == self.spec_is_retryable(),
    {
        match self {
            StoreError::Connectivity => true,
            _ => false,
        }
    }
}

/// A handle behind which a store stands.
pub trait StoreHandle {
    /// The store as it stands behind the handle. A handle that does not say
    /// otherwise stands for the empty store.
    open spec fn store(&self) -> DatabaseView {
        DatabaseView::empty()
    }
}

/// Gives access to the connection that a repository works on.
pub trait DbConnGetter {
    type Output;

    fn get_conn(&self) -> &Self::Output;
}

/// The repository: one handle that offers every capability.
pub struct DbRepo {
    conn: Database,
}

impl StoreHandle for DbRepo {
    closed spec fn store(&self) -> DatabaseView {
        self.conn@
    }
}

impl DbConnGetter for DbRepo {
    type Output = Database;

    fn get_conn(&self) -> (conn: &Database)
        ensures
            conn@ == self.store(),
    {
        &self.conn
    }
}

impl DbRepo {
    /// A repository over an empty store.
    pub fn init() -> (repo: DbRepo)
        ensures
            repo.store() == DatabaseView::empty(),
    {
        DbRepo { conn: Database::new() }
    }

    /// A repository over the given store.
    pub fn with_conn(conn: Database) -> (repo: DbRepo)
        ensures
            repo.store() == conn@,
    {
        DbRepo { conn }
    }

    /// The connection, for work that changes the store.
    pub fn get_conn_mut(&mut self) -> (conn: &mut Database)
        ensures
            conn@ == old(self).store(),
            final(self).store() == final(conn)@,
    {
        &mut self.conn
    }
}

} // verus!
