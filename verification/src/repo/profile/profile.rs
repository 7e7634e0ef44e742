use vstd::prelude::*;
use crate::repo::base::{DbConnGetter, DbRepo, StoreError, StoreHandle};
use crate::repo::database::Database;
use crate::repo::profile::model::{ProfileCreate, ProfileQueryResult, ProfileQueryResultView, ProfileUpdate};
use crate::repo::schema::DatabaseView;

verus! {

/// Inserts a profile through `conn` and returns its identifier. Fails with
/// `UniqueViolation`, and adds no row, while the user name is taken.
pub fn insert_profile_inner(conn: &mut Database, params: ProfileCreate) -> (r: Result<i64, StoreError>)
    ensures
        old(conn)@.wf(),
        final(conn)@.wf(),
        (final(conn)@, r) == old(conn)@.insert_profile(params@),
{
    conn.insert_profile(params)
}

/// Replaces full name, description, main URL and avatar of the profile
/// `user_id` through `conn`. Succeeds, changing nothing, where there is no
/// such profile.
pub fn update_profile_inner(conn: &mut Database, user_id: i64, params: ProfileUpdate) -> (r: Result<
    (),
    StoreError,
>)
    ensures
        old(conn)@.wf(),
        final(conn)@.wf(),
        r is Ok,
        final(conn)@ == old(conn)@.update_profile(user_id, params@),
{
    let _ = conn.update_profile(user_id, params);
    Ok(())
}

/// The profile that a lookup found, as a mathematical value; nothing where
/// it found none or failed.
pub open spec fn found_profile(r: Result<Option<ProfileQueryResult>, StoreError>) -> Option<
    ProfileQueryResultView,
> {
    match r {
        Ok(Some(p)) => Some(p@),
        _ => None,
    }
}

/// `r` is a right answer to a lookup of `user_name` in `db`: a failure, or
/// exactly what the store holds under that user name.
pub open spec fn answers_lookup(
    db: DatabaseView,
    user_name: Seq<char>,
    r: Result<Option<ProfileQueryResult>, StoreError>,
) -> bool {
    r is Ok ==> found_profile(r) == db.profile_by_user_name(user_name)
}

/// Idempotent lookup: two lookups of one user name in one store, with no
/// write between them, give equal results wherever both succeed.
pub proof fn law_lookup_is_repeatable(
    db: DatabaseView,
    user_name: Seq<char>,
    first: Result<Option<ProfileQueryResult>, StoreError>,
    second: Result<Option<ProfileQueryResult>, StoreError>,
)
    requires
        answers_lookup(db, user_name, first),
        answers_lookup(db, user_name, second),
        first is Ok,
        second is Ok,
    ensures
        found_profile(first) == found_profile(second),
        first->Ok_0 is Some <==> second->Ok_0 is Some,
{
}

/// Looks the profile with exactly this user name up through `conn`, which
/// stays as it is. A profile that does not exist is `Ok(None)`, never a
/// failure.
pub fn query_profile_by_user_name_inner(conn: &Database, user_name: &str) -> (r: Result<
    Option<ProfileQueryResult>,
    StoreError,
>)
    ensures
        conn@.wf(),
        r is Ok,
        answers_lookup(conn@, user_name@, r),
{
    Ok(conn.profile_by_user_name(user_name))
}

/// The capability to insert a profile.
pub trait InsertProfileFn: StoreHandle {
    /// On success the profile was inserted as the store's rules say and the
    /// new identifier is returned. On failure the store is as it was, and a
    /// `UniqueViolation` is reported only while the user name is taken.
    fn insert_profile(&mut self, params: ProfileCreate) -> (r: Result<i64, StoreError>)
        ensures
            match r {
                Ok(id) => old(self).store().insert_profile(params@) == (
                    final(self).store(),
                    Ok::<i64, StoreError>(id),
                ),
                Err(e) => {
                    &&& final(self).store() == old(self).store()
                    &&& e == StoreError::UniqueViolation ==> old(self).store().user_name_taken(
                        params@.user_name,
                    )
                },
            },
    ;
}

impl InsertProfileFn for DbRepo {
    fn insert_profile(&mut self, params: ProfileCreate) -> (r: Result<i64, StoreError>)
        ensures
            final(self).store().wf(),
            (final(self).store(), r) == old(self).store().insert_profile(params@),
    {
        insert_profile_inner(self.get_conn_mut(), params)
    }
}

/// The capability to update a profile.
pub trait UpdateProfileFn: StoreHandle {
    /// On success the four mutable fields of the profile `user_id` were
    /// replaced, or there is no such profile and nothing changed. On
    /// failure the store is as it was.
    fn update_profile(&mut self, user_id: i64, params: ProfileUpdate) -> (r: Result<(), StoreError>)
        ensures
            match r {
                Ok(_) => final(self).store() == old(self).store().update_profile(user_id, params@),
                Err(_) => final(self).store() == old(self).store(),
            },
    ;
}

impl UpdateProfileFn for DbRepo {
    fn update_profile(&mut self, user_id: i64, params: ProfileUpdate) -> (r: Result<(), StoreError>)
        ensures
            final(self).store().wf(),
            r is Ok,
    {
        update_profile_inner(self.get_conn_mut(), user_id, params)
    }
}

/// The capability to look a profile up by its user name.
pub trait QueryProfileByUserNameFn: StoreHandle {
    /// On success the answer is the profile with exactly this user name, or
    /// `None` where no profile carries it.
    fn query_profile_query_profile_by_user_name(&self, user_name: &str) -> (r: Result<
        Option<ProfileQueryResult>,
        StoreError,
    >)
        ensures
            answers_lookup(self.store(), user_name@, r),
    ;
}

impl QueryProfileByUserNameFn for DbRepo {
    fn query_profile_query_profile_by_user_name(&self, user_name: &str) -> (r: Result<
        Option<ProfileQueryResult>,
        StoreError,
    >)
        ensures
            self.store().wf(),
            r is Ok,
    {
        query_profile_by_user_name_inner(self.get_conn(), user_name)
    }
}

} // verus!
