//! The executable store.

use vstd::prelude::*;
use crate::repo::base::StoreError;
use crate::repo::post::model::{
    post_views,
    PostCriteria,
    PostWithProfileAndShareeQueryResult,
    PostWithProfileQueryResult,
};
use crate::repo::profile::model::{ProfileCreate, ProfileQueryResult, ProfileUpdate};
use crate::repo::schema::DatabaseView;
use crate::repo::tables::Tables;

verus! {

/// A mark to which a unit of work can be undone: the store as it was when
/// the unit began.
pub(crate) struct Savepoint {
    profiles: usize,
    posts: usize,
    responses: usize,
    base: Ghost<DatabaseView>,
}

impl Savepoint {
    /// The store as it was when the unit of work began.
    pub(crate) closed spec fn base(self) -> DatabaseView {
        self.base@
    }

    /// The mark counts the rows of the store it was taken of.
    pub(crate) closed spec fn wf(self) -> bool {
        &&& self.base@.wf()
        &&& self.profiles == self.base@.profiles.len()
        &&& self.posts == self.base@.posts.len()
        &&& self.responses == self.base@.responses.len()
    }
}

/// The relational store: the `profile`, `post` and `post_response` tables,
/// with their rules always in force. It is changed through `&mut` only, so
/// no two writers ever work on it at once.
pub struct Database {
    tables: Tables,
}

impl View for Database {
    type V = DatabaseView;

    closed spec fn view(&self) -> DatabaseView {
        self.tables@
    }
}

impl Database {
    /// The rules of the store hold of every `Database`, at all times.
    #[verifier::type_invariant]
    pub open spec fn rules_hold(self) -> bool {
        self@.wf()
    }

    /// An empty store, its clock at the epoch, with every positive
    /// identifier to hand out.
    pub fn new() -> (db: Database)
        ensures
            db@ == DatabaseView::empty(),
    {
        Database { tables: Tables::empty(i64::MAX) }
    }

    /// An empty store, its clock at the epoch, whose tables hand out the
    /// identifiers from 1 to `max_id` and then refuse every insert with
    /// `SequenceExhausted`.
    pub fn with_max_id(max_id: i64) -> (db: Database)
        ensures
            db@ == DatabaseView::empty_up_to(max_id),
    {
        Database { tables: Tables::empty(max_id) }
    }

    /// The largest identifier that the store hands out.
    pub fn max_id(&self) -> (max_id: i64)
        ensures
            max_id == self@.max_id,
    {
        self.tables.max_id()
    }

    /// Takes the tables out for work on them and leaves empty ones, of which
    /// the rules hold, until the worked-on tables are put back.
    fn take_tables(&mut self) -> (tables: Tables)
        ensures
            tables@ == old(self)@,
            tables@.wf(),
    {
        proof {
            use_type_invariant(&*self);
        }
        let mut tables = Tables::empty(0);
        std::mem::swap(&mut self.tables, &mut tables);
        tables
    }

    /// The store's clock: microseconds since the Unix epoch, UTC.
    pub fn clock(&self) -> (now: i64)
        ensures
            now == self@.now,
    {
        self.tables.clock()
    }

    /// Sets the clock with which rows are stamped from now on.
    pub fn set_clock(&mut self, now: i64)
        ensures
            final(self)@ == old(self)@.set_clock(now),
    {
        let mut tables = self.take_tables();
        tables.set_clock(now);
        self.tables = tables;
    }

    /// Number of profiles.
    pub fn profile_count(&self) -> (n: usize)
        ensures
            n == self@.profiles.len(),
    {
        self.tables.profile_count()
    }

    /// Number of posts.
    pub fn post_count(&self) -> (n: usize)
        ensures
            n == self@.posts.len(),
    {
        self.tables.post_count()
    }

    /// Number of response links.
    pub fn post_response_count(&self) -> (n: usize)
        ensures
            n == self@.responses.len(),
    {
        self.tables.post_response_count()
    }

    /// Adds a profile, stamped with the clock, and returns its identifier;
    /// fails with `UniqueViolation`, leaving the store as it is, while the
    /// user name is taken.
    pub fn insert_profile(&mut self, params: ProfileCreate) -> (r: Result<i64, StoreError>)
        ensures
            old(self)@.wf(),
            final(self)@.wf(),
            (final(self)@, r) == old(self)@.insert_profile(params@),
    {
        let mut tables = self.take_tables();
        let r = tables.insert_profile(params);
        self.tables = tables;
        r
    }

    /// Replaces the four mutable fields of the profile `id` and returns the
    /// number of rows changed: one, or none where there is no such profile.
    pub fn update_profile(&mut self, id: i64, params: ProfileUpdate) -> (rows: u64)
        ensures
            old(self)@.wf(),
            final(self)@.wf(),
            final(self)@ == old(self)@.update_profile(id, params@),
            rows == old(self)@.rows_updated(id),
    {
        let mut tables = self.take_tables();
        let rows = tables.update_profile(id, params);
        self.tables = tables;
        rows
    }

    /// The profile with exactly this user name, if there is one.
    pub fn profile_by_user_name(&self, user_name: &str) -> (r: Option<ProfileQueryResult>)
        ensures
            self@.wf(),
            match r {
                Some(p) => self@.profile_by_user_name(user_name@) == Some(p@),
                None => self@.profile_by_user_name(user_name@) is None,
            },
    {
        proof {
            use_type_invariant(self);
        }
        self.tables.profile_by_user_name(user_name)
    }

    /// Adds a post of profile `user_id`, stamped with the clock, and returns
    /// its identifier; fails with `ForeignKeyViolation`, leaving the store as
    /// it is, where there is no such profile.
    pub fn insert_post(&mut self, chain_asset_id: &str, chain_id: i64, user_id: i64, message: &str) -> (r: Result<
        i64,
        StoreError,
    >)
        ensures
            old(self)@.wf(),
            final(self)@.wf(),
            (final(self)@, r) == old(self)@.insert_post(chain_asset_id@, chain_id, user_id, message@),
    {
        let mut tables = self.take_tables();
        let r = tables.insert_post(chain_asset_id, chain_id, user_id, message);
        self.tables = tables;
        r
    }

    /// Links `responder_post_id` as a response to `respondee_post_id`.
    pub(crate) fn insert_post_response(&mut self, respondee_post_id: i64, responder_post_id: i64) -> (r: Result<
        i64,
        StoreError,
    >)
        ensures
            old(self)@.wf(),
            final(self)@.wf(),
            (final(self)@, r) == old(self)@.insert_post_response(respondee_post_id, responder_post_id),
    {
        let mut tables = self.take_tables();
        let r = tables.insert_post_response(respondee_post_id, responder_post_id);
        self.tables = tables;
        r
    }

    /// Begins a unit of work: marks the store as it is now.
    pub(crate) fn begin(&self) -> (sp: Savepoint)
        ensures
            sp.wf(),
            sp.base() == self@,
    {
        proof {
            use_type_invariant(self);
        }
        Savepoint {
            profiles: self.tables.profile_count(),
            posts: self.tables.post_count(),
            responses: self.tables.post_response_count(),
            base: Ghost(self@),
        }
    }

    /// Undoes a unit of work that has only added rows: the store is again
    /// as it was at the mark.
    pub(crate) fn rollback(&mut self, sp: &Savepoint)
        requires
            sp.wf(),
            old(self)@.extends(sp.base()),
        ensures
            final(self)@ == sp.base(),
    {
        let mut tables = self.take_tables();
        tables.truncate(sp.profiles, sp.posts, sp.responses, sp.base);
        self.tables = tables;
    }

    /// The first post, in insertion order, that the criteria ask for, joined
    /// to its owner and carrying the post it responds to.
    pub fn query_post_with_profile(&self, criteria: &PostCriteria) -> (r: Option<PostWithProfileQueryResult>)
        ensures
            self@.wf(),
            match r {
                Some(p) => self@.query_post_with_profile(criteria@) == Some(p@),
                None => self@.query_post_with_profile(criteria@) is None,
            },
    {
        proof {
            use_type_invariant(self);
        }
        match self.tables.first_selected(criteria) {
            Some(id) => Some(self.tables.post_with_profile(id)),
            None => None,
        }
    }

    /// Every post that the criteria ask for, in insertion order, each joined
    /// to its owner and carrying the post it responds to.
    pub fn query_posts_with_profile(&self, criteria: &PostCriteria) -> (r: Vec<PostWithProfileQueryResult>)
        ensures
            self@.wf(),
            post_views(r@) == self@.query_posts_with_profile(criteria@),
    {
        proof {
            use_type_invariant(self);
        }
        self.tables.posts_with_profile(criteria)
    }

    /// The first post, in insertion order, that the criteria ask for, joined
    /// to its owner and to the post it responds to with that post's owner.
    /// The sharee fields are filled together or not at all.
    pub fn query_post_with_profile_and_sharee(&self, criteria: &PostCriteria) -> (r: Option<
        PostWithProfileAndShareeQueryResult,
    >)
        ensures
            self@.wf(),
            match r {
                Some(p) => self@.query_post_with_profile_and_sharee(criteria@) == Some(p@)
                    && p@.sharee_all_or_nothing(),
                None => self@.query_post_with_profile_and_sharee(criteria@) is None,
            },
    {
        proof {
            use_type_invariant(self);
        }
        match self.tables.first_selected(criteria) {
            Some(id) => Some(self.tables.post_with_profile_and_sharee(id)),
            None => None,
        }
    }
}

} // verus!
