use vstd::prelude::*;
use crate::repo::base::{DbConnGetter, DbRepo, EntityId, StoreError, StoreHandle};
use crate::repo::database::{Database, Savepoint};
use crate::repo::laws::law_links_are_fewer_than_posts;
use crate::repo::post::model::{
    post_views,
    PostCriteria,
    PostWithProfileAndShareeQueryResult,
    PostWithProfileQueryResult,
};
use crate::repo::post::transaction::{ResponsePostWrite, WriteAction};
use crate::repo::schema::DatabaseView;

verus! {

/// The identifier inside a successful insert, the failure otherwise.
pub open spec fn inserted_id(r: Result<EntityId, StoreError>) -> Result<i64, StoreError> {
    match r {
        Ok(entity) => Ok(entity.id),
        Err(e) => Err(e),
    }
}

/// Inserts a post that responds to no other through `conn`. Fails with
/// `ForeignKeyViolation`, and adds no row, where the profile `user_id` does
/// not exist.
pub fn insert_standalone_post_inner(
    conn: &mut Database,
    chain_asset_id: &str,
    chain_id: i64,
    user_id: i64,
    message: &str,
) -> (r: Result<EntityId, StoreError>)
    ensures
        old(conn)@.wf(),
        final(conn)@.wf(),
        (final(conn)@, inserted_id(r)) == old(conn)@.insert_post(chain_asset_id@, chain_id, user_id, message@),
{
    match conn.insert_post(chain_asset_id, chain_id, user_id, message) {
        Ok(id) => Ok(EntityId { id }),
        Err(e) => Err(e),
    }
}

/// The store `db` is where the unit of work `w`, begun on `base`, has
/// brought it.
spec fn on_course(
    w: ResponsePostWrite,
    db: DatabaseView,
    base: DatabaseView,
    chain_asset_id: Seq<char>,
    chain_id: i64,
    user_id: i64,
    message: Seq<char>,
    respondee_post_id: i64,
) -> bool {
    let goal = base.insert_response_post(chain_asset_id, chain_id, user_id, message, respondee_post_id);
    match w {
        ResponsePostWrite::Opening => db == base,
        ResponsePostWrite::InsertingPost => db == base,
        ResponsePostWrite::Linking { post_id } => (db, Ok::<i64, StoreError>(post_id)) == base.insert_post(
            chain_asset_id,
            chain_id,
            user_id,
            message,
        ),
        ResponsePostWrite::Committing { post_id } => goal == (db, Ok::<i64, StoreError>(post_id)),
        ResponsePostWrite::RollingBack { error } => db.extends(base) && goal == (
            base,
            Err::<i64, StoreError>(error),
        ),
        ResponsePostWrite::Finished { outcome } => goal == (db, inserted_id(outcome)),
    }
}

/// Every store extends itself.
proof fn lemma_extends_itself(db: DatabaseView)
    ensures
        db.extends(db),
{
    assert(db.profiles.subrange(0, db.profiles.len() as int) =~= db.profiles);
    assert(db.posts.subrange(0, db.posts.len() as int) =~= db.posts);
    assert(db.responses.subrange(0, db.responses.len() as int) =~= db.responses);
}

/// Inserts a post and links it as a response to `respondee_post_id`, as one
/// unit of work through `conn`: either both rows are added and the new
/// post's identifier is returned, or the store is left as it was. Fails
/// with `ForeignKeyViolation` where the profile `user_id` or the post
/// `respondee_post_id` does not exist.
pub fn insert_response_post_inner(
    conn: &mut Database,
    chain_asset_id: &str,
    chain_id: i64,
    user_id: i64,
    message: &str,
    respondee_post_id: i64,
) -> (r: Result<EntityId, StoreError>)
    ensures
        old(conn)@.wf(),
        final(conn)@.wf(),
        (final(conn)@, inserted_id(r)) == old(conn)@.insert_response_post(
            chain_asset_id@,
            chain_id,
            user_id,
            message@,
            respondee_post_id,
        ),
{
    let ghost base = conn@;
    let mut mark: Option<Savepoint> = None;
    let mut state = ResponsePostWrite::start();
    proof {
        use_type_invariant(&*conn);
    }
    loop
        invariant
            base.wf(),
            conn@.wf(),
            base == old(conn)@,
            on_course(state, conn@, base, chain_asset_id@, chain_id, user_id, message@, respondee_post_id),
            !(state is Opening || state is Finished) ==> mark is Some && mark.unwrap().wf()
                && mark.unwrap().base() == base,
        decreases state.steps_left(),
    {
        match state.action() {
            WriteAction::Begin => {
                mark = Some(conn.begin());
                state = state.on(Ok(0));
            },
            WriteAction::InsertPost => {
                let answer = conn.insert_post(chain_asset_id, chain_id, user_id, message);
                proof {
                    if answer is Err {
                        lemma_extends_itself(base);
                    }
                }
                state = state.on(answer);
            },
            WriteAction::InsertPostResponse { responder_post_id } => {
                let ghost before = conn@;
                let answer = conn.insert_post_response(respondee_post_id, responder_post_id);
                proof {
                    law_links_are_fewer_than_posts(base);
                    assert(before.posts.len() == base.posts.len() + 1);
                    assert(before.responses == base.responses);
                    assert(!before.is_responder(responder_post_id)) by {
                        assert forall|i: int| 0 <= i < base.responses.len() implies (
                        #[trigger] base.responses[i]).responder_post_id != responder_post_id by {
                            assert(base.has_post(base.responses[i].responder_post_id));
                        }
                    }
                    if answer is Err {
                        assert(conn@.posts.subrange(0, base.posts.len() as int) =~= base.posts);
                        lemma_extends_itself(base);
                    }
                }
                state = state.on(answer);
            },
            WriteAction::Commit => {
                state = state.on(Ok(0));
            },
            WriteAction::Rollback => {
                if let Some(sp) = &mark {
                    conn.rollback(sp);
                }
                state = state.on(Ok(0));
            },
            WriteAction::Finish { outcome } => {
                return outcome;
            },
        }
    }
}

/// Reads, through `conn`, the first post in insertion order that the
/// criteria ask for, joined to its owner; `respondee_post_id` is the post it
/// responds to. No such post is `Ok(None)`, never a failure.
pub fn query_post_with_profile_inner(conn: &Database, criteria: &PostCriteria) -> (r: Result<
    Option<PostWithProfileQueryResult>,
    StoreError,
>)
    ensures
        conn@.wf(),
        match r {
            Ok(Some(p)) => conn@.query_post_with_profile(criteria@) == Some(p@),
            Ok(None) => conn@.query_post_with_profile(criteria@) is None,
            Err(_) => false,
        },
{
    Ok(conn.query_post_with_profile(criteria))
}

/// Reads, through `conn`, the first post in insertion order that the
/// criteria ask for, joined to its owner and, where it responds to a post,
/// to that post and its owner. The sharee fields are filled together or not
/// at all. No such post is `Ok(None)`, never a failure.
pub fn query_post_with_profile_and_sharee_inner(conn: &Database, criteria: &PostCriteria) -> (r: Result<
    Option<PostWithProfileAndShareeQueryResult>,
    StoreError,
>)
    ensures
        conn@.wf(),
        match r {
            Ok(Some(p)) => conn@.query_post_with_profile_and_sharee(criteria@) == Some(p@)
                && p@.sharee_all_or_nothing(),
            Ok(None) => conn@.query_post_with_profile_and_sharee(criteria@) is None,
            Err(_) => false,
        },
{
    Ok(conn.query_post_with_profile_and_sharee(criteria))
}

/// Reads, through `conn`, every post that the criteria ask for, in
/// insertion order, each joined to its owner. No such post is an empty
/// list, never a failure.
pub fn query_posts_with_profile_inner(conn: &Database, criteria: &PostCriteria) -> (r: Result<
    Vec<PostWithProfileQueryResult>,
    StoreError,
>)
    ensures
        conn@.wf(),
        match r {
            Ok(posts) => post_views(posts@) == conn@.query_posts_with_profile(criteria@),
            Err(_) => false,
        },
{
    Ok(conn.query_posts_with_profile(criteria))
}

/// The capability to insert a post that responds to no other.
pub trait InsertPostFn: StoreHandle {
    /// On success the post was inserted as the store's rules say and its
    /// identifier is returned. On failure the store is as it was, and a
    /// `ForeignKeyViolation` is reported only where the profile `user_id`
    /// does not exist.
    fn insert_standalone_post(&mut self, chain_asset_id: &str, chain_id: i64, user_id: i64, message: &str) -> (r:
        Result<EntityId, StoreError>)
        ensures
            match r {
                Ok(entity) => old(self).store().insert_post(chain_asset_id@, chain_id, user_id, message@) == (
                    final(self).store(),
                    Ok::<i64, StoreError>(entity.id),
                ),
                Err(e) => {
                    &&& final(self).store() == old(self).store()
                    &&& e == StoreError::ForeignKeyViolation ==> !old(self).store().has_profile(user_id)
                },
            },
    ;
}

impl InsertPostFn for DbRepo {
    fn insert_standalone_post(&mut self, chain_asset_id: &str, chain_id: i64, user_id: i64, message: &str) -> (r:
        Result<EntityId, StoreError>)
        ensures
            final(self).store().wf(),
            (final(self).store(), inserted_id(r)) == old(self).store().insert_post(
                chain_asset_id@,
                chain_id,
                user_id,
                message@,
            ),
    {
        insert_standalone_post_inner(self.get_conn_mut(), chain_asset_id, chain_id, user_id, message)
    }
}

/// The capability to insert a post that responds to another.
pub trait InsertResponsePostFn: StoreHandle {
    /// On success the post and its link to `respondee_post_id` were both
    /// inserted and the post's identifier is returned. On failure the store
    /// is as it was: never a post without its link. A `ForeignKeyViolation`
    /// is reported only where the profile `user_id` or the post
    /// `respondee_post_id` does not exist.
    fn insert_response_post(
        &mut self,
        chain_asset_id: &str,
        chain_id: i64,
        user_id: i64,
        message: &str,
        respondee_post_id: i64,
    ) -> (r: Result<EntityId, StoreError>)
        ensures
            match r {
                Ok(entity) => old(self).store().insert_response_post(
                    chain_asset_id@,
                    chain_id,
                    user_id,
                    message@,
                    respondee_post_id,
                ) == (final(self).store(), Ok::<i64, StoreError>(entity.id)),
                Err(e) => {
                    &&& final(self).store() == old(self).store()
                    &&& e == StoreError::ForeignKeyViolation ==> !old(self).store().has_profile(user_id)
                        || !old(self).store().has_post(respondee_post_id)
                },
            },
    ;
}

impl InsertResponsePostFn for DbRepo {
    fn insert_response_post(
        &mut self,
        chain_asset_id: &str,
        chain_id: i64,
        user_id: i64,
        message: &str,
        respondee_post_id: i64,
    ) -> (r: Result<EntityId, StoreError>)
        ensures
            final(self).store().wf(),
            (final(self).store(), inserted_id(r)) == old(self).store().insert_response_post(
                chain_asset_id@,
                chain_id,
                user_id,
                message@,
                respondee_post_id,
            ),
    {
        insert_response_post_inner(
            self.get_conn_mut(),
            chain_asset_id,
            chain_id,
            user_id,
            message,
            respondee_post_id,
        )
    }
}

/// The capability to read a post with its owner.
pub trait QueryPostWithProfileFn: StoreHandle {
    /// On success the answer is the first post in insertion order that the
    /// criteria ask for, joined to its owner, or `None` where there is no
    /// such post.
    fn query_post_with_profile(&self, criteria: &PostCriteria) -> (r: Result<
        Option<PostWithProfileQueryResult>,
        StoreError,
    >)
        ensures
            match r {
                Ok(Some(p)) => self.store().query_post_with_profile(criteria@) == Some(p@),
                Ok(None) => self.store().query_post_with_profile(criteria@) is None,
                Err(_) => true,
            },
    ;
}

impl QueryPostWithProfileFn for DbRepo {
    fn query_post_with_profile(&self, criteria: &PostCriteria) -> (r: Result<
        Option<PostWithProfileQueryResult>,
        StoreError,
    >)
        ensures
            self.store().wf(),
            r is Ok,
    {
        query_post_with_profile_inner(self.get_conn(), criteria)
    }
}

/// The capability to read a list of posts with their owners.
pub trait QueryPostsWithProfileFn: StoreHandle {
    /// On success the answer holds every post that the criteria ask for, in
    /// insertion order, each joined to its owner.
    fn query_posts_with_profile(&self, criteria: &PostCriteria) -> (r: Result<
        Vec<PostWithProfileQueryResult>,
        StoreError,
    >)
        ensures
            r matches Ok(posts) ==> post_views(posts@) == self.store().query_posts_with_profile(criteria@),
    ;
}

impl QueryPostsWithProfileFn for DbRepo {
    fn query_posts_with_profile(&self, criteria: &PostCriteria) -> (r: Result<
        Vec<PostWithProfileQueryResult>,
        StoreError,
    >)
        ensures
            self.store().wf(),
            r is Ok,
    {
        query_posts_with_profile_inner(self.get_conn(), criteria)
    }
}

/// The capability to read a post with its owner and its sharee.
pub trait QueryPostWithProfileAndShareeFn: StoreHandle {
    /// On success the answer is the first post in insertion order that the
    /// criteria ask for, joined to its owner and to its sharee, or `None`
    /// where there is no such post. The sharee fields are filled together
    /// or not at all.
    fn query_post_with_profile_and_sharee(&self, criteria: &PostCriteria) -> (r: Result<
        Option<PostWithProfileAndShareeQueryResult>,
        StoreError,
    >)
        ensures
            match r {
                Ok(Some(p)) => self.store().query_post_with_profile_and_sharee(criteria@) == Some(p@)
                    && p@.sharee_all_or_nothing(),
                Ok(None) => self.store().query_post_with_profile_and_sharee(criteria@) is None,
                Err(_) => true,
            },
    ;
}

impl QueryPostWithProfileAndShareeFn for DbRepo {
    fn query_post_with_profile_and_sharee(&self, criteria: &PostCriteria) -> (r: Result<
        Option<PostWithProfileAndShareeQueryResult>,
        StoreError,
    >)
        ensures
            self.store().wf(),
            r is Ok,
    {
        query_post_with_profile_and_sharee_inner(self.get_conn(), criteria)
    }
}

} // verus!
