//! The laws of the repository: what holds of every store that obeys the
//! rules and of every request, proved from the meaning of the operations.

use vstd::prelude::*;
use vstd::set_lib::{lemma_int_range, lemma_len_subset, set_int_range};
use crate::repo::base::StoreError;
use crate::repo::post::model::{PostCriteriaView, PostWithProfileQueryResultView};
use crate::repo::profile::model::{ProfileCreateView, ProfileUpdateView};
use crate::repo::schema::{DatabaseView, PostRowView};
use crate::repo::semantics::{new_post_row, new_profile_row, profile_query_result, selector, selects};

verus! {

/// A request that may change the store.
pub enum Write {
    SetClock { now: i64 },
    InsertProfile { profile: ProfileCreateView },
    UpdateProfile { id: i64, update: ProfileUpdateView },
    InsertStandalonePost { chain_asset_id: Seq<char>, chain_id: i64, user_id: i64, message: Seq<char> },
    InsertResponsePost {
        chain_asset_id: Seq<char>,
        chain_id: i64,
        user_id: i64,
        message: Seq<char>,
        respondee_post_id: i64,
    },
}

impl DatabaseView {
    /// The store after one write, whether it succeeded or failed.
    pub open spec fn after(self, write: Write) -> DatabaseView {
        match write {
            Write::SetClock { now } => self.set_clock(now),
            Write::InsertProfile { profile } => self.insert_profile(profile).0,
            Write::UpdateProfile { id, update } => self.update_profile(id, update),
            Write::InsertStandalonePost { chain_asset_id, chain_id, user_id, message } => self.insert_post(
                chain_asset_id,
                chain_id,
                user_id,
                message,
            ).0,
            Write::InsertResponsePost {
                chain_asset_id,
                chain_id,
                user_id,
                message,
                respondee_post_id,
            } => self.insert_response_post(chain_asset_id, chain_id, user_id, message, respondee_post_id).0,
        }
    }

    /// The store after these writes, one after another.
    pub open spec fn after_all(self, writes: Seq<Write>) -> DatabaseView
        decreases writes.len(),
    {
        if writes.len() == 0 {
            self
        } else {
            self.after(writes[0]).after_all(writes.drop_first())
        }
    }
}

/// Links are fewer than posts: every link has a responder of its own, and
/// the oldest post responds to none.
pub proof fn law_links_are_fewer_than_posts(db: DatabaseView)
    requires
        db.wf(),
    ensures
        db.responses.len() == 0 || db.responses.len() < db.posts.len(),
{
    if db.responses.len() > 0 {
        let responders = Seq::new(db.responses.len(), |i: int| db.responses[i].responder_post_id as int);
        assert(responders.no_duplicates()) by {
            assert forall|i: int, j: int|
                0 <= i < responders.len() && 0 <= j < responders.len() && i != j implies responders[i]
                != responders[j] by {
                if i < j {
                    assert(db.responses[i].responder_post_id != db.responses[j].responder_post_id);
                } else {
                    assert(db.responses[j].responder_post_id != db.responses[i].responder_post_id);
                }
            }
        }
        responders.unique_seq_to_set();
        let younger = set_int_range(2, db.posts.len() as int + 1);
        assert(db.has_post(db.responses[0].responder_post_id));
        lemma_int_range(2, db.posts.len() as int + 1);
        assert(responders.to_set().subset_of(younger)) by {
            assert forall|id: int| responders.to_set().contains(id) implies younger.contains(id) by {
                let i = choose|i: int| 0 <= i < responders.len() && responders[i] == id;
                assert(db.has_post(db.responses[i].responder_post_id));
            }
        }
        lemma_len_subset(responders.to_set(), younger);
    }
}

/// A link insert keeps the rules of the store.
pub proof fn law_link_insert_keeps_rules(db: DatabaseView, respondee_post_id: i64, responder_post_id: i64)
    requires
        db.wf(),
    ensures
        db.insert_post_response(respondee_post_id, responder_post_id).0.wf(),
{
    let after = db.insert_post_response(respondee_post_id, responder_post_id).0;
    if after != db {
        assert forall|i: int, j: int| 0 <= i < j < after.responses.len() implies (
        #[trigger] after.responses[i]).responder_post_id != (#[trigger] after.responses[j]).responder_post_id by {
            if j == db.responses.len() {
                assert(db.responses[i].responder_post_id != responder_post_id);
            }
        }
    }
}

/// No write, accepted or refused, breaks the rules of the store.
pub proof fn law_every_write_keeps_rules(db: DatabaseView, write: Write)
    requires
        db.wf(),
    ensures
        db.after(write).wf(),
{
    let after = db.after(write);
    match write {
        Write::SetClock { .. } => {},
        Write::InsertProfile { profile } => {
            if after != db {
                assert forall|i: int, j: int| 0 <= i < j < after.profiles.len() implies (
                #[trigger] after.profiles[i]).user_name != (#[trigger] after.profiles[j]).user_name by {
                    if j == db.profiles.len() {
                        assert(db.profiles[i].user_name != profile.user_name);
                    }
                }
            }
        },
        Write::UpdateProfile { id, update } => {
            if db.has_profile(id) {
                assert forall|i: int, j: int| 0 <= i < j < after.profiles.len() implies (
                #[trigger] after.profiles[i]).user_name != (#[trigger] after.profiles[j]).user_name by {
                    assert(after.profiles[i].user_name == db.profiles[i].user_name);
                    assert(after.profiles[j].user_name == db.profiles[j].user_name);
                }
            }
        },
        Write::InsertStandalonePost { .. } => {},
        Write::InsertResponsePost { chain_asset_id, chain_id, user_id, message, respondee_post_id } => {
            law_response_post_is_both_statements_or_neither(
                db,
                chain_asset_id,
                chain_id,
                user_id,
                message,
                respondee_post_id,
            );
            let first = db.insert_post(chain_asset_id, chain_id, user_id, message);
            if let Ok(id) = first.1 {
                law_link_insert_keeps_rules(first.0, respondee_post_id, id);
            }
        },
    }
}

/// Every store that writes have made of an empty store obeys the rules.
pub proof fn law_every_reachable_store_keeps_rules(max_id: i64, writes: Seq<Write>)
    ensures
        DatabaseView::empty_up_to(max_id).after_all(writes).wf(),
        DatabaseView::empty().after_all(writes).wf(),
{
    lemma_writes_keep_rules(DatabaseView::empty_up_to(max_id), writes);
    lemma_writes_keep_rules(DatabaseView::empty(), writes);
}

/// Writes take a store that obeys the rules to one that obeys them.
pub proof fn lemma_writes_keep_rules(db: DatabaseView, writes: Seq<Write>)
    requires
        db.wf(),
    ensures
        db.after_all(writes).wf(),
    decreases writes.len(),
{
    if writes.len() > 0 {
        law_every_write_keeps_rules(db, writes[0]);
        lemma_writes_keep_rules(db.after(writes[0]), writes.drop_first());
    }
}

/// Uniqueness of user names: an insert under a user name that a profile
/// already carries fails as a constraint violation and adds no row.
pub proof fn law_taken_user_name_is_refused(db: DatabaseView, params: ProfileCreateView)
    requires
        db.user_name_taken(params.user_name),
    ensures
        db.insert_profile(params) == (db, Err::<i64, StoreError>(StoreError::UniqueViolation)),
        StoreError::UniqueViolation.is_constraint_violation(),
{
}

/// Uniqueness of user names, across two inserts: once a profile is in, a
/// second insert under the same user name fails and adds no row, whatever
/// else it carries.
pub proof fn law_user_name_is_given_once(db: DatabaseView, first: ProfileCreateView, second: ProfileCreateView)
    requires
        db.insert_profile(first).1 is Ok,
        second.user_name == first.user_name,
    ensures
        ({
            let with_first = db.insert_profile(first).0;
            with_first.insert_profile(second) == (
                with_first,
                Err::<i64, StoreError>(StoreError::UniqueViolation),
            )
        }),
{
    let with_first = db.insert_profile(first).0;
    assert(with_first.profiles[db.profiles.len() as int].user_name == first.user_name);
}

/// An accepted insert returns a positive identifier, and a lookup by the
/// user name then finds exactly the inserted profile.
pub proof fn law_inserted_profile_is_found(db: DatabaseView, params: ProfileCreateView)
    requires
        db.wf(),
        db.insert_profile(params).1 is Ok,
    ensures
        ({
            let (after, result) = db.insert_profile(params);
            let id = result->Ok_0;
            &&& id > 0
            &&& after.profile_by_user_name(params.user_name) == Some(
                profile_query_result(new_profile_row(params, id, db.now)),
            )
        }),
{
    let (after, result) = db.insert_profile(params);
    law_every_write_keeps_rules(db, Write::InsertProfile { profile: params });
    lemma_lookup_finds_the_row(after, db.profiles.len() as int);
}

/// In a store that obeys the rules, a lookup by the user name of the row at
/// position `i` finds that row.
pub proof fn lemma_lookup_finds_the_row(db: DatabaseView, i: int)
    requires
        db.wf(),
        0 <= i < db.profiles.len(),
    ensures
        db.profile_by_user_name(db.profiles[i].user_name) == Some(profile_query_result(db.profiles[i])),
{
    let name = db.profiles[i].user_name;
    assert(db.user_name_taken(name));
    let k = choose|k: int| 0 <= k < db.profiles.len() && (#[trigger] db.profiles[k]).user_name == name;
    assert(k == i) by {
        if k < i {
            assert(db.profiles[k].user_name != db.profiles[i].user_name);
        } else if i < k {
            assert(db.profiles[i].user_name != db.profiles[k].user_name);
        }
    }
}

/// A lookup finds nothing exactly when no profile carries the user name,
/// and what it finds carries that user name.
pub proof fn law_lookup_is_exact(db: DatabaseView, user_name: Seq<char>)
    ensures
        db.profile_by_user_name(user_name) is None <==> !db.user_name_taken(user_name),
        db.profile_by_user_name(user_name) matches Some(p) ==> p.user_name == user_name,
{
}

/// Referential integrity of posts: a post for a profile that does not
/// exist is refused as a foreign-key violation and adds no row, alone or as
/// a response.
pub proof fn law_post_needs_its_owner(
    db: DatabaseView,
    chain_asset_id: Seq<char>,
    chain_id: i64,
    user_id: i64,
    message: Seq<char>,
    respondee_post_id: i64,
)
    requires
        !db.has_profile(user_id),
    ensures
        db.insert_post(chain_asset_id, chain_id, user_id, message) == (
            db,
            Err::<i64, StoreError>(StoreError::ForeignKeyViolation),
        ),
        db.insert_response_post(chain_asset_id, chain_id, user_id, message, respondee_post_id) == (
            db,
            Err::<i64, StoreError>(StoreError::ForeignKeyViolation),
        ),
        StoreError::ForeignKeyViolation.is_constraint_violation(),
{
}

/// Referential integrity of responses: a response to a post that does not
/// exist is refused as a foreign-key violation and adds no row, though its
/// owner exists.
pub proof fn law_response_needs_its_respondee(
    db: DatabaseView,
    chain_asset_id: Seq<char>,
    chain_id: i64,
    user_id: i64,
    message: Seq<char>,
    respondee_post_id: i64,
)
    requires
        db.wf(),
        db.has_profile(user_id),
        !db.has_post(respondee_post_id),
        db.posts.len() < db.max_id,
    ensures
        db.insert_response_post(chain_asset_id, chain_id, user_id, message, respondee_post_id) == (
            db,
            Err::<i64, StoreError>(StoreError::ForeignKeyViolation),
        ),
{
}

/// Atomicity of a response post: either the post and the link from its
/// respondee are both added, and nothing else changes, or the store stays
/// exactly as it was. Never a post without its link, never a link without
/// its post.
pub proof fn law_response_post_is_all_or_nothing(
    db: DatabaseView,
    chain_asset_id: Seq<char>,
    chain_id: i64,
    user_id: i64,
    message: Seq<char>,
    respondee_post_id: i64,
)
    requires
        db.wf(),
    ensures
        ({
            let (after, result) = db.insert_response_post(
                chain_asset_id,
                chain_id,
                user_id,
                message,
                respondee_post_id,
            );
            match result {
                Ok(id) => {
                    &&& id == db.posts.len() + 1
                    &&& after.profiles == db.profiles
                    &&& after.posts == db.posts.push(
                        new_post_row(chain_asset_id, chain_id, user_id, message, id, db.now),
                    )
                    &&& after.responses.len() == db.responses.len() + 1
                    &&& after.responses.drop_last() == db.responses
                    &&& after.responses.last().respondee_post_id == respondee_post_id
                    &&& after.responses.last().responder_post_id == id
                    &&& after.respondee_of(id) == Some(respondee_post_id)
                },
                Err(_) => after == db,
            }
        }),
{
    let (after, result) = db.insert_response_post(chain_asset_id, chain_id, user_id, message, respondee_post_id);
    if let Ok(id) = result {
        assert(after.responses.drop_last() =~= db.responses);
        law_every_write_keeps_rules(
            db,
            Write::InsertResponsePost { chain_asset_id, chain_id, user_id, message, respondee_post_id },
        );
        lemma_respondee_of_link(after, db.responses.len() as int);
    }
}

/// In a store that obeys the rules, the post that the responder of the link
/// at position `i` responds to is that link's respondee.
pub proof fn lemma_respondee_of_link(db: DatabaseView, i: int)
    requires
        db.wf(),
        0 <= i < db.responses.len(),
    ensures
        db.respondee_of(db.responses[i].responder_post_id) == Some(db.responses[i].respondee_post_id),
{
    let responder = db.responses[i].responder_post_id;
    assert(db.is_responder(responder));
    let k = choose|k: int|
        0 <= k < db.responses.len() && (#[trigger] db.responses[k]).responder_post_id == responder;
    assert(k == i) by {
        if k < i {
            assert(db.responses[k].responder_post_id != db.responses[i].responder_post_id);
        } else if i < k {
            assert(db.responses[i].responder_post_id != db.responses[k].responder_post_id);
        }
    }
}

/// A response post is its two statements or neither: where the post insert
/// fails, that failure is the result; where the link insert fails after
/// it, that failure is the result and the post is gone again; where both
/// succeed, both rows stay.
pub proof fn law_response_post_is_both_statements_or_neither(
    db: DatabaseView,
    chain_asset_id: Seq<char>,
    chain_id: i64,
    user_id: i64,
    message: Seq<char>,
    respondee_post_id: i64,
)
    requires
        db.wf(),
    ensures
        ({
            let unit = db.insert_response_post(chain_asset_id, chain_id, user_id, message, respondee_post_id);
            let (with_post, post) = db.insert_post(chain_asset_id, chain_id, user_id, message);
            match post {
                Err(e) => unit == (db, Err::<i64, StoreError>(e)),
                Ok(id) => {
                    let (with_link, link) = with_post.insert_post_response(respondee_post_id, id);
                    match link {
                        Err(e) => unit == (db, Err::<i64, StoreError>(e)),
                        Ok(_) => unit == (with_link, Ok::<i64, StoreError>(id)),
                    }
                },
            }
        }),
{
    let (with_post, post) = db.insert_post(chain_asset_id, chain_id, user_id, message);
    if let Ok(id) = post {
        assert(!with_post.is_responder(id)) by {
            assert forall|i: int| 0 <= i < db.responses.len() implies (
            #[trigger] db.responses[i]).responder_post_id != id by {
                assert(db.has_post(db.responses[i].responder_post_id));
            }
        }
        law_links_are_fewer_than_posts(db);
    }
}

/// After an accepted response post, a read of that post by its identifier
/// shows the post it responds to; after an accepted standalone post, a read
/// shows none.
pub proof fn law_read_shows_the_respondee(
    db: DatabaseView,
    chain_asset_id: Seq<char>,
    chain_id: i64,
    user_id: i64,
    message: Seq<char>,
    respondee_post_id: i64,
)
    requires
        db.wf(),
    ensures
        ({
            let (after, result) = db.insert_response_post(
                chain_asset_id,
                chain_id,
                user_id,
                message,
                respondee_post_id,
            );
            result matches Ok(id) ==> {
                &&& after.query_post_with_profile(PostCriteriaView::Id(id)) is Some
                &&& after.query_post_with_profile(PostCriteriaView::Id(id))->Some_0.id == id
                &&& after.query_post_with_profile(PostCriteriaView::Id(id))->Some_0.respondee_post_id == Some(
                    respondee_post_id,
                )
                &&& after.query_post_with_profile_and_sharee(PostCriteriaView::Id(id))->Some_0.sharee_post_id
                    == Some(respondee_post_id)
            }
        }),
        ({
            let (after, result) = db.insert_post(chain_asset_id, chain_id, user_id, message);
            result matches Ok(id) ==> {
                &&& after.query_post_with_profile(PostCriteriaView::Id(id)) is Some
                &&& after.query_post_with_profile(PostCriteriaView::Id(id))->Some_0.id == id
                &&& after.query_post_with_profile(PostCriteriaView::Id(id))->Some_0.respondee_post_id is None
            }
        }),
{
    let (after, result) = db.insert_response_post(chain_asset_id, chain_id, user_id, message, respondee_post_id);
    if let Ok(id) = result {
        law_response_post_is_all_or_nothing(db, chain_asset_id, chain_id, user_id, message, respondee_post_id);
        law_every_write_keeps_rules(
            db,
            Write::InsertResponsePost { chain_asset_id, chain_id, user_id, message, respondee_post_id },
        );
        lemma_read_by_id(after, id);
    }
    let (after, result) = db.insert_post(chain_asset_id, chain_id, user_id, message);
    if let Ok(id) = result {
        law_every_write_keeps_rules(
            db,
            Write::InsertStandalonePost { chain_asset_id, chain_id, user_id, message },
        );
        lemma_read_by_id(after, id);
        assert(!after.is_responder(id)) by {
            assert forall|i: int| 0 <= i < db.responses.len() implies (
            #[trigger] db.responses[i]).responder_post_id != id by {
                assert(db.has_post(db.responses[i].responder_post_id));
            }
        }
    }
}

/// In a store that obeys the rules, a read by identifier finds the post
/// with that identifier, and no other.
pub proof fn lemma_read_by_id(db: DatabaseView, id: i64)
    requires
        db.wf(),
    ensures
        db.first_selected(PostCriteriaView::Id(id)) == if db.has_post(id) {
            Some(id)
        } else {
            None
        },
{
    let c = PostCriteriaView::Id(id);
    if db.has_post(id) {
        assert(db.posts[id - 1].id == id);
        assert(db.is_first_selected(c, id - 1));
        let k = choose|k: int| db.is_first_selected(c, k);
        assert(db.posts[k].id == k + 1);
    } else {
        assert forall|k: int| !db.is_first_selected(c, k) by {
            if 0 <= k < db.posts.len() {
                assert(db.posts[k].id == k + 1);
            }
        }
    }
}

/// An update leaves the identity of the profile alone and replaces the rest
/// exactly: identifier, user name, chain asset, chain and timestamps stay;
/// full name, description, main URL and avatar are those of the update, an
/// absent one stored as absent. No other row of any table changes, and a
/// lookup by the user name finds the updated profile.
pub proof fn law_update_keeps_identity(db: DatabaseView, id: i64, params: ProfileUpdateView)
    requires
        db.wf(),
        db.has_profile(id),
    ensures
        ({
            let before = db.profile(id);
            let after = db.update_profile(id, params);
            let row = after.profile(id);
            &&& row.id == before.id
            &&& row.user_name == before.user_name
            &&& row.chain_asset_id == before.chain_asset_id
            &&& row.chain_id == before.chain_id
            &&& row.created_at == before.created_at
            &&& row.updated_at == before.updated_at
            &&& row.full_name == params.full_name
            &&& row.description == params.description
            &&& row.main_url == params.main_url
            &&& row.avatar == params.avatar
            &&& after.profiles.len() == db.profiles.len()
            &&& forall|other: i64| db.has_profile(other) && other != id ==> after.profile(other) == db.profile(other)
            &&& after.posts == db.posts
            &&& after.responses == db.responses
            &&& after.now == db.now
            &&& after.profile_by_user_name(before.user_name) == Some(profile_query_result(row))
        }),
{
    let after = db.update_profile(id, params);
    law_every_write_keeps_rules(db, Write::UpdateProfile { id, update: params });
    lemma_lookup_finds_the_row(after, id - 1);
}

/// An update of a profile that does not exist changes nothing.
pub proof fn law_update_of_missing_profile_changes_nothing(db: DatabaseView, id: i64, params: ProfileUpdateView)
    requires
        !db.has_profile(id),
    ensures
        db.update_profile(id, params) == db,
{
}

/// Among the posts that a test keeps, the first is the first post that
/// passes the test, and none is kept where none passes.
pub proof fn lemma_first_kept_is_first_passing(posts: Seq<PostRowView>, keep: spec_fn(PostRowView) -> bool)
    ensures
        posts.filter(keep).len() == 0 <==> forall|k: int| 0 <= k < posts.len() ==> !keep(#[trigger] posts[k]),
        forall|i: int|
            #![trigger posts[i]]
            0 <= i < posts.len() && keep(posts[i]) && (forall|k: int| 0 <= k < i ==> !keep(#[trigger] posts[k]))
                ==> posts.filter(keep).len() > 0 && posts.filter(keep)[0] == posts[i],
    decreases posts.len(),
{
    reveal(Seq::filter);
    if posts.len() > 0 {
        let rest = posts.drop_last();
        let last = posts.last();
        lemma_first_kept_is_first_passing(rest, keep);
        assert(posts =~= rest.push(last));
        rest.lemma_filter_push(last, keep);
        assert forall|k: int| 0 <= k < rest.len() implies rest[k] == posts[k] by {}
        if posts.filter(keep).len() == 0 {
            assert forall|k: int| 0 <= k < posts.len() implies !keep(#[trigger] posts[k]) by {
                if k < rest.len() {
                    assert(rest[k] == posts[k]);
                }
            }
        }
        assert forall|i: int|
            #![trigger posts[i]]
            0 <= i < posts.len() && keep(posts[i]) && (forall|k: int|
                0 <= k < i ==> !keep(#[trigger] posts[k])) implies posts.filter(keep).len() > 0
            && posts.filter(keep)[0] == posts[i] by {
            if i < rest.len() {
                assert(rest[i] == posts[i]);
                assert forall|k: int| 0 <= k < i implies !keep(#[trigger] rest[k]) by {
                    assert(rest[k] == posts[k]);
                }
            } else {
                assert forall|k: int| 0 <= k < rest.len() implies !keep(#[trigger] rest[k]) by {
                    assert(rest[k] == posts[k]);
                }
            }
        }
    }
}

/// A single read answers with the head of the list read: the first of the
/// posts that the list read returns, and nothing where the list is empty.
pub proof fn law_single_read_is_head_of_list_read(db: DatabaseView, c: PostCriteriaView)
    requires
        db.wf(),
    ensures
        db.query_post_with_profile(c) == if db.query_posts_with_profile(c).len() == 0 {
            None::<PostWithProfileQueryResultView>
        } else {
            Some(db.query_posts_with_profile(c)[0])
        },
{
    lemma_first_kept_is_first_passing(db.posts, selector(c));
    let kept = db.posts.filter(selector(c));
    assert forall|k: int| 0 <= k < db.posts.len() implies selector(c)(db.posts[k]) == selects(c, db.posts[k]) by {}
    if exists|i: int| db.is_first_selected(c, i) {
        let i = choose|i: int| db.is_first_selected(c, i);
        assert(selector(c)(db.posts[i]));
        assert forall|k: int| 0 <= k < i implies !selector(c)(#[trigger] db.posts[k]) by {
            assert(!selects(c, db.posts[k]));
        }
        assert(kept[0] == db.posts[i]);
    } else {
        if kept.len() > 0 {
            lemma_some_post_is_first_selected(db, c);
        }
    }
}

/// Where some post passes the criteria, one of them is the first.
pub proof fn lemma_some_post_is_first_selected(db: DatabaseView, c: PostCriteriaView)
    requires
        exists|k: int| 0 <= k < db.posts.len() && selects(c, #[trigger] db.posts[k]),
    ensures
        exists|i: int| db.is_first_selected(c, i),
{
    let k = choose|k: int| 0 <= k < db.posts.len() && selects(c, #[trigger] db.posts[k]);
    lemma_first_selected_up_to(db, c, k);
}

/// Where the post at position `k` passes the criteria, the first that
/// passes stands at `k` or before it.
pub proof fn lemma_first_selected_up_to(db: DatabaseView, c: PostCriteriaView, k: int)
    requires
        0 <= k < db.posts.len(),
        selects(c, db.posts[k]),
    ensures
        exists|i: int| 0 <= i <= k && db.is_first_selected(c, i),
    decreases k,
{
    if exists|j: int| 0 <= j < k && selects(c, #[trigger] db.posts[j]) {
        let j = choose|j: int| 0 <= j < k && selects(c, #[trigger] db.posts[j]);
        lemma_first_selected_up_to(db, c, j);
    } else {
        assert(db.is_first_selected(c, k));
    }
}

} // verus!
