//! The three tables and the work on them, without the guarantee that the
//! rules of the store hold: every function here asks for them and keeps
//! them.

use vstd::prelude::*;
use crate::repo::base::StoreError;
use crate::repo::post::model::{
    post_views,
    PostCriteria,
    PostWithProfileAndShareeQueryResult,
    PostWithProfileQueryResult,
};
use crate::repo::profile::model::{ProfileCreate, ProfileQueryResult, ProfileUpdate};
use crate::repo::schema::{DatabaseView, PostResponseRow, PostRow, PostRowView, ProfileRow};
use crate::repo::semantics::{new_post_row, new_profile_row, selector, selects, updated_profile_row};

verus! {

/// A copy of the bytes.
fn clone_bytes(v: &Vec<u8>) -> (r: Vec<u8>)
    ensures
        r@ == v@,
{
    let r = v.clone();
    assert(r@ =~= v@);
    r
}

/// A copy of the bytes, where there are any.
fn clone_opt_bytes(v: &Option<Vec<u8>>) -> (r: Option<Vec<u8>>)
    ensures
        r.deep_view() == v.deep_view(),
{
    match v {
        Some(b) => Some(clone_bytes(b)),
        None => None,
    }
}

/// A copy of the text, where there is any.
fn clone_opt_string(v: &Option<String>) -> (r: Option<String>)
    ensures
        r.deep_view() == v.deep_view(),
{
    match v {
        Some(s) => Some(s.clone()),
        None => None,
    }
}

/// Position of the row with identifier `id` in a table of `len` rows.
fn position_of(id: i64, len: usize) -> (r: usize)
    requires
        1 <= id <= len,
    ensures
        r == id - 1,
{
    (id - 1) as usize
}

/// The message that the criteria ask for; empty where they ask for none.
fn wanted_message(c: &PostCriteria) -> (wanted: String)
    ensures
        c matches PostCriteria::MessageAndUser { message, .. } ==> wanted@ == message@,
{
    match c {
        PostCriteria::MessageAndUser { message, .. } => message.clone(),
        _ => String::new(),
    }
}

/// The three tables, without the guarantee that their rules hold.
pub(crate) struct Tables {
    now: i64,
    max_id: i64,
    profiles: Vec<ProfileRow>,
    posts: Vec<PostRow>,
    responses: Vec<PostResponseRow>,
}

impl View for Tables {
    type V = DatabaseView;

    closed spec fn view(&self) -> DatabaseView {
        DatabaseView {
            now: self.now,
            max_id: self.max_id,
            profiles: Seq::new(self.profiles@.len(), |i: int| self.profiles@[i]@),
            posts: Seq::new(self.posts@.len(), |i: int| self.posts@[i]@),
            responses: self.responses@,
        }
    }
}

impl Tables {
    /// The tables without any row, the clock at the epoch, with the
    /// identifiers from 1 to `max_id` to hand out.
    pub(crate) fn empty(max_id: i64) -> (t: Tables)
        ensures
            t@ == DatabaseView::empty_up_to(max_id),
    {
        let t = Tables {
            now: 0,
            max_id: if max_id < 0 {
                0
            } else {
                max_id
            },
            profiles: Vec::new(),
            posts: Vec::new(),
            responses: Vec::new(),
        };
        assert(t@.profiles =~= Seq::empty());
        assert(t@.posts =~= Seq::empty());
        t
    }

    /// Whether a table of `len` rows has handed out its last identifier.
    fn is_full(&self, len: usize) -> (full: bool)
        requires
            0 <= self@.max_id,
        ensures
            full == (len >= self@.max_id),
    {
        len as u64 >= self.max_id as u64
    }

    /// The largest identifier to hand out.
    pub(crate) fn max_id(&self) -> (max_id: i64)
        ensures
            max_id == self@.max_id,
    {
        self.max_id
    }

    /// The clock.
    pub(crate) fn clock(&self) -> (now: i64)
        ensures
            now == self@.now,
    {
        self.now
    }

    /// Sets the clock; no row changes.
    pub(crate) fn set_clock(&mut self, now: i64)
        ensures
            final(self)@ == old(self)@.set_clock(now),
    {
        self.now = now;
        proof {
            assert(self@.profiles =~= old(self)@.profiles);
            assert(self@.posts =~= old(self)@.posts);
        }
    }

    /// Number of profiles.
    pub(crate) fn profile_count(&self) -> (n: usize)
        ensures
            n == self@.profiles.len(),
    {
        self.profiles.len()
    }

    /// Number of posts.
    pub(crate) fn post_count(&self) -> (n: usize)
        ensures
            n == self@.posts.len(),
    {
        self.posts.len()
    }

    /// Number of response links.
    pub(crate) fn post_response_count(&self) -> (n: usize)
        ensures
            n == self@.responses.len(),
    {
        self.responses.len()
    }

    /// Position of the profile with this user name, if there is one.
    fn profile_index_by_user_name(&self, user_name: &String) -> (r: Option<usize>)
        ensures
            match r {
                Some(i) => i < self@.profiles.len() && self@.profiles[i as int].user_name == user_name@,
                None => !self@.user_name_taken(user_name@),
            },
    {
        let n = self.profiles.len();
        let mut i: usize = 0;
        while i < n
            invariant
                n == self.profiles@.len(),
                i <= n,
                forall|k: int| 0 <= k < i ==> (#[trigger] self@.profiles[k]).user_name != user_name@,
            decreases n - i,
        {
            if self.profiles[i].user_name == *user_name {
                return Some(i);
            }
            i += 1;
        }
        None
    }

    /// Adds a profile, or refuses it, as [`DatabaseView::insert_profile`]
    /// says.
    pub(crate) fn insert_profile(&mut self, params: ProfileCreate) -> (r: Result<i64, StoreError>)
        requires
            old(self)@.wf(),
        ensures
            final(self)@.wf(),
            (final(self)@, r) == old(self)@.insert_profile(params@),
    {
        if self.profile_index_by_user_name(&params.user_name).is_some() {
            return Err(StoreError::UniqueViolation);
        }
        let n = self.profiles.len();
        if self.is_full(n) {
            return Err(StoreError::SequenceExhausted);
        }
        let id = (n as u64 + 1) as i64;
        let row = ProfileRow {
            id,
            created_at: self.now,
            updated_at: self.now,
            chain_asset_id: params.chain_asset_id,
            chain_id: params.chain_id,
            user_name: params.user_name,
            full_name: params.full_name,
            description: params.description,
            main_url: params.main_url,
            avatar: params.avatar,
        };
        self.profiles.push(row);
        proof {
            assert(self@.profiles =~= old(self)@.profiles.push(new_profile_row(params@, id, self.now)));
            assert(self@.posts =~= old(self)@.posts);
        }
        Ok(id)
    }

    /// Replaces the four mutable fields of the profile `id`, where there is
    /// one, and returns the number of rows changed.
    pub(crate) fn update_profile(&mut self, id: i64, params: ProfileUpdate) -> (rows: u64)
        requires
            old(self)@.wf(),
        ensures
            final(self)@.wf(),
            final(self)@ == old(self)@.update_profile(id, params@),
            rows == old(self)@.rows_updated(id),
    {
        if id < 1 || id as u64 > self.profiles.len() as u64 {
            return 0;
        }
        let idx = position_of(id, self.profiles.len());
        let row = &mut self.profiles[idx];
        row.full_name = params.full_name;
        row.description = params.description;
        row.main_url = params.main_url;
        row.avatar = params.avatar;
        proof {
            assert(self@.profiles =~= old(self)@.profiles.update(
                id - 1,
                updated_profile_row(old(self)@.profile(id), params@),
            ));
            assert(self@.posts =~= old(self)@.posts);
        }
        1
    }

    /// The profile with exactly this user name, if there is one.
    pub(crate) fn profile_by_user_name(&self, user_name: &str) -> (r: Option<ProfileQueryResult>)
        requires
            self@.wf(),
        ensures
            match r {
                Some(p) => self@.profile_by_user_name(user_name@) == Some(p@),
                None => self@.profile_by_user_name(user_name@) is None,
            },
    {
        let wanted = user_name.to_owned();
        match self.profile_index_by_user_name(&wanted) {
            None => None,
            Some(i) => {
                let row = &self.profiles[i];
                Some(
                    ProfileQueryResult {
                        id: row.id,
                        updated_at: row.updated_at,
                        chain_asset_id: row.chain_asset_id.clone(),
                        chain_id: row.chain_id,
                        user_name: row.user_name.clone(),
                        full_name: row.full_name.clone(),
                        description: row.description.clone(),
                        main_url: clone_opt_string(&row.main_url),
                        avatar: clone_opt_bytes(&row.avatar),
                    },
                )
            },
        }
    }

    /// Adds a post, or refuses it, as [`DatabaseView::insert_post`] says.
    pub(crate) fn insert_post(&mut self, chain_asset_id: &str, chain_id: i64, user_id: i64, message: &str) -> (r: Result<
        i64,
        StoreError,
    >)
        requires
            old(self)@.wf(),
        ensures
            final(self)@.wf(),
            (final(self)@, r) == old(self)@.insert_post(chain_asset_id@, chain_id, user_id, message@),
    {
        if user_id < 1 || user_id as u64 > self.profiles.len() as u64 {
            return Err(StoreError::ForeignKeyViolation);
        }
        let n = self.posts.len();
        if self.is_full(n) {
            return Err(StoreError::SequenceExhausted);
        }
        let id = (n as u64 + 1) as i64;
        let row = PostRow {
            id,
            updated_at: self.now,
            chain_asset_id: chain_asset_id.to_owned(),
            chain_id,
            user_id,
            message: Some(message.to_owned()),
            image: None,
        };
        self.posts.push(row);
        proof {
            assert(self@.posts =~= old(self)@.posts.push(
                new_post_row(chain_asset_id@, chain_id, user_id, message@, id, self.now),
            ));
            assert(self@.profiles =~= old(self)@.profiles);
        }
        Ok(id)
    }

    /// Position of the link whose responder is this post, if there is one.
    fn response_index_by_responder(&self, responder_post_id: i64) -> (r: Option<usize>)
        ensures
            match r {
                Some(i) => i < self@.responses.len() && self@.responses[i as int].responder_post_id
                    == responder_post_id,
                None => !self@.is_responder(responder_post_id),
            },
    {
        let n = self.responses.len();
        let mut i: usize = 0;
        while i < n
            invariant
                n == self.responses@.len(),
                i <= n,
                forall|k: int| 0 <= k < i ==> (#[trigger] self@.responses[k]).responder_post_id != responder_post_id,
            decreases n - i,
        {
            if self.responses[i].responder_post_id == responder_post_id {
                return Some(i);
            }
            i += 1;
        }
        None
    }

    /// Adds a response link, or refuses it, as
    /// [`DatabaseView::insert_post_response`] says.
    pub(crate) fn insert_post_response(&mut self, respondee_post_id: i64, responder_post_id: i64) -> (r: Result<
        i64,
        StoreError,
    >)
        requires
            old(self)@.wf(),
        ensures
            final(self)@.wf(),
            (final(self)@, r) == old(self)@.insert_post_response(respondee_post_id, responder_post_id),
    {
        if responder_post_id < 1 || responder_post_id as u64 > self.posts.len() as u64 || respondee_post_id < 1
            || respondee_post_id >= responder_post_id {
            return Err(StoreError::ForeignKeyViolation);
        }
        if self.response_index_by_responder(responder_post_id).is_some() {
            return Err(StoreError::UniqueViolation);
        }
        let n = self.responses.len();
        if self.is_full(n) {
            return Err(StoreError::SequenceExhausted);
        }
        let id = (n as u64 + 1) as i64;
        self.responses.push(PostResponseRow { id, respondee_post_id, responder_post_id });
        proof {
            assert(self@.profiles =~= old(self)@.profiles);
            assert(self@.posts =~= old(self)@.posts);
        }
        Ok(id)
    }

    /// The post that `post_id` responds to, if it responds to one.
    fn respondee_of(&self, post_id: i64) -> (r: Option<i64>)
        requires
            self@.wf(),
        ensures
            r == self@.respondee_of(post_id),
    {
        match self.response_index_by_responder(post_id) {
            Some(i) => Some(self.responses[i].respondee_post_id),
            None => None,
        }
    }

    /// Whether the post at position `i` is one that the criteria ask for.
    fn post_selected(&self, c: &PostCriteria, wanted: &String, i: usize) -> (r: bool)
        requires
            i < self@.posts.len(),
            c matches PostCriteria::MessageAndUser { message, .. } ==> wanted@ == message@,
        ensures
            r == selects(c@, self@.posts[i as int]),
    {
        let post = &self.posts[i];
        match c {
            PostCriteria::Id(id) => post.id == *id,
            PostCriteria::MessageAndUser { user_id, .. } => {
                post.user_id == *user_id && match &post.message {
                    Some(m) => *m == *wanted,
                    None => false,
                }
            },
            PostCriteria::User(user_id) => post.user_id == *user_id,
        }
    }

    /// Identifier of the first post that the criteria ask for.
    pub(crate) fn first_selected(&self, c: &PostCriteria) -> (r: Option<i64>)
        requires
            self@.wf(),
        ensures
            r == self@.first_selected(c@),
            r matches Some(id) ==> self@.has_post(id),
    {
        match self.first_selected_index(c) {
            Some(i) => Some(self.posts[i].id),
            None => None,
        }
    }

    /// Position of the first post that the criteria ask for.
    fn first_selected_index(&self, c: &PostCriteria) -> (r: Option<usize>)
        requires
            self@.wf(),
        ensures
            match r {
                Some(i) => i < self@.posts.len() && self@.first_selected(c@) == Some(
                    self@.posts[i as int].id,
                ),
                None => self@.first_selected(c@) is None,
            },
    {
        let wanted = wanted_message(c);
        let n = self.posts.len();
        let mut i: usize = 0;
        while i < n
            invariant
                n == self.posts@.len(),
                i <= n,
                c matches PostCriteria::MessageAndUser { message, .. } ==> wanted@ == message@,
                forall|k: int| 0 <= k < i ==> !selects(c@, #[trigger] self@.posts[k]),
            decreases n - i,
        {
            if self.post_selected(c, &wanted, i) {
                proof {
                    let v = self@;
                    assert(v.is_first_selected(c@, i as int));
                    let j = choose|j: int| v.is_first_selected(c@, j);
                    assert(j == i) by {
                        if j < i {
                            assert(!selects(c@, v.posts[j]));
                        } else if i < j {
                            assert(!selects(c@, v.posts[i as int]));
                        }
                    }
                }
                return Some(i);
            }
            i += 1;
        }
        proof {
            let v = self@;
            assert forall|j: int| !v.is_first_selected(c@, j) by {
                if 0 <= j < v.posts.len() {
                    assert(!selects(c@, v.posts[j]));
                }
            }
        }
        None
    }

    /// The post `post_id` joined to its owner.
    pub(crate) fn post_with_profile(&self, post_id: i64) -> (r: PostWithProfileQueryResult)
        requires
            self@.wf(),
            self@.has_post(post_id),
        ensures
            r@ == self@.post_with_profile(post_id),
    {
        let post = &self.posts[position_of(post_id, self.posts.len())];
        assert(self@.posts[post_id - 1] == post@);
        assert(self@.has_profile(post.user_id));
        let owner = &self.profiles[position_of(post.user_id, self.profiles.len())];
        assert(self@.profiles[post.user_id - 1] == owner@);
        PostWithProfileQueryResult {
            id: post.id,
            updated_at: post.updated_at,
            chain_asset_id: post.chain_asset_id.clone(),
            chain_id: post.chain_id,
            message: clone_opt_string(&post.message),
            image: clone_opt_bytes(&post.image),
            user_id: post.user_id,
            user_name: owner.user_name.clone(),
            full_name: owner.full_name.clone(),
            avatar: clone_opt_bytes(&owner.avatar),
            respondee_post_id: self.respondee_of(post_id),
        }
    }

    /// Every post that the criteria ask for, in insertion order, each
    /// joined to its owner.
    pub(crate) fn posts_with_profile(&self, c: &PostCriteria) -> (r: Vec<PostWithProfileQueryResult>)
        requires
            self@.wf(),
        ensures
            post_views(r@) == self@.query_posts_with_profile(c@),
    {
        let wanted = wanted_message(c);
        let mut found: Vec<PostWithProfileQueryResult> = Vec::new();
        let n = self.posts.len();
        let mut i: usize = 0;
        proof {
            reveal(Seq::filter);
            assert(self@.posts.take(0) =~= Seq::<PostRowView>::empty());
            assert(post_views(found@) =~= self@.posts.take(0).filter(selector(c@)).map_values(self@.joiner()));
        }
        while i < n
            invariant
                self@.wf(),
                n == self.posts@.len(),
                i <= n,
                c matches PostCriteria::MessageAndUser { message, .. } ==> wanted@ == message@,
                post_views(found@) == self@.posts.take(i as int).filter(selector(c@)).map_values(self@.joiner()),
            decreases n - i,
        {
            let ghost before = self@.posts.take(i as int);
            let ghost row = self@.posts[i as int];
            proof {
                assert(self@.posts.take(i + 1) =~= before.push(row));
                before.lemma_filter_push(row, selector(c@));
            }
            if self.post_selected(c, &wanted, i) {
                let ghost views = post_views(found@);
                let joined = self.post_with_profile(self.posts[i].id);
                found.push(joined);
                proof {
                    assert(post_views(found@) =~= views.push(joined@));
                    assert(before.filter(selector(c@)).push(row).map_values(self@.joiner()) =~= views.push(
                        joined@,
                    ));
                }
            }
            i += 1;
        }
        proof {
            assert(self@.posts.take(n as int) =~= self@.posts);
        }
        found
    }

    /// The post `post_id` joined to its owner and to its sharee.
    pub(crate) fn post_with_profile_and_sharee(&self, post_id: i64) -> (r: PostWithProfileAndShareeQueryResult)
        requires
            self@.wf(),
            self@.has_post(post_id),
        ensures
            r@ == self@.post_with_profile_and_sharee(post_id),
    {
        let post = &self.posts[position_of(post_id, self.posts.len())];
        assert(self@.posts[post_id - 1] == post@);
        assert(self@.has_profile(post.user_id));
        let owner = &self.profiles[position_of(post.user_id, self.profiles.len())];
        assert(self@.profiles[post.user_id - 1] == owner@);
        match self.response_index_by_responder(post_id) {
            Some(k) => {
                let sharee_id = self.responses[k].respondee_post_id;
                assert(self@.respondee_of(post_id) == Some(sharee_id));
                assert(self@.has_post(self@.responses[k as int].responder_post_id));
                let sharee = &self.posts[position_of(sharee_id, self.posts.len())];
                assert(self@.posts[sharee_id - 1] == sharee@);
                assert(self@.has_profile(sharee.user_id));
                let sharee_owner = &self.profiles[position_of(sharee.user_id, self.profiles.len())];
                assert(self@.profiles[sharee.user_id - 1] == sharee_owner@);
                PostWithProfileAndShareeQueryResult {
                    id: post.id,
                    updated_at: post.updated_at,
                    chain_asset_id: post.chain_asset_id.clone(),
                    chain_id: post.chain_id,
                    message: clone_opt_string(&post.message),
                    image: clone_opt_bytes(&post.image),
                    user_id: post.user_id,
                    user_name: owner.user_name.clone(),
                    full_name: owner.full_name.clone(),
                    avatar: clone_opt_bytes(&owner.avatar),
                    sharee_post_id: Some(sharee.id),
                    sharee_post_updated_at: Some(sharee.updated_at),
                    sharee_post_chain_asset_id: Some(sharee.chain_asset_id.clone()),
                    sharee_post_chain_id: Some(sharee.chain_id),
                    sharee_post_message: clone_opt_string(&sharee.message),
                    sharee_post_image: clone_opt_bytes(&sharee.image),
                    sharee_post_user_id: Some(sharee.user_id),
                    sharee_post_user_name: Some(sharee_owner.user_name.clone()),
                    sharee_post_full_name: Some(sharee_owner.full_name.clone()),
                    sharee_post_avatar: clone_opt_bytes(&sharee_owner.avatar),
                }
            },
            None => PostWithProfileAndShareeQueryResult {
                id: post.id,
                updated_at: post.updated_at,
                chain_asset_id: post.chain_asset_id.clone(),
                chain_id: post.chain_id,
                message: clone_opt_string(&post.message),
                image: clone_opt_bytes(&post.image),
                user_id: post.user_id,
                user_name: owner.user_name.clone(),
                full_name: owner.full_name.clone(),
                avatar: clone_opt_bytes(&owner.avatar),
                sharee_post_id: None,
                sharee_post_updated_at: None,
                sharee_post_chain_asset_id: None,
                sharee_post_chain_id: None,
                sharee_post_message: None,
                sharee_post_image: None,
                sharee_post_user_id: None,
                sharee_post_user_name: None,
                sharee_post_full_name: None,
                sharee_post_avatar: None,
            },
        }
    }

    /// Drops every row behind the first `profiles`, `posts` and `responses`
    /// rows of the three tables.
    pub(crate) fn truncate(&mut self, profiles: usize, posts: usize, responses: usize, Ghost(base): Ghost<DatabaseView>)
        requires
            base.wf(),
            old(self)@.extends(base),
            profiles == base.profiles.len(),
            posts == base.posts.len(),
            responses == base.responses.len(),
        ensures
            final(self)@ == base,
    {
        self.profiles.truncate(profiles);
        self.posts.truncate(posts);
        self.responses.truncate(responses);
        proof {
            assert(self@.profiles =~= old(self)@.profiles.subrange(0, profiles as int));
            assert(self@.posts =~= old(self)@.posts.subrange(0, posts as int));
            assert(self@.responses =~= old(self)@.responses.subrange(0, responses as int));
        }
    }
}

} // verus!
