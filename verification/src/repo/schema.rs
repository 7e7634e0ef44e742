//! The tables of the store as mathematical values, and the rules that every
//! reachable store obeys.

use vstd::prelude::*;

verus! {

/// Mathematical value of a row of the `profile` table.
pub struct ProfileRowView {
    pub id: i64,
    pub created_at: i64,
    pub updated_at: i64,
    pub chain_asset_id: Seq<char>,
    pub chain_id: i64,
    pub user_name: Seq<char>,
    pub full_name: Seq<char>,
    pub description: Seq<char>,
    pub main_url: Option<Seq<char>>,
    pub avatar: Option<Seq<u8>>,
}

/// A row of the `profile` table. Timestamps count microseconds since the
/// Unix epoch, UTC.
pub struct ProfileRow {
    pub id: i64,
    pub created_at: i64,
    pub updated_at: i64,
    pub chain_asset_id: String,
    pub chain_id: i64,
    pub user_name: String,
    pub full_name: String,
    pub description: String,
    pub main_url: Option<String>,
    pub avatar: Option<Vec<u8>>,
}

impl View for ProfileRow {
    type V = ProfileRowView;

    open spec fn view(&self) -> ProfileRowView {
        ProfileRowView {
            id: self.id,
            created_at: self.created_at,
            updated_at: self.updated_at,
            chain_asset_id: self.chain_asset_id@,
            chain_id: self.chain_id,
            user_name: self.user_name@,
            full_name: self.full_name@,
            description: self.description@,
            main_url: self.main_url.deep_view(),
            avatar: self.avatar.deep_view(),
        }
    }
}

/// Mathematical value of a row of the `post` table.
pub struct PostRowView {
    pub id: i64,
    pub updated_at: i64,
    pub chain_asset_id: Seq<char>,
    pub chain_id: i64,
    pub user_id: i64,
    pub message: Option<Seq<char>>,
    pub image: Option<Seq<u8>>,
}

/// A row of the `post` table.
pub struct PostRow {
    pub id: i64,
    pub updated_at: i64,
    pub chain_asset_id: String,
    pub chain_id: i64,
    pub user_id: i64,
    pub message: Option<String>,
    pub image: Option<Vec<u8>>,
}

impl View for PostRow {
    type V = PostRowView;

    open spec fn view(&self) -> PostRowView {
        PostRowView {
            id: self.id,
            updated_at: self.updated_at,
            chain_asset_id: self.chain_asset_id@,
            chain_id: self.chain_id,
            user_id: self.user_id,
            message: self.message.deep_view(),
            image: self.image.deep_view(),
        }
    }
}

/// A row of the `post_response` table: the post `responder_post_id` answers
/// the post `respondee_post_id`.
#[derive(Debug, Clone, Copy, PartialEq, Eq, Structural)]
pub struct PostResponseRow {
    pub id: i64,
    pub respondee_post_id: i64,
    pub responder_post_id: i64,
}

/// Mathematical value of the store: its clock, in microseconds since the
/// Unix epoch, UTC; the largest identifier that it hands out; and its three
/// tables, each in insertion order.
pub struct DatabaseView {
    pub now: i64,
    pub max_id: i64,
    pub profiles: Seq<ProfileRowView>,
    pub posts: Seq<PostRowView>,
    pub responses: Seq<PostResponseRow>,
}

impl DatabaseView {
    /// The store without any row, its clock at the epoch, with every
    /// positive identifier to hand out.
    pub open spec fn empty() -> DatabaseView {
        DatabaseView::empty_up_to(i64::MAX)
    }

    /// The store without any row, its clock at the epoch, that hands out
    /// the identifiers from 1 to `max_id`; none where `max_id` is below 1.
    pub open spec fn empty_up_to(max_id: i64) -> DatabaseView {
        DatabaseView {
            now: 0,
            max_id: if max_id < 0 {
                0
            } else {
                max_id
            },
            profiles: Seq::empty(),
            posts: Seq::empty(),
            responses: Seq::empty(),
        }
    }

    /// Identifiers are handed out in order, starting at 1, and no table
    /// outgrows them.
    pub open spec fn ids_in_order(self) -> bool {
        &&& 0 <= self.max_id
        &&& self.profiles.len() <= self.max_id
        &&& self.posts.len() <= self.max_id
        &&& self.responses.len() <= self.max_id
        &&& forall|i: int| 0 <= i < self.profiles.len() ==> (#[trigger] self.profiles[i]).id == i + 1
        &&& forall|i: int| 0 <= i < self.posts.len() ==> (#[trigger] self.posts[i]).id == i + 1
        &&& forall|i: int| 0 <= i < self.responses.len() ==> (#[trigger] self.responses[i]).id == i + 1
    }

    /// No two profiles share a user name.
    pub open spec fn user_names_unique(self) -> bool {
        forall|i: int, j: int|
            0 <= i < j < self.profiles.len() ==> (#[trigger] self.profiles[i]).user_name != (
            #[trigger] self.profiles[j]).user_name
    }

    /// Every post belongs to a profile of the store.
    pub open spec fn posts_have_owners(self) -> bool {
        forall|i: int| 0 <= i < self.posts.len() ==> self.has_profile((#[trigger] self.posts[i]).user_id)
    }

    /// Both ends of every response link are posts of the store, and the
    /// respondee is the older of the two: links form chains, never a cycle.
    pub open spec fn responses_link_posts(self) -> bool {
        forall|i: int|
            0 <= i < self.responses.len() ==> {
                &&& self.has_post((#[trigger] self.responses[i]).responder_post_id)
                &&& 1 <= self.responses[i].respondee_post_id < self.responses[i].responder_post_id
            }
    }

    /// A post responds to at most one post.
    pub open spec fn responders_unique(self) -> bool {
        forall|i: int, j: int|
            0 <= i < j < self.responses.len() ==> (#[trigger] self.responses[i]).responder_post_id != (
            #[trigger] self.responses[j]).responder_post_id
    }

    /// The rules that every reachable store obeys.
    pub open spec fn wf(self) -> bool {
        &&& self.ids_in_order()
        &&& self.user_names_unique()
        &&& self.posts_have_owners()
        &&& self.responses_link_posts()
        &&& self.responders_unique()
    }

    /// A profile with this identifier exists.
    pub open spec fn has_profile(self, id: i64) -> bool {
        1 <= id <= self.profiles.len()
    }

    /// The profile with this identifier.
    pub open spec fn profile(self, id: i64) -> ProfileRowView
        recommends
            self.has_profile(id),
    {
        self.profiles[id - 1]
    }

    /// A post with this identifier exists.
    pub open spec fn has_post(self, id: i64) -> bool {
        1 <= id <= self.posts.len()
    }

    /// The post with this identifier.
    pub open spec fn post(self, id: i64) -> PostRowView
        recommends
            self.has_post(id),
    {
        self.posts[id - 1]
    }

    /// Some profile carries this user name.
    pub open spec fn user_name_taken(self, user_name: Seq<char>) -> bool {
        exists|i: int| 0 <= i < self.profiles.len() && (#[trigger] self.profiles[i]).user_name == user_name
    }

    /// The post `responder_post_id` is linked as a response to some post.
    pub open spec fn is_responder(self, responder_post_id: i64) -> bool {
        exists|i: int|
            0 <= i < self.responses.len() && (#[trigger] self.responses[i]).responder_post_id
                == responder_post_id
    }

    /// The post that `responder_post_id` responds to, if it responds to one.
    pub open spec fn respondee_of(self, responder_post_id: i64) -> Option<i64> {
        if self.is_responder(responder_post_id) {
            let i = choose|i: int|
                0 <= i < self.responses.len() && (#[trigger] self.responses[i]).responder_post_id
                    == responder_post_id;
            Some(self.responses[i].respondee_post_id)
        } else {
            None
        }
    }

    /// `self` holds every row of `base`, unchanged and in the same place,
    /// and possibly more rows behind them; the clock and the largest
    /// identifier are the same.
    pub open spec fn extends(self, base: DatabaseView) -> bool {
        &&& self.now == base.now
        &&& self.max_id == base.max_id
        &&& base.profiles.len() <= self.profiles.len()
        &&& base.posts.len() <= self.posts.len()
        &&& base.responses.len() <= self.responses.len()
        &&& self.profiles.subrange(0, base.profiles.len() as int) == base.profiles
        &&& self.posts.subrange(0, base.posts.len() as int) == base.posts
        &&& self.responses.subrange(0, base.responses.len() as int) == base.responses
    }
}

} // verus!
