//! What each operation does to the store and what it answers, as
//! mathematics. The executable store is proved against these functions, and
//! the laws of the repository are stated over them.

use vstd::prelude::*;
use crate::repo::base::StoreError;
use crate::repo::post::model::{
    PostCriteriaView,
    PostWithProfileAndShareeQueryResultView,
    PostWithProfileQueryResultView,
};
use crate::repo::profile::model::{ProfileCreateView, ProfileQueryResultView, ProfileUpdateView};
use crate::repo::schema::{DatabaseView, PostResponseRow, PostRowView, ProfileRowView};

verus! {

/// The row that a profile insert writes.
pub open spec fn new_profile_row(p: ProfileCreateView, id: i64, now: i64) -> ProfileRowView {
    ProfileRowView {
        id,
        created_at: now,
        updated_at: now,
        chain_asset_id: p.chain_asset_id,
        chain_id: p.chain_id,
        user_name: p.user_name,
        full_name: p.full_name,
        description: p.description,
        main_url: p.main_url,
        avatar: p.avatar,
    }
}

/// The row after an update: the four mutable fields replaced, all else kept.
pub open spec fn updated_profile_row(row: ProfileRowView, u: ProfileUpdateView) -> ProfileRowView {
    ProfileRowView {
        full_name: u.full_name,
        description: u.description,
        main_url: u.main_url,
        avatar: u.avatar,
        ..row
    }
}

/// The row that a post insert writes: the message present, no image.
pub open spec fn new_post_row(
    chain_asset_id: Seq<char>,
    chain_id: i64,
    user_id: i64,
    message: Seq<char>,
    id: i64,
    now: i64,
) -> PostRowView {
    PostRowView {
        id,
        updated_at: now,
        chain_asset_id,
        chain_id,
        user_id,
        message: Some(message),
        image: None,
    }
}

/// A profile row as a lookup returns it.
pub open spec fn profile_query_result(row: ProfileRowView) -> ProfileQueryResultView {
    ProfileQueryResultView {
        id: row.id,
        updated_at: row.updated_at,
        chain_asset_id: row.chain_asset_id,
        chain_id: row.chain_id,
        user_name: row.user_name,
        full_name: row.full_name,
        description: row.description,
        main_url: row.main_url,
        avatar: row.avatar,
    }
}

/// The post `p` is one that the criteria ask for. A post without a message
/// is never found by message.
pub open spec fn selects(c: PostCriteriaView, p: PostRowView) -> bool {
    match c {
        PostCriteriaView::Id(id) => p.id == id,
        PostCriteriaView::MessageAndUser { message, user_id } => p.message == Some(message) && p.user_id
            == user_id,
        PostCriteriaView::User(user_id) => p.user_id == user_id,
    }
}

/// The test that the criteria make of a post.
pub open spec fn selector(c: PostCriteriaView) -> spec_fn(PostRowView) -> bool {
    |p: PostRowView| selects(c, p)
}

impl DatabaseView {
    /// The clock set to `now`; no row changes.
    pub open spec fn set_clock(self, now: i64) -> DatabaseView {
        DatabaseView { now, ..self }
    }

    /// Insert of a profile: refused while the user name is taken, and once
    /// the last identifier is handed out; else the row is appended under the
    /// next identifier, stamped with the clock.
    pub open spec fn insert_profile(self, p: ProfileCreateView) -> (
        DatabaseView,
        Result<i64, StoreError>,
    ) {
        if self.user_name_taken(p.user_name) {
            (self, Err(StoreError::UniqueViolation))
        } else if self.profiles.len() >= self.max_id {
            (self, Err(StoreError::SequenceExhausted))
        } else {
            let id = (self.profiles.len() + 1) as i64;
            (DatabaseView { profiles: self.profiles.push(new_profile_row(p, id, self.now)), ..self }, Ok(id))
        }
    }

    /// Update by identifier: the row's four mutable fields are replaced; a
    /// store without such a row stays as it is.
    pub open spec fn update_profile(self, id: i64, u: ProfileUpdateView) -> DatabaseView {
        if self.has_profile(id) {
            DatabaseView {
                profiles: self.profiles.update(id - 1, updated_profile_row(self.profile(id), u)),
                ..self
            }
        } else {
            self
        }
    }

    /// The number of rows that an update by this identifier changes.
    pub open spec fn rows_updated(self, id: i64) -> u64 {
        if self.has_profile(id) {
            1
        } else {
            0
        }
    }

    /// Lookup by exact user name.
    pub open spec fn profile_by_user_name(self, user_name: Seq<char>) -> Option<ProfileQueryResultView> {
        if self.user_name_taken(user_name) {
            let i = choose|i: int|
                0 <= i < self.profiles.len() && (#[trigger] self.profiles[i]).user_name == user_name;
            Some(profile_query_result(self.profiles[i]))
        } else {
            None
        }
    }

    /// Insert of a post: refused unless the owner exists, else the row is
    /// appended under the next identifier, stamped with the clock.
    pub open spec fn insert_post(
        self,
        chain_asset_id: Seq<char>,
        chain_id: i64,
        user_id: i64,
        message: Seq<char>,
    ) -> (DatabaseView, Result<i64, StoreError>) {
        if !self.has_profile(user_id) {
            (self, Err(StoreError::ForeignKeyViolation))
        } else if self.posts.len() >= self.max_id {
            (self, Err(StoreError::SequenceExhausted))
        } else {
            let id = (self.posts.len() + 1) as i64;
            (
                DatabaseView {
                    posts: self.posts.push(new_post_row(chain_asset_id, chain_id, user_id, message, id, self.now)),
                    ..self
                },
                Ok(id),
            )
        }
    }

    /// Insert of a response link: refused unless both posts exist and the
    /// respondee is the older one, and while the responder already responds
    /// to a post.
    pub open spec fn insert_post_response(self, respondee_post_id: i64, responder_post_id: i64) -> (
        DatabaseView,
        Result<i64, StoreError>,
    ) {
        if !(self.has_post(responder_post_id) && 1 <= respondee_post_id < responder_post_id) {
            (self, Err(StoreError::ForeignKeyViolation))
        } else if self.is_responder(responder_post_id) {
            (self, Err(StoreError::UniqueViolation))
        } else if self.responses.len() >= self.max_id {
            (self, Err(StoreError::SequenceExhausted))
        } else {
            let id = (self.responses.len() + 1) as i64;
            (
                DatabaseView {
                    responses: self.responses.push(
                        PostResponseRow { id, respondee_post_id, responder_post_id },
                    ),
                    ..self
                },
                Ok(id),
            )
        }
    }

    /// Insert of a post that responds to `respondee_post_id`, as one unit:
    /// either the post and its link are both added, or the store stays as it
    /// is. The owner and the respondee must exist beforehand, and the post
    /// needs an identifier; the link then never lacks one, as links are
    /// fewer than posts.
    pub open spec fn insert_response_post(
        self,
        chain_asset_id: Seq<char>,
        chain_id: i64,
        user_id: i64,
        message: Seq<char>,
        respondee_post_id: i64,
    ) -> (DatabaseView, Result<i64, StoreError>) {
        if !self.has_profile(user_id) {
            (self, Err(StoreError::ForeignKeyViolation))
        } else if self.posts.len() >= self.max_id {
            (self, Err(StoreError::SequenceExhausted))
        } else if !self.has_post(respondee_post_id) {
            (self, Err(StoreError::ForeignKeyViolation))
        } else {
            let id = (self.posts.len() + 1) as i64;
            let link = PostResponseRow {
                id: (self.responses.len() + 1) as i64,
                respondee_post_id,
                responder_post_id: id,
            };
            (
                DatabaseView {
                    posts: self.posts.push(new_post_row(chain_asset_id, chain_id, user_id, message, id, self.now)),
                    responses: self.responses.push(link),
                    ..self
                },
                Ok(id),
            )
        }
    }

    /// The post `post_id` joined to its owner, with the post it responds to.
    pub open spec fn post_with_profile(self, post_id: i64) -> PostWithProfileQueryResultView
        recommends
            self.wf(),
            self.has_post(post_id),
    {
        let post = self.post(post_id);
        let owner = self.profile(post.user_id);
        PostWithProfileQueryResultView {
            id: post.id,
            updated_at: post.updated_at,
            chain_asset_id: post.chain_asset_id,
            chain_id: post.chain_id,
            message: post.message,
            image: post.image,
            user_id: post.user_id,
            user_name: owner.user_name,
            full_name: owner.full_name,
            avatar: owner.avatar,
            respondee_post_id: self.respondee_of(post_id),
        }
    }

    /// The post `post_id` joined to its owner and, where it responds to a
    /// post, to that post and its owner; without one, no sharee field is
    /// filled.
    pub open spec fn post_with_profile_and_sharee(self, post_id: i64) -> PostWithProfileAndShareeQueryResultView
        recommends
            self.wf(),
            self.has_post(post_id),
    {
        let post = self.post(post_id);
        let owner = self.profile(post.user_id);
        match self.respondee_of(post_id) {
            Some(sharee_id) => {
                let sharee = self.post(sharee_id);
                let sharee_owner = self.profile(sharee.user_id);
                PostWithProfileAndShareeQueryResultView {
                    id: post.id,
                    updated_at: post.updated_at,
                    chain_asset_id: post.chain_asset_id,
                    chain_id: post.chain_id,
                    message: post.message,
                    image: post.image,
                    user_id: post.user_id,
                    user_name: owner.user_name,
                    full_name: owner.full_name,
                    avatar: owner.avatar,
                    sharee_post_id: Some(sharee.id),
                    sharee_post_updated_at: Some(sharee.updated_at),
                    sharee_post_chain_asset_id: Some(sharee.chain_asset_id),
                    sharee_post_chain_id: Some(sharee.chain_id),
                    sharee_post_message: sharee.message,
                    sharee_post_image: sharee.image,
                    sharee_post_user_id: Some(sharee.user_id),
                    sharee_post_user_name: Some(sharee_owner.user_name),
                    sharee_post_full_name: Some(sharee_owner.full_name),
                    sharee_post_avatar: sharee_owner.avatar,
                }
            },
            None => PostWithProfileAndShareeQueryResultView {
                id: post.id,
                updated_at: post.updated_at,
                chain_asset_id: post.chain_asset_id,
                chain_id: post.chain_id,
                message: post.message,
                image: post.image,
                user_id: post.user_id,
                user_name: owner.user_name,
                full_name: owner.full_name,
                avatar: owner.avatar,
                sharee_post_id: None,
                sharee_post_updated_at: None,
                sharee_post_chain_asset_id: None,
                sharee_post_chain_id: None,
                sharee_post_message: None,
                sharee_post_image: None,
                sharee_post_user_id: None,
                sharee_post_user_name: None,
                sharee_post_full_name: None,
                sharee_post_avatar: None,
            },
        }
    }

    /// The post at position `i` is the first, in insertion order, that the
    /// criteria ask for.
    pub open spec fn is_first_selected(self, c: PostCriteriaView, i: int) -> bool {
        &&& 0 <= i < self.posts.len()
        &&& selects(c, self.posts[i])
        &&& forall|k: int| 0 <= k < i ==> !selects(c, #[trigger] self.posts[k])
    }

    /// Identifier of the first post, in insertion order, that the criteria
    /// ask for.
    pub open spec fn first_selected(self, c: PostCriteriaView) -> Option<i64> {
        if exists|i: int| self.is_first_selected(c, i) {
            Some(self.posts[choose|i: int| self.is_first_selected(c, i)].id)
        } else {
            None
        }
    }

    /// Single-row read of a post with its owner.
    pub open spec fn query_post_with_profile(self, c: PostCriteriaView) -> Option<
        PostWithProfileQueryResultView,
    > {
        match self.first_selected(c) {
            Some(id) => Some(self.post_with_profile(id)),
            None => None,
        }
    }

    /// The join of a post of this store to its owner.
    pub open spec fn joiner(self) -> spec_fn(PostRowView) -> PostWithProfileQueryResultView {
        |p: PostRowView| self.post_with_profile(p.id)
    }

    /// List read: every post that the criteria ask for, in insertion order,
    /// each joined to its owner.
    pub open spec fn query_posts_with_profile(self, c: PostCriteriaView) -> Seq<PostWithProfileQueryResultView> {
        self.posts.filter(selector(c)).map_values(self.joiner())
    }

    /// Single-row read of a post with its owner and its sharee.
    pub open spec fn query_post_with_profile_and_sharee(self, c: PostCriteriaView) -> Option<
        PostWithProfileAndShareeQueryResultView,
    > {
        match self.first_selected(c) {
            Some(id) => Some(self.post_with_profile_and_sharee(id)),
            None => None,
        }
    }
}

} // verus!
