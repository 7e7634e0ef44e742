use vstd::prelude::*;

verus! {

/// Mathematical value of a [`PostWithProfileQueryResult`].
pub struct PostWithProfileQueryResultView {
    pub id: i64,
    pub updated_at: i64,
    pub chain_asset_id: Seq<char>,
    pub chain_id: i64,
    pub message: Option<Seq<char>>,
    pub image: Option<Seq<u8>>,
    pub user_id: i64,
    pub user_name: Seq<char>,
    pub full_name: Seq<char>,
    pub avatar: Option<Seq<u8>>,
    pub respondee_post_id: Option<i64>,
}

/// A post joined to the profile that owns it. `respondee_post_id` is the
/// post it responds to, absent for a standalone post. `updated_at` counts
/// microseconds since the Unix epoch, UTC.
#[derive(Debug, Clone)]
pub struct PostWithProfileQueryResult {
    pub id: i64,
    pub updated_at: i64,
    pub chain_asset_id: String,
    pub chain_id: i64,
    pub message: Option<String>,
    pub image: Option<Vec<u8>>,
    pub user_id: i64,
    pub user_name: String,
    pub full_name: String,
    pub avatar: Option<Vec<u8>>,
    pub respondee_post_id: Option<i64>,
}

impl View for PostWithProfileQueryResult {
    type V = PostWithProfileQueryResultView;

    open spec fn view(&self) -> PostWithProfileQueryResultView {
        PostWithProfileQueryResultView {
            id: self.id,
            updated_at: self.updated_at,
            chain_asset_id: self.chain_asset_id@,
            chain_id: self.chain_id,
            message: self.message.deep_view(),
            image: self.image.deep_view(),
            user_id: self.user_id,
            user_name: self.user_name@,
            full_name: self.full_name@,
            avatar: self.avatar.deep_view(),
            respondee_post_id: self.respondee_post_id,
        }
    }
}

/// The mathematical values of the results of a list read.
pub open spec fn post_views(posts: Seq<PostWithProfileQueryResult>) -> Seq<PostWithProfileQueryResultView> {
    posts.map_values(|p: PostWithProfileQueryResult| p@)
}

/// Mathematical value of a [`PostWithProfileAndShareeQueryResult`].
pub struct PostWithProfileAndShareeQueryResultView {
    pub id: i64,
    pub updated_at: i64,
    pub chain_asset_id: Seq<char>,
    pub chain_id: i64,
    pub message: Option<Seq<char>>,
    pub image: Option<Seq<u8>>,
    pub user_id: i64,
    pub user_name: Seq<char>,
    pub full_name: Seq<char>,
    pub avatar: Option<Seq<u8>>,
    pub sharee_post_id: Option<i64>,
    pub sharee_post_updated_at: Option<i64>,
    pub sharee_post_chain_asset_id: Option<Seq<char>>,
    pub sharee_post_chain_id: Option<i64>,
    pub sharee_post_message: Option<Seq<char>>,
    pub sharee_post_image: Option<Seq<u8>>,
    pub sharee_post_user_id: Option<i64>,
    pub sharee_post_user_name: Option<Seq<char>>,
    pub sharee_post_full_name: Option<Seq<char>>,
    pub sharee_post_avatar: Option<Seq<u8>>,
}

impl PostWithProfileAndShareeQueryResultView {
    /// The sharee fields stand or fall together: with a respondee, every
    /// field that the respondee's row always fills is present; without one,
    /// every sharee field is absent.
    pub open spec fn sharee_all_or_nothing(self) -> bool {
        if self.sharee_post_id is Some {
            &&& self.sharee_post_updated_at is Some
            &&& self.sharee_post_chain_asset_id is Some
            &&& self.sharee_post_chain_id is Some
            &&& self.sharee_post_user_id is Some
            &&& self.sharee_post_user_name is Some
            &&& self.sharee_post_full_name is Some
        } else {
            &&& self.sharee_post_updated_at is None
            &&& self.sharee_post_chain_asset_id is None
            &&& self.sharee_post_chain_id is None
            &&& self.sharee_post_message is None
            &&& self.sharee_post_image is None
            &&& self.sharee_post_user_id is None
            &&& self.sharee_post_user_name is None
            &&& self.sharee_post_full_name is None
            &&& self.sharee_post_avatar is None
        }
    }
}

/// A post joined to its owner and, where it responds to another post, to
/// that post and the owner of that post (the sharee).
#[derive(Debug, Clone)]
pub struct PostWithProfileAndShareeQueryResult {
    pub id: i64,
    pub updated_at: i64,
    pub chain_asset_id: String,
    pub chain_id: i64,
    pub message: Option<String>,
    pub image: Option<Vec<u8>>,
    pub user_id: i64,
    pub user_name: String,
    pub full_name: String,
    pub avatar: Option<Vec<u8>>,
    pub sharee_post_id: Option<i64>,
    pub sharee_post_updated_at: Option<i64>,
    pub sharee_post_chain_asset_id: Option<String>,
    pub sharee_post_chain_id: Option<i64>,
    pub sharee_post_message: Option<String>,
    pub sharee_post_image: Option<Vec<u8>>,
    pub sharee_post_user_id: Option<i64>,
    pub sharee_post_user_name: Option<String>,
    pub sharee_post_full_name: Option<String>,
    pub sharee_post_avatar: Option<Vec<u8>>,
}

impl View for PostWithProfileAndShareeQueryResult {
    type V = PostWithProfileAndShareeQueryResultView;

    open spec fn view(&self) -> PostWithProfileAndShareeQueryResultView {
        PostWithProfileAndShareeQueryResultView {
            id: self.id,
            updated_at: self.updated_at,
            chain_asset_id: self.chain_asset_id@,
            chain_id: self.chain_id,
            message: self.message.deep_view(),
            image: self.image.deep_view(),
            user_id: self.user_id,
            user_name: self.user_name@,
            full_name: self.full_name@,
            avatar: self.avatar.deep_view(),
            sharee_post_id: self.sharee_post_id,
            sharee_post_updated_at: self.sharee_post_updated_at,
            sharee_post_chain_asset_id: self.sharee_post_chain_asset_id.deep_view(),
            sharee_post_chain_id: self.sharee_post_chain_id,
            sharee_post_message: self.sharee_post_message.deep_view(),
            sharee_post_image: self.sharee_post_image.deep_view(),
            sharee_post_user_id: self.sharee_post_user_id,
            sharee_post_user_name: self.sharee_post_user_name.deep_view(),
            sharee_post_full_name: self.sharee_post_full_name.deep_view(),
            sharee_post_avatar: self.sharee_post_avatar.deep_view(),
        }
    }
}

/// Mathematical value of a [`PostCriteria`].
pub enum PostCriteriaView {
    Id(i64),
    MessageAndUser { message: Seq<char>, user_id: i64 },
    User(i64),
}

/// What a post query looks for.
#[derive(Debug, Clone)]
pub enum PostCriteria {
    /// The post with this identifier.
    Id(i64),
    /// A post of this profile that carries exactly this message.
    MessageAndUser { message: String, user_id: i64 },
    /// A post of this profile.
    User(i64),
}

impl View for PostCriteria {
    type V = PostCriteriaView;

    open spec fn view(&self) -> PostCriteriaView {
        match self {
            PostCriteria::Id(id) => PostCriteriaView::Id(*id),
            PostCriteria::MessageAndUser { message, user_id } => PostCriteriaView::MessageAndUser {
                message: message@,
                user_id: *user_id,
            },
            PostCriteria::User(user_id) => PostCriteriaView::User(*user_id),
        }
    }
}

} // verus!
