use vstd::prelude::*;

verus! {

/// Mathematical value of a [`ProfileCreate`].
pub struct ProfileCreateView {
    pub chain_asset_id: Seq<char>,
    pub chain_id: i64,
    pub user_name: Seq<char>,
    pub full_name: Seq<char>,
    pub description: Seq<char>,
    pub main_url: Option<Seq<char>>,
    pub avatar: Option<Seq<u8>>,
}

/// Everything a caller supplies to create a profile.
#[derive(Debug, Clone)]
pub struct ProfileCreate {
    pub chain_asset_id: String,
    pub chain_id: i64,
    pub user_name: String,
    pub full_name: String,
    pub description: String,
    pub main_url: Option<String>,
    pub avatar: Option<Vec<u8>>,
}

impl View for ProfileCreate {
    type V = ProfileCreateView;

    open spec fn view(&self) -> ProfileCreateView {
        ProfileCreateView {
            chain_asset_id: self.chain_asset_id@,
            chain_id: self.chain_id,
            user_name: self.user_name@,
            full_name: self.full_name@,
            description: self.description@,
            main_url: self.main_url.deep_view(),
            avatar: self.avatar.deep_view(),
        }
    }
}

/// Mathematical value of a [`ProfileUpdate`].
pub struct ProfileUpdateView {
    pub full_name: Seq<char>,
    pub description: Seq<char>,
    pub main_url: Option<Seq<char>>,
    pub avatar: Option<Seq<u8>>,
}

/// The mutable part of a profile; an update replaces all four fields.
#[derive(Debug, Clone)]
pub struct ProfileUpdate {
    pub full_name: String,
    pub description: String,
    pub main_url: Option<String>,
    pub avatar: Option<Vec<u8>>,
}

impl View for ProfileUpdate {
    type V = ProfileUpdateView;

    open spec fn view(&self) -> ProfileUpdateView {
        ProfileUpdateView {
            full_name: self.full_name@,
            description: self.description@,
            main_url: self.main_url.deep_view(),
            avatar: self.avatar.deep_view(),
        }
    }
}

/// Mathematical value of a [`ProfileQueryResult`].
pub struct ProfileQueryResultView {
    pub id: i64,
    pub updated_at: i64,
    pub chain_asset_id: Seq<char>,
    pub chain_id: i64,
    pub user_name: Seq<char>,
    pub full_name: Seq<char>,
    pub description: Seq<char>,
    pub main_url: Option<Seq<char>>,
    pub avatar: Option<Seq<u8>>,
}

/// A profile as a lookup returns it. `updated_at` counts microseconds since
/// the Unix epoch, UTC.
#[derive(Debug, Clone)]
pub struct ProfileQueryResult {
    pub id: i64,
    pub updated_at: i64,
    pub chain_asset_id: String,
    pub chain_id: i64,
    pub user_name: String,
    pub full_name: String,
    pub description: String,
    pub main_url: Option<String>,
    pub avatar: Option<Vec<u8>>,
}

impl View for ProfileQueryResult {
    type V = ProfileQueryResultView;

    open spec fn view(&self) -> ProfileQueryResultView {
        ProfileQueryResultView {
            id: self.id,
            updated_at: self.updated_at,
            chain_asset_id: self.chain_asset_id@,
            chain_id: self.chain_id,
            user_name: self.user_name@,
            full_name: self.full_name@,
            description: self.description@,
            main_url: self.main_url.deep_view(),
            avatar: self.avatar.deep_view(),
        }
    }
}

} // verus!
