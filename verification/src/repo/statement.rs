//! The statements that the repository sends to a relational store that
//! speaks SQL: the text with its numbered placeholders and the values bound
//! to them, in order. A driver sends them as they are.

use vstd::prelude::*;
use vstd::string::StringExecFns;
use crate::repo::post::model::{PostCriteria, PostCriteriaView};
use crate::repo::profile::model::{ProfileCreate, ProfileUpdate};

verus! {

/// Mathematical value of a [`SqlValue`].
pub enum SqlValueView {
    BigInt(i64),
    Text(Seq<char>),
    NullableText(Option<Seq<char>>),
    NullableBytes(Option<Seq<u8>>),
}

/// A value bound to a placeholder.
#[derive(Debug, Clone)]
pub enum SqlValue {
    BigInt(i64),
    Text(String),
    NullableText(Option<String>),
    NullableBytes(Option<Vec<u8>>),
}

impl View for SqlValue {
    type V = SqlValueView;

    open spec fn view(&self) -> SqlValueView {
        match self {
            SqlValue::BigInt(n) => SqlValueView::BigInt(*n),
            SqlValue::Text(s) => SqlValueView::Text(s@),
            SqlValue::NullableText(s) => SqlValueView::NullableText(s.deep_view()),
            SqlValue::NullableBytes(b) => SqlValueView::NullableBytes(b.deep_view()),
        }
    }
}

/// Mathematical value of a [`Statement`].
pub struct StatementView {
    pub sql: Seq<char>,
    pub binds: Seq<SqlValueView>,
}

/// A statement: its text and the values for `$1`, `$2`, ... in that order.
#[derive(Debug, Clone)]
pub struct Statement {
    pub sql: String,
    pub binds: Vec<SqlValue>,
}

impl View for Statement {
    type V = StatementView;

    open spec fn view(&self) -> StatementView {
        StatementView { sql: self.sql@, binds: self.binds@.map_values(|b: SqlValue| b@) }
    }
}

pub const INSERT_PROFILE: &'static str =
    "insert into profile (chain_asset_id, chain_id, user_name, full_name, description, main_url, avatar) values ($1, $2, $3, $4, $5, $6, $7) returning id";

pub const UPDATE_PROFILE: &'static str =
    "update profile set full_name = $1, description = $2, main_url = $3, avatar = $4 where id = $5";

pub const SELECT_PROFILE_BY_USER_NAME: &'static str = "select * from profile where user_name = $1";

pub const INSERT_POST: &'static str =
    "insert into post (chain_asset_id, chain_id, user_id, message) values ($1, $2, $3, $4) returning id";

pub const INSERT_POST_RESPONSE: &'static str =
    "insert into post_response (respondee_post_id, responder_post_id) values ($1, $2) returning id";

pub const SELECT_POST_WITH_PROFILE: &'static str =
    "select pt.id, pt.updated_at, pt.chain_asset_id, pt.chain_id, pt.message, pt.image, pt.user_id, pe.user_name, pe.full_name, pe.avatar, pr.respondee_post_id from post pt join profile pe on pt.user_id = pe.id left join post_response pr on pt.id = pr.responder_post_id";

pub const SELECT_POST_WITH_PROFILE_AND_SHAREE: &'static str =
    "select pt.id, pt.updated_at, pt.chain_asset_id, pt.chain_id, pt.message, pt.image, pt.user_id, pe.user_name, pe.full_name, pe.avatar, sp.id as sharee_post_id, sp.updated_at as sharee_post_updated_at, sp.chain_asset_id as sharee_post_chain_asset_id, sp.chain_id as sharee_post_chain_id, sp.message as sharee_post_message, sp.image as sharee_post_image, sp.user_id as sharee_post_user_id, se.user_name as sharee_post_user_name, se.full_name as sharee_post_full_name, se.avatar as sharee_post_avatar from post pt join profile pe on pt.user_id = pe.id left join post_response pr on pt.id = pr.responder_post_id left join post sp on pr.respondee_post_id = sp.id left join profile se on sp.user_id = se.id";

pub const WHERE_POST_ID: &'static str = " where pt.id = $1";

pub const WHERE_POST_MESSAGE_AND_USER: &'static str = " where pt.message = $1 and pt.user_id = $2";

pub const WHERE_POST_USER: &'static str = " where pt.user_id = $1";

pub const IN_INSERTION_ORDER: &'static str = " order by pt.id";

pub const FIRST_ONLY: &'static str = " limit 1";

/// The condition that stands for the criteria.
pub open spec fn where_clause(c: PostCriteriaView) -> Seq<char> {
    match c {
        PostCriteriaView::Id(_) => WHERE_POST_ID@,
        PostCriteriaView::MessageAndUser { .. } => WHERE_POST_MESSAGE_AND_USER@,
        PostCriteriaView::User(_) => WHERE_POST_USER@,
    }
}

/// The values that the condition of the criteria takes.
pub open spec fn where_binds(c: PostCriteriaView) -> Seq<SqlValueView> {
    match c {
        PostCriteriaView::Id(id) => seq![SqlValueView::BigInt(id)],
        PostCriteriaView::MessageAndUser { message, user_id } => seq![
            SqlValueView::Text(message),
            SqlValueView::BigInt(user_id),
        ],
        PostCriteriaView::User(user_id) => seq![SqlValueView::BigInt(user_id)],
    }
}

/// The statement that inserts a profile and returns its identifier.
pub fn insert_profile_statement(params: ProfileCreate) -> (st: Statement)
    ensures
        st@.sql == INSERT_PROFILE@,
        st@.binds == seq![
            SqlValueView::Text(params@.chain_asset_id),
            SqlValueView::BigInt(params@.chain_id),
            SqlValueView::Text(params@.user_name),
            SqlValueView::Text(params@.full_name),
            SqlValueView::Text(params@.description),
            SqlValueView::NullableText(params@.main_url),
            SqlValueView::NullableBytes(params@.avatar),
        ],
{
    let mut binds: Vec<SqlValue> = Vec::new();
    binds.push(SqlValue::Text(params.chain_asset_id));
    binds.push(SqlValue::BigInt(params.chain_id));
    binds.push(SqlValue::Text(params.user_name));
    binds.push(SqlValue::Text(params.full_name));
    binds.push(SqlValue::Text(params.description));
    binds.push(SqlValue::NullableText(params.main_url));
    binds.push(SqlValue::NullableBytes(params.avatar));
    let st = Statement { sql: String::from_str(INSERT_PROFILE), binds };
    assert(st@.binds =~= seq![
        SqlValueView::Text(params@.chain_asset_id),
        SqlValueView::BigInt(params@.chain_id),
        SqlValueView::Text(params@.user_name),
        SqlValueView::Text(params@.full_name),
        SqlValueView::Text(params@.description),
        SqlValueView::NullableText(params@.main_url),
        SqlValueView::NullableBytes(params@.avatar),
    ]);
    st
}

/// The statement that replaces the four mutable fields of the profile
/// `user_id`.
pub fn update_profile_statement(user_id: i64, params: ProfileUpdate) -> (st: Statement)
    ensures
        st@.sql == UPDATE_PROFILE@,
        st@.binds == seq![
            SqlValueView::Text(params@.full_name),
            SqlValueView::Text(params@.description),
            SqlValueView::NullableText(params@.main_url),
            SqlValueView::NullableBytes(params@.avatar),
            SqlValueView::BigInt(user_id),
        ],
{
    let mut binds: Vec<SqlValue> = Vec::new();
    binds.push(SqlValue::Text(params.full_name));
    binds.push(SqlValue::Text(params.description));
    binds.push(SqlValue::NullableText(params.main_url));
    binds.push(SqlValue::NullableBytes(params.avatar));
    binds.push(SqlValue::BigInt(user_id));
    let st = Statement { sql: String::from_str(UPDATE_PROFILE), binds };
    assert(st@.binds =~= seq![
        SqlValueView::Text(params@.full_name),
        SqlValueView::Text(params@.description),
        SqlValueView::NullableText(params@.main_url),
        SqlValueView::NullableBytes(params@.avatar),
        SqlValueView::BigInt(user_id),
    ]);
    st
}

/// The statement that selects the profile with exactly this user name.
pub fn select_profile_by_user_name_statement(user_name: &str) -> (st: Statement)
    ensures
        st@.sql == SELECT_PROFILE_BY_USER_NAME@,
        st@.binds == seq![SqlValueView::Text(user_name@)],
{
    let mut binds: Vec<SqlValue> = Vec::new();
    binds.push(SqlValue::Text(user_name.to_owned()));
    let st = Statement { sql: String::from_str(SELECT_PROFILE_BY_USER_NAME), binds };
    assert(st@.binds =~= seq![SqlValueView::Text(user_name@)]);
    st
}

/// The statement that inserts a post and returns its identifier.
pub fn insert_post_statement(chain_asset_id: &str, chain_id: i64, user_id: i64, message: &str) -> (st: Statement)
    ensures
        st@.sql == INSERT_POST@,
        st@.binds == seq![
            SqlValueView::Text(chain_asset_id@),
            SqlValueView::BigInt(chain_id),
            SqlValueView::BigInt(user_id),
            SqlValueView::Text(message@),
        ],
{
    let mut binds: Vec<SqlValue> = Vec::new();
    binds.push(SqlValue::Text(chain_asset_id.to_owned()));
    binds.push(SqlValue::BigInt(chain_id));
    binds.push(SqlValue::BigInt(user_id));
    binds.push(SqlValue::Text(message.to_owned()));
    let st = Statement { sql: String::from_str(INSERT_POST), binds };
    assert(st@.binds =~= seq![
        SqlValueView::Text(chain_asset_id@),
        SqlValueView::BigInt(chain_id),
        SqlValueView::BigInt(user_id),
        SqlValueView::Text(message@),
    ]);
    st
}

/// The statement that links the post `responder_post_id` as a response to
/// the post `respondee_post_id`.
pub fn insert_post_response_statement(respondee_post_id: i64, responder_post_id: i64) -> (st: Statement)
    ensures
        st@.sql == INSERT_POST_RESPONSE@,
        st@.binds == seq![SqlValueView::BigInt(respondee_post_id), SqlValueView::BigInt(responder_post_id)],
{
    let mut binds: Vec<SqlValue> = Vec::new();
    binds.push(SqlValue::BigInt(respondee_post_id));
    binds.push(SqlValue::BigInt(responder_post_id));
    let st = Statement { sql: String::from_str(INSERT_POST_RESPONSE), binds };
    assert(st@.binds =~= seq![
        SqlValueView::BigInt(respondee_post_id),
        SqlValueView::BigInt(responder_post_id),
    ]);
    st
}

/// The values bound to the condition of the criteria.
fn criteria_binds(criteria: &PostCriteria) -> (binds: Vec<SqlValue>)
    ensures
        binds@.map_values(|b: SqlValue| b@) == where_binds(criteria@),
{
    let mut binds: Vec<SqlValue> = Vec::new();
    match criteria {
        PostCriteria::Id(id) => {
            binds.push(SqlValue::BigInt(*id));
        },
        PostCriteria::MessageAndUser { message, user_id } => {
            binds.push(SqlValue::Text(message.clone()));
            binds.push(SqlValue::BigInt(*user_id));
        },
        PostCriteria::User(user_id) => {
            binds.push(SqlValue::BigInt(*user_id));
        },
    }
    assert(binds@.map_values(|b: SqlValue| b@) =~= where_binds(criteria@));
    binds
}

/// A select over posts, narrowed by the criteria, in insertion order, cut
/// to its first row where `first_only` says so.
fn select_posts(select: &str, criteria: &PostCriteria, first_only: bool) -> (st: Statement)
    ensures
        st@.sql == select@ + where_clause(criteria@) + IN_INSERTION_ORDER@ + (if first_only {
            FIRST_ONLY@
        } else {
            Seq::empty()
        }),
        st@.binds == where_binds(criteria@),
{
    let mut sql = String::from_str(select);
    match criteria {
        PostCriteria::Id(_) => sql.append(WHERE_POST_ID),
        PostCriteria::MessageAndUser { .. } => sql.append(WHERE_POST_MESSAGE_AND_USER),
        PostCriteria::User(_) => sql.append(WHERE_POST_USER),
    }
    sql.append(IN_INSERTION_ORDER);
    if first_only {
        sql.append(FIRST_ONLY);
    } else {
        assert(sql@ =~= sql@ + Seq::<char>::empty());
    }
    Statement { sql, binds: criteria_binds(criteria) }
}

/// The statement that selects the first post, in insertion order, that the
/// criteria ask for, joined to its owner and to its response link.
pub fn select_post_with_profile_statement(criteria: &PostCriteria) -> (st: Statement)
    ensures
        st@.sql == SELECT_POST_WITH_PROFILE@ + where_clause(criteria@) + IN_INSERTION_ORDER@ + FIRST_ONLY@,
        st@.binds == where_binds(criteria@),
{
    select_posts(SELECT_POST_WITH_PROFILE, criteria, true)
}

/// The statement that selects every post that the criteria ask for, in
/// insertion order, each joined to its owner and to its response link.
pub fn select_posts_with_profile_statement(criteria: &PostCriteria) -> (st: Statement)
    ensures
        st@.sql == SELECT_POST_WITH_PROFILE@ + where_clause(criteria@) + IN_INSERTION_ORDER@,
        st@.binds == where_binds(criteria@),
{
    let st = select_posts(SELECT_POST_WITH_PROFILE, criteria, false);
    assert(st@.sql =~= SELECT_POST_WITH_PROFILE@ + where_clause(criteria@) + IN_INSERTION_ORDER@);
    st
}

/// The statement that selects the first post, in insertion order, that the
/// criteria ask for, joined to its owner, to its response link and through
/// it to the respondee and the respondee's owner.
pub fn select_post_with_profile_and_sharee_statement(criteria: &PostCriteria) -> (st: Statement)
    ensures
        st@.sql == SELECT_POST_WITH_PROFILE_AND_SHAREE@ + where_clause(criteria@) + IN_INSERTION_ORDER@
            + FIRST_ONLY@,
        st@.binds == where_binds(criteria@),
{
    select_posts(SELECT_POST_WITH_PROFILE_AND_SHAREE, criteria, true)
}

} // verus!
