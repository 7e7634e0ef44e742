use repository::repo::base::{DbConnGetter, DbRepo, EntityId, StoreError, StoreHandle};
use repository::repo::database::Database;
use repository::repo::post::model::PostCriteria;
use repository::repo::post::post::{
    insert_response_post_inner, insert_standalone_post_inner, query_post_with_profile_and_sharee_inner,
    query_post_with_profile_inner, query_posts_with_profile_inner, InsertPostFn, InsertResponsePostFn,
    QueryPostWithProfileAndShareeFn, QueryPostWithProfileFn, QueryPostsWithProfileFn,
};
use repository::repo::profile::model::ProfileCreate;
use repository::repo::profile::profile::{insert_profile_inner, update_profile_inner, InsertProfileFn};
use repository::repo::profile::model::ProfileUpdate;
use repository::test_helpers::fixtures::SUI_CHAIN_ID;

const PREFIX: &str = "TestPost";

struct Fixtures {
    responder_post_id: i64,
    respondee_post_id: i64,
    profile_id: i64,
    db_repo: DbRepo,
}

fn get_test_profile_create() -> ProfileCreate {
    ProfileCreate {
        chain_asset_id: "chain_id123".to_string(),
        chain_id: SUI_CHAIN_ID,
        user_name: format!("{}{}", PREFIX, "johnson"),
        full_name: format!("{}{} {}", PREFIX, "Ann", "Lee"),
        description: format!("{} a description", PREFIX),
        main_url: Some("http://whatever.com".to_string()),
        avatar: None,
    }
}

/// A repository that holds one profile, a post of it and a response to
/// that post.
fn fixtures() -> Fixtures {
    let mut db_repo = DbRepo::init();
    let profile_id = db_repo.insert_profile(get_test_profile_create()).unwrap();
    let respondee_post_id = db_repo
        .insert_standalone_post(
            format!("{}chain_id", PREFIX).as_str(),
            SUI_CHAIN_ID,
            profile_id,
            format!("{}Respondee message 123", PREFIX).as_str(),
        )
        .unwrap();
    let responder_post_id = db_repo
        .insert_response_post(
            format!("{}chain_id", PREFIX).as_str(),
            SUI_CHAIN_ID,
            profile_id,
            format!("{}Responder message 123", PREFIX).as_str(),
            respondee_post_id.id,
        )
        .unwrap();
    Fixtures {
        responder_post_id: responder_post_id.id,
        respondee_post_id: respondee_post_id.id,
        profile_id,
        db_repo,
    }
}

/// A stand-in for the insert capability that hands out the fixture's
/// profile.
struct FixedInsertProfile {
    profile_id: i64,
}

impl StoreHandle for FixedInsertProfile {}

impl InsertProfileFn for FixedInsertProfile {
    fn insert_profile(&mut self, _params: ProfileCreate) -> Result<i64, StoreError> {
        Ok(self.profile_id)
    }
}

fn dummy_profile() -> ProfileCreate {
    ProfileCreate {
        chain_asset_id: "dummy".to_string(),
        chain_id: SUI_CHAIN_ID,
        user_name: "dummy".to_string(),
        full_name: "dummy".to_string(),
        description: "dummy".to_string(),
        main_url: Some("dummy".to_string()),
        avatar: Some(vec![]),
    }
}

#[test]
fn test_insert_post() {
    let mut fixtures = fixtures();

    let mut mock_insert_profile = FixedInsertProfile { profile_id: fixtures.profile_id };
    let profile_id = mock_insert_profile.insert_profile(dummy_profile()).unwrap();

    let respondee_post_id = fixtures
        .db_repo
        .insert_standalone_post(
            format!("{}chain_id", PREFIX).as_str(),
            SUI_CHAIN_ID,
            profile_id,
            format!("{}test_insert_post", PREFIX).as_str(),
        )
        .unwrap();

    assert!(respondee_post_id.id > 0);
}

#[test]
fn test_insert_response_post() {
    let mut fixtures = fixtures();

    let mut mock_insert_profile = FixedInsertProfile { profile_id: fixtures.profile_id };
    let profile_id = mock_insert_profile.insert_profile(dummy_profile()).unwrap();

    let responder_post_id = fixtures
        .db_repo
        .insert_response_post(
            format!("{}chain_id", PREFIX).as_str(),
            SUI_CHAIN_ID,
            profile_id,
            format!("{}test_insert_response_post", PREFIX).as_str(),
            fixtures.respondee_post_id,
        )
        .unwrap();

    assert!(responder_post_id.id > 0);
}

#[test]
fn fixture_posts_are_found_by_message_and_user() {
    let fixtures = fixtures();
    let respondee = fixtures
        .db_repo
        .query_post_with_profile(&PostCriteria::MessageAndUser {
            message: format!("{}Respondee message 123", PREFIX),
            user_id: fixtures.profile_id,
        })
        .unwrap()
        .unwrap();
    assert_eq!(respondee.id, fixtures.respondee_post_id);
    assert_eq!(respondee.respondee_post_id, None);
    let responder = fixtures
        .db_repo
        .query_post_with_profile(&PostCriteria::MessageAndUser {
            message: format!("{}Responder message 123", PREFIX),
            user_id: fixtures.profile_id,
        })
        .unwrap()
        .unwrap();
    assert_eq!(responder.id, fixtures.responder_post_id);
    assert_eq!(responder.respondee_post_id, Some(fixtures.respondee_post_id));
}

fn store_with_profile() -> (Database, i64) {
    let mut db = Database::new();
    let n = insert_profile_inner(
        &mut db,
        ProfileCreate {
            chain_asset_id: "asset".to_string(),
            chain_id: SUI_CHAIN_ID,
            user_name: "johnson".to_string(),
            full_name: "A B".to_string(),
            description: "d".to_string(),
            main_url: None,
            avatar: Some(vec![0xFF, 0xD8, 0xFF, 0xD9]),
        },
    )
    .unwrap();
    (db, n)
}

#[test]
fn response_is_read_back_with_its_respondee() {
    let (mut db, n) = store_with_profile();
    let p = insert_standalone_post_inner(&mut db, "asset-p", SUI_CHAIN_ID, n, "hello").unwrap();
    let r = insert_response_post_inner(&mut db, "asset-r", SUI_CHAIN_ID, n, "hi back", p.id).unwrap();
    assert_eq!(p, EntityId { id: 1 });
    assert_eq!(r, EntityId { id: 2 });
    assert_eq!(db.post_count(), 2);
    assert_eq!(db.post_response_count(), 1);

    let read = query_post_with_profile_inner(&db, &PostCriteria::Id(r.id)).unwrap().unwrap();
    assert_eq!(read.id, r.id);
    assert_eq!(read.respondee_post_id, Some(p.id));
    assert_eq!(read.message, Some("hi back".to_string()));
    assert_eq!(read.image, None);
    assert_eq!(read.chain_asset_id, "asset-r");
    assert_eq!(read.chain_id, SUI_CHAIN_ID);
    assert_eq!(read.user_id, n);
    assert_eq!(read.user_name, "johnson");
    assert_eq!(read.full_name, "A B");
    assert_eq!(read.avatar, Some(vec![0xFF, 0xD8, 0xFF, 0xD9]));

    let first = query_post_with_profile_inner(&db, &PostCriteria::Id(p.id)).unwrap().unwrap();
    assert_eq!(first.id, p.id);
    assert_eq!(first.respondee_post_id, None);
    assert_eq!(first.message, Some("hello".to_string()));
}

#[test]
fn post_of_a_missing_profile_is_refused_and_adds_no_row() {
    let (mut db, n) = store_with_profile();
    for missing in [0, -1, n + 1, i64::MAX, i64::MIN] {
        let refused = insert_standalone_post_inner(&mut db, "asset", SUI_CHAIN_ID, missing, "hello");
        assert_eq!(refused, Err(StoreError::ForeignKeyViolation));
        assert!(refused.unwrap_err().is_constraint_violation());
        assert!(!refused.unwrap_err().is_retryable());
    }
    assert_eq!(db.post_count(), 0);
    assert!(query_post_with_profile_inner(&db, &PostCriteria::Id(1)).unwrap().is_none());
}

#[test]
fn response_to_a_missing_post_leaves_no_post_behind() {
    let (mut db, n) = store_with_profile();
    let p = insert_standalone_post_inner(&mut db, "asset", SUI_CHAIN_ID, n, "hello").unwrap();
    for missing in [0, -1, p.id + 1, p.id + 2, i64::MAX, i64::MIN] {
        let refused = insert_response_post_inner(&mut db, "asset", SUI_CHAIN_ID, n, "hi back", missing);
        assert_eq!(refused, Err(StoreError::ForeignKeyViolation));
        assert_eq!(db.post_count(), 1);
        assert_eq!(db.post_response_count(), 0);
    }
    assert!(query_post_with_profile_inner(
        &db,
        &PostCriteria::MessageAndUser { message: "hi back".to_string(), user_id: n }
    )
    .unwrap()
    .is_none());
    let r = insert_response_post_inner(&mut db, "asset", SUI_CHAIN_ID, n, "hi back", p.id).unwrap();
    assert_eq!(r.id, p.id + 1);
    assert_eq!(db.post_count(), 2);
    assert_eq!(db.post_response_count(), 1);
}

#[test]
fn response_of_a_missing_profile_adds_neither_row() {
    let (mut db, n) = store_with_profile();
    let p = insert_standalone_post_inner(&mut db, "asset", SUI_CHAIN_ID, n, "hello").unwrap();
    let refused = insert_response_post_inner(&mut db, "asset", SUI_CHAIN_ID, n + 1, "hi back", p.id);
    assert_eq!(refused, Err(StoreError::ForeignKeyViolation));
    assert_eq!(db.post_count(), 1);
    assert_eq!(db.post_response_count(), 0);
}

#[test]
fn a_post_cannot_respond_to_itself() {
    let (mut db, n) = store_with_profile();
    let refused = insert_response_post_inner(&mut db, "asset", SUI_CHAIN_ID, n, "echo", 1);
    assert_eq!(refused, Err(StoreError::ForeignKeyViolation));
    assert_eq!(db.post_count(), 0);
    assert_eq!(db.post_response_count(), 0);
}

#[test]
fn responses_form_a_chain() {
    let (mut db, n) = store_with_profile();
    let a = insert_standalone_post_inner(&mut db, "asset", SUI_CHAIN_ID, n, "a").unwrap();
    let b = insert_response_post_inner(&mut db, "asset", SUI_CHAIN_ID, n, "b", a.id).unwrap();
    let c = insert_response_post_inner(&mut db, "asset", SUI_CHAIN_ID, n, "c", b.id).unwrap();
    let d = insert_response_post_inner(&mut db, "asset", SUI_CHAIN_ID, n, "d", a.id).unwrap();
    let respondee = |db: &Database, id: i64| {
        query_post_with_profile_inner(db, &PostCriteria::Id(id)).unwrap().unwrap().respondee_post_id
    };
    assert_eq!(respondee(&db, a.id), None);
    assert_eq!(respondee(&db, b.id), Some(a.id));
    assert_eq!(respondee(&db, c.id), Some(b.id));
    assert_eq!(respondee(&db, d.id), Some(a.id));
    assert_eq!(db.post_response_count(), 3);
}

#[test]
fn sharee_fields_are_filled_together() {
    let mut db = Database::new();
    db.set_clock(1_000);
    let owner = insert_profile_inner(
        &mut db,
        ProfileCreate {
            chain_asset_id: "asset-o".to_string(),
            chain_id: SUI_CHAIN_ID,
            user_name: "owner".to_string(),
            full_name: "Owner One".to_string(),
            description: "d".to_string(),
            main_url: None,
            avatar: Some(vec![7, 7]),
        },
    )
    .unwrap();
    let answerer = insert_profile_inner(
        &mut db,
        ProfileCreate {
            chain_asset_id: "asset-a".to_string(),
            chain_id: SUI_CHAIN_ID,
            user_name: "answerer".to_string(),
            full_name: "Answerer Two".to_string(),
            description: "d".to_string(),
            main_url: None,
            avatar: None,
        },
    )
    .unwrap();
    db.set_clock(2_000);
    let p = insert_standalone_post_inner(&mut db, "asset-p", 5, owner, "hello").unwrap();
    db.set_clock(3_000);
    let r = insert_response_post_inner(&mut db, "asset-r", 6, answerer, "hi back", p.id).unwrap();

    let with = query_post_with_profile_and_sharee_inner(&db, &PostCriteria::Id(r.id)).unwrap().unwrap();
    assert_eq!(with.id, r.id);
    assert_eq!(with.updated_at, 3_000);
    assert_eq!(with.chain_asset_id, "asset-r");
    assert_eq!(with.chain_id, 6);
    assert_eq!(with.message, Some("hi back".to_string()));
    assert_eq!(with.user_id, answerer);
    assert_eq!(with.user_name, "answerer");
    assert_eq!(with.full_name, "Answerer Two");
    assert_eq!(with.avatar, None);
    assert_eq!(with.sharee_post_id, Some(p.id));
    assert_eq!(with.sharee_post_updated_at, Some(2_000));
    assert_eq!(with.sharee_post_chain_asset_id, Some("asset-p".to_string()));
    assert_eq!(with.sharee_post_chain_id, Some(5));
    assert_eq!(with.sharee_post_message, Some("hello".to_string()));
    assert_eq!(with.sharee_post_image, None);
    assert_eq!(with.sharee_post_user_id, Some(owner));
    assert_eq!(with.sharee_post_user_name, Some("owner".to_string()));
    assert_eq!(with.sharee_post_full_name, Some("Owner One".to_string()));
    assert_eq!(with.sharee_post_avatar, Some(vec![7, 7]));

    let without = query_post_with_profile_and_sharee_inner(&db, &PostCriteria::Id(p.id)).unwrap().unwrap();
    assert_eq!(without.id, p.id);
    assert_eq!(without.user_name, "owner");
    assert_eq!(without.sharee_post_id, None);
    assert_eq!(without.sharee_post_updated_at, None);
    assert_eq!(without.sharee_post_chain_asset_id, None);
    assert_eq!(without.sharee_post_chain_id, None);
    assert_eq!(without.sharee_post_message, None);
    assert_eq!(without.sharee_post_image, None);
    assert_eq!(without.sharee_post_user_id, None);
    assert_eq!(without.sharee_post_user_name, None);
    assert_eq!(without.sharee_post_full_name, None);
    assert_eq!(without.sharee_post_avatar, None);

    assert!(query_post_with_profile_and_sharee_inner(&db, &PostCriteria::Id(99)).unwrap().is_none());
}

#[test]
fn a_read_returns_the_first_post_that_fits() {
    let (mut db, n) = store_with_profile();
    let other = insert_profile_inner(
        &mut db,
        ProfileCreate {
            chain_asset_id: "asset".to_string(),
            chain_id: SUI_CHAIN_ID,
            user_name: "other".to_string(),
            full_name: "O".to_string(),
            description: "d".to_string(),
            main_url: None,
            avatar: None,
        },
    )
    .unwrap();
    let by = |message: &str, user_id: i64| PostCriteria::MessageAndUser { message: message.to_string(), user_id };
    insert_standalone_post_inner(&mut db, "asset", SUI_CHAIN_ID, other, "same").unwrap();
    let first = insert_standalone_post_inner(&mut db, "asset", SUI_CHAIN_ID, n, "same").unwrap();
    insert_standalone_post_inner(&mut db, "asset", SUI_CHAIN_ID, n, "same").unwrap();
    assert_eq!(query_post_with_profile_inner(&db, &by("same", n)).unwrap().unwrap().id, first.id);
    assert_eq!(query_post_with_profile_inner(&db, &by("same", other)).unwrap().unwrap().id, 1);
    assert!(query_post_with_profile_inner(&db, &by("Same", n)).unwrap().is_none());
    assert!(query_post_with_profile_inner(&db, &by("same", 99)).unwrap().is_none());
    assert!(query_post_with_profile_inner(&db, &PostCriteria::Id(0)).unwrap().is_none());
    assert!(query_post_with_profile_inner(&db, &PostCriteria::Id(4)).unwrap().is_none());
    assert_eq!(query_post_with_profile_inner(&db, &PostCriteria::Id(3)).unwrap().unwrap().id, 3);
}

#[test]
fn a_read_shows_the_owner_as_it_is_now() {
    let (mut db, n) = store_with_profile();
    let p = insert_standalone_post_inner(&mut db, "asset", SUI_CHAIN_ID, n, "hello").unwrap();
    update_profile_inner(
        &mut db,
        n,
        ProfileUpdate {
            full_name: "C D".to_string(),
            description: "d".to_string(),
            main_url: None,
            avatar: None,
        },
    )
    .unwrap();
    let read = query_post_with_profile_inner(&db, &PostCriteria::Id(p.id)).unwrap().unwrap();
    assert_eq!(read.full_name, "C D");
    assert_eq!(read.avatar, None);
    assert_eq!(read.user_name, "johnson");
}

#[test]
fn capabilities_of_the_repository_share_one_store() {
    let mut db_repo = DbRepo::init();
    let n = db_repo.insert_profile(get_test_profile_create()).unwrap();
    let p = db_repo.insert_standalone_post("asset", SUI_CHAIN_ID, n, "hello").unwrap();
    let r = db_repo.insert_response_post("asset", SUI_CHAIN_ID, n, "hi back", p.id).unwrap();
    let read = db_repo.query_post_with_profile(&PostCriteria::Id(r.id)).unwrap().unwrap();
    assert_eq!(read.respondee_post_id, Some(p.id));
    let sharee = db_repo.query_post_with_profile_and_sharee(&PostCriteria::Id(r.id)).unwrap().unwrap();
    assert_eq!(sharee.sharee_post_id, Some(p.id));
    assert_eq!(db_repo.get_conn().post_count(), 2);
    assert_eq!(db_repo.get_conn_mut().post_response_count(), 1);
}

#[test]
fn a_list_read_keeps_insertion_order() {
    let (mut db, n) = store_with_profile();
    let other = insert_profile_inner(
        &mut db,
        ProfileCreate {
            chain_asset_id: "asset".to_string(),
            chain_id: SUI_CHAIN_ID,
            user_name: "other".to_string(),
            full_name: "O".to_string(),
            description: "d".to_string(),
            main_url: None,
            avatar: None,
        },
    )
    .unwrap();
    let a = insert_standalone_post_inner(&mut db, "asset", SUI_CHAIN_ID, n, "a").unwrap();
    let b = insert_standalone_post_inner(&mut db, "asset", SUI_CHAIN_ID, other, "b").unwrap();
    let c = insert_response_post_inner(&mut db, "asset", SUI_CHAIN_ID, n, "c", b.id).unwrap();
    let d = insert_standalone_post_inner(&mut db, "asset", SUI_CHAIN_ID, n, "a").unwrap();

    let of_n = query_posts_with_profile_inner(&db, &PostCriteria::User(n)).unwrap();
    assert_eq!(of_n.iter().map(|p| p.id).collect::<Vec<i64>>(), vec![a.id, c.id, d.id]);
    assert_eq!(
        of_n.iter().map(|p| p.respondee_post_id).collect::<Vec<Option<i64>>>(),
        vec![None, Some(b.id), None]
    );
    assert!(of_n.iter().all(|p| p.user_name == "johnson" && p.user_id == n));

    let same = query_posts_with_profile_inner(
        &db,
        &PostCriteria::MessageAndUser { message: "a".to_string(), user_id: n },
    )
    .unwrap();
    assert_eq!(same.iter().map(|p| p.id).collect::<Vec<i64>>(), vec![a.id, d.id]);

    let one = query_posts_with_profile_inner(&db, &PostCriteria::Id(b.id)).unwrap();
    assert_eq!(one.len(), 1);
    assert_eq!(one[0].user_name, "other");

    assert!(query_posts_with_profile_inner(&db, &PostCriteria::User(99)).unwrap().is_empty());
    assert!(query_posts_with_profile_inner(&db, &PostCriteria::Id(0)).unwrap().is_empty());
}

#[test]
fn a_list_read_through_the_repository() {
    let fixtures = fixtures();
    let posts = fixtures.db_repo.query_posts_with_profile(&PostCriteria::User(fixtures.profile_id)).unwrap();
    assert_eq!(
        posts.iter().map(|p| p.id).collect::<Vec<i64>>(),
        vec![fixtures.respondee_post_id, fixtures.responder_post_id]
    );
}

#[test]
fn a_single_read_by_user_returns_the_oldest_post() {
    let fixtures = fixtures();
    let first = fixtures
        .db_repo
        .query_post_with_profile(&PostCriteria::User(fixtures.profile_id))
        .unwrap()
        .unwrap();
    assert_eq!(first.id, fixtures.respondee_post_id);
}

#[test]
fn posts_run_out_of_identifiers() {
    let mut db = Database::with_max_id(2);
    let n = insert_profile_inner(&mut db, dummy_profile()).unwrap();
    let a = insert_standalone_post_inner(&mut db, "asset", SUI_CHAIN_ID, n, "a").unwrap();
    let b = insert_response_post_inner(&mut db, "asset", SUI_CHAIN_ID, n, "b", a.id).unwrap();
    assert_eq!(b.id, 2);
    assert_eq!(
        insert_standalone_post_inner(&mut db, "asset", SUI_CHAIN_ID, n, "c"),
        Err(StoreError::SequenceExhausted)
    );
    assert_eq!(
        insert_response_post_inner(&mut db, "asset", SUI_CHAIN_ID, n, "c", a.id),
        Err(StoreError::SequenceExhausted)
    );
    assert_eq!(
        insert_response_post_inner(&mut db, "asset", SUI_CHAIN_ID, n + 1, "c", a.id),
        Err(StoreError::ForeignKeyViolation)
    );
    assert_eq!(db.post_count(), 2);
    assert_eq!(db.post_response_count(), 1);
    let mut db_repo = DbRepo::with_conn(db);
    assert_eq!(
        db_repo.insert_standalone_post("asset", SUI_CHAIN_ID, n, "c"),
        Err(StoreError::SequenceExhausted)
    );
}
