use repository::repo::base::{DbConnGetter, DbRepo, StoreError, StoreHandle};
use repository::repo::database::Database;
use repository::repo::profile::model::{ProfileCreate, ProfileQueryResult, ProfileUpdate};
use repository::repo::profile::profile::{
    insert_profile_inner, query_profile_by_user_name_inner, update_profile_inner, InsertProfileFn,
    QueryProfileByUserNameFn, UpdateProfileFn,
};

const PREFIX: &str = "TestProfile";

fn profile(user_name: &str, full_name: &str) -> ProfileCreate {
    ProfileCreate {
        chain_asset_id: "chain_id123".to_string(),
        chain_id: 1,
        user_name: user_name.to_string(),
        full_name: full_name.to_string(),
        description: "a description".to_string(),
        main_url: Some("http://whatever.com".to_string()),
        avatar: None,
    }
}

/// A repository that holds the profiles of dave and jill.
fn fixtures() -> DbRepo {
    let mut db_repo = DbRepo::init();
    db_repo
        .insert_profile(ProfileCreate {
            chain_asset_id: "chain_id123".to_string(),
            chain_id: 1,
            user_name: format!("{}dave", PREFIX),
            full_name: format!("{}Dave Choi", PREFIX),
            description: format!("{}I am a chef", PREFIX),
            main_url: Some(format!("{}http://chef.com", PREFIX)),
            avatar: None,
        })
        .unwrap();
    db_repo
        .insert_profile(ProfileCreate {
            chain_asset_id: "chain_id123".to_string(),
            chain_id: 1,
            user_name: format!("{}jill", PREFIX),
            full_name: format!("{}Jill Simon", PREFIX),
            description: format!("{}I am a developer", PREFIX),
            main_url: Some(format!("{}http://dev.com", PREFIX)),
            avatar: None,
        })
        .unwrap();
    db_repo
}

fn by_id(db_repo: &DbRepo, user_name: &str, id: i64) -> ProfileQueryResult {
    let found = db_repo
        .query_profile_query_profile_by_user_name(user_name)
        .unwrap()
        .unwrap();
    assert_eq!(found.id, id);
    found
}

#[test]
fn test_insert_profile() {
    let mut db_repo = fixtures();

    let user_name = format!("{}insert_tester", PREFIX);
    let full_name = format!("{}Insert Tester", PREFIX);
    let description = format!("{}Insert Test description", PREFIX);
    let profile_id = db_repo
        .insert_profile(ProfileCreate {
            chain_asset_id: "chain_id123".to_string(),
            chain_id: 1,
            user_name: user_name.clone(),
            full_name: full_name.clone(),
            description: description.clone(),
            main_url: Some("http://whatever.com".to_string()),
            avatar: Some(vec![]),
        })
        .unwrap();

    let profile = by_id(&db_repo, &user_name, profile_id);

    assert!(profile.id > 0);
    assert!(profile.user_name == user_name);
    assert!(profile.full_name == full_name);
    assert!(profile.description == description);
}

#[test]
fn test_update_profile() {
    let mut db_repo = fixtures();
    let username_jill = format!("{}jill", PREFIX);
    let username_jill_str = username_jill.as_str();
    let profile = db_repo
        .query_profile_query_profile_by_user_name(username_jill_str)
        .unwrap()
        .unwrap();

    let full_name = format!("{}Update Tester", PREFIX);
    let description = format!("{}Update Test description", PREFIX);
    _ = db_repo.update_profile(
        profile.id,
        ProfileUpdate {
            full_name: full_name.clone(),
            description: description.clone(),
            main_url: Some("http://updater.com".to_string()),
            avatar: Some(vec![]),
        },
    );

    let profile_result = by_id(&db_repo, username_jill_str, profile.id);

    assert!(profile_result.id == profile.id);
    assert!(profile_result.full_name == full_name);
    assert!(profile_result.description == description);
}

#[test]
fn query_profile_by_user_name() {
    let db_repo = fixtures();
    let username = format!("{}jill", PREFIX);
    let username_str = username.as_str();

    let profile = db_repo
        .query_profile_query_profile_by_user_name(username_str)
        .unwrap()
        .unwrap();

    assert!(profile.user_name == username_str);
}

#[test]
fn insert_then_lookup_by_user_name() {
    let mut db = Database::new();
    let id = insert_profile_inner(&mut db, profile("johnson", "A B")).unwrap();
    assert!(id > 0);
    let found = query_profile_by_user_name_inner(&db, "johnson").unwrap().unwrap();
    assert_eq!(found.id, id);
    assert_eq!(found.full_name, "A B");
    assert_eq!(found.chain_asset_id, "chain_id123");
    assert_eq!(found.chain_id, 1);
    assert_eq!(found.description, "a description");
    assert_eq!(found.main_url, Some("http://whatever.com".to_string()));
    assert_eq!(found.avatar, None);
    assert!(query_profile_by_user_name_inner(&db, "nobody").unwrap().is_none());
}

#[test]
fn identifiers_count_up_from_one() {
    let mut db = Database::new();
    assert_eq!(insert_profile_inner(&mut db, profile("a", "A")), Ok(1));
    assert_eq!(insert_profile_inner(&mut db, profile("b", "B")), Ok(2));
    assert_eq!(insert_profile_inner(&mut db, profile("c", "C")), Ok(3));
    assert_eq!(db.profile_count(), 3);
}

#[test]
fn taken_user_name_is_refused_and_adds_no_row() {
    let mut db = Database::new();
    let first = insert_profile_inner(&mut db, profile("johnson", "A B")).unwrap();
    let second = insert_profile_inner(&mut db, profile("johnson", "Someone Else"));
    assert_eq!(second, Err(StoreError::UniqueViolation));
    assert!(second.unwrap_err().is_constraint_violation());
    assert_eq!(db.profile_count(), 1);
    let found = query_profile_by_user_name_inner(&db, "johnson").unwrap().unwrap();
    assert_eq!(found.id, first);
    assert_eq!(found.full_name, "A B");
}

#[test]
fn user_names_differ_by_case_and_space() {
    let mut db = Database::new();
    assert_eq!(insert_profile_inner(&mut db, profile("johnson", "A")), Ok(1));
    assert_eq!(insert_profile_inner(&mut db, profile("Johnson", "B")), Ok(2));
    assert_eq!(insert_profile_inner(&mut db, profile("johnson ", "C")), Ok(3));
    assert_eq!(insert_profile_inner(&mut db, profile("", "D")), Ok(4));
    assert_eq!(insert_profile_inner(&mut db, profile("", "E")), Err(StoreError::UniqueViolation));
    assert!(query_profile_by_user_name_inner(&db, "john").unwrap().is_none());
    assert_eq!(query_profile_by_user_name_inner(&db, "").unwrap().unwrap().id, 4);
}

#[test]
fn lookup_twice_gives_equal_results() {
    let db_repo = fixtures();
    let name = format!("{}dave", PREFIX);
    let first = db_repo.query_profile_query_profile_by_user_name(&name).unwrap().unwrap();
    let second = db_repo.query_profile_query_profile_by_user_name(&name).unwrap().unwrap();
    assert_eq!(first.id, second.id);
    assert_eq!(first.updated_at, second.updated_at);
    assert_eq!(first.chain_asset_id, second.chain_asset_id);
    assert_eq!(first.chain_id, second.chain_id);
    assert_eq!(first.user_name, second.user_name);
    assert_eq!(first.full_name, second.full_name);
    assert_eq!(first.description, second.description);
    assert_eq!(first.main_url, second.main_url);
    assert_eq!(first.avatar, second.avatar);
    let none_first = db_repo.query_profile_query_profile_by_user_name("nobody").unwrap();
    let none_second = db_repo.query_profile_query_profile_by_user_name("nobody").unwrap();
    assert!(none_first.is_none() && none_second.is_none());
    assert_eq!(db_repo.get_conn().profile_count(), 2);
}

#[test]
fn update_replaces_the_four_fields_and_nothing_else() {
    let mut db = Database::new();
    db.set_clock(1_700_000_000_000_000);
    let id = insert_profile_inner(
        &mut db,
        ProfileCreate {
            chain_asset_id: "asset-7".to_string(),
            chain_id: 9,
            user_name: "johnson".to_string(),
            full_name: "A B".to_string(),
            description: "before".to_string(),
            main_url: Some("http://before.com".to_string()),
            avatar: Some(vec![1, 2, 3]),
        },
    )
    .unwrap();
    let other = insert_profile_inner(&mut db, profile("other", "O")).unwrap();
    db.set_clock(1_800_000_000_000_000);
    let done = update_profile_inner(
        &mut db,
        id,
        ProfileUpdate {
            full_name: "C D".to_string(),
            description: "after".to_string(),
            main_url: None,
            avatar: None,
        },
    );
    assert_eq!(done, Ok(()));
    let found = query_profile_by_user_name_inner(&db, "johnson").unwrap().unwrap();
    assert_eq!(found.id, id);
    assert_eq!(found.user_name, "johnson");
    assert_eq!(found.chain_asset_id, "asset-7");
    assert_eq!(found.chain_id, 9);
    assert_eq!(found.updated_at, 1_700_000_000_000_000);
    assert_eq!(found.full_name, "C D");
    assert_eq!(found.description, "after");
    assert_eq!(found.main_url, None);
    assert_eq!(found.avatar, None);
    let untouched = query_profile_by_user_name_inner(&db, "other").unwrap().unwrap();
    assert_eq!(untouched.id, other);
    assert_eq!(untouched.full_name, "O");
    assert_eq!(db.profile_count(), 2);
}

#[test]
fn update_keeps_an_empty_avatar_apart_from_an_absent_one() {
    let mut db = Database::new();
    let id = insert_profile_inner(&mut db, profile("johnson", "A B")).unwrap();
    let update = |avatar: Option<Vec<u8>>| ProfileUpdate {
        full_name: "A B".to_string(),
        description: "d".to_string(),
        main_url: Some("".to_string()),
        avatar,
    };
    update_profile_inner(&mut db, id, update(Some(vec![]))).unwrap();
    let found = query_profile_by_user_name_inner(&db, "johnson").unwrap().unwrap();
    assert_eq!(found.avatar, Some(vec![]));
    assert_eq!(found.main_url, Some("".to_string()));
    update_profile_inner(&mut db, id, update(None)).unwrap();
    let found = query_profile_by_user_name_inner(&db, "johnson").unwrap().unwrap();
    assert_eq!(found.avatar, None);
}

#[test]
fn update_of_a_missing_profile_succeeds_and_changes_nothing() {
    let mut db = Database::new();
    let id = insert_profile_inner(&mut db, profile("johnson", "A B")).unwrap();
    for missing in [0, -1, id + 1, i64::MAX, i64::MIN] {
        let done = update_profile_inner(
            &mut db,
            missing,
            ProfileUpdate {
                full_name: "X".to_string(),
                description: "X".to_string(),
                main_url: None,
                avatar: None,
            },
        );
        assert_eq!(done, Ok(()));
    }
    let found = query_profile_by_user_name_inner(&db, "johnson").unwrap().unwrap();
    assert_eq!(found.full_name, "A B");
    assert_eq!(found.description, "a description");
    assert_eq!(db.profile_count(), 1);
}

#[test]
fn rows_are_stamped_with_the_clock() {
    let mut db = Database::new();
    assert_eq!(db.clock(), 0);
    db.set_clock(42);
    assert_eq!(db.clock(), 42);
    insert_profile_inner(&mut db, profile("a", "A")).unwrap();
    db.set_clock(-7);
    insert_profile_inner(&mut db, profile("b", "B")).unwrap();
    assert_eq!(query_profile_by_user_name_inner(&db, "a").unwrap().unwrap().updated_at, 42);
    assert_eq!(query_profile_by_user_name_inner(&db, "b").unwrap().unwrap().updated_at, -7);
}

/// A stand-in for the insert capability that hands out one fixed identifier.
struct FixedInsertProfile {
    profile_id: i64,
}

impl StoreHandle for FixedInsertProfile {}

impl InsertProfileFn for FixedInsertProfile {
    fn insert_profile(&mut self, _params: ProfileCreate) -> Result<i64, StoreError> {
        Ok(self.profile_id)
    }
}

#[test]
fn a_capability_can_be_replaced_by_a_stand_in() {
    let mut stand_in = FixedInsertProfile { profile_id: 77 };
    assert_eq!(stand_in.insert_profile(profile("dummy", "dummy")), Ok(77));
    assert_eq!(stand_in.insert_profile(profile("dummy", "dummy")), Ok(77));
}

#[test]
fn update_reports_the_rows_it_changed() {
    let mut db = Database::new();
    let id = insert_profile_inner(&mut db, profile("johnson", "A B")).unwrap();
    let update = || ProfileUpdate {
        full_name: "C D".to_string(),
        description: "d".to_string(),
        main_url: None,
        avatar: None,
    };
    assert_eq!(db.update_profile(id, update()), 1);
    assert_eq!(db.update_profile(id + 1, update()), 0);
    assert_eq!(db.update_profile(0, update()), 0);
    assert_eq!(db.profile_by_user_name("johnson").unwrap().full_name, "C D");
}

#[test]
fn a_new_repository_is_empty() {
    let db_repo = DbRepo::init();
    assert_eq!(db_repo.get_conn().profile_count(), 0);
    assert_eq!(db_repo.get_conn().post_count(), 0);
    assert_eq!(db_repo.get_conn().post_response_count(), 0);
    assert_eq!(db_repo.get_conn().clock(), 0);
    assert!(db_repo.query_profile_query_profile_by_user_name("johnson").unwrap().is_none());
}

#[test]
fn profiles_run_out_of_identifiers() {
    let mut db = Database::with_max_id(2);
    assert_eq!(db.max_id(), 2);
    assert_eq!(insert_profile_inner(&mut db, profile("a", "A")), Ok(1));
    assert_eq!(insert_profile_inner(&mut db, profile("b", "B")), Ok(2));
    assert_eq!(insert_profile_inner(&mut db, profile("c", "C")), Err(StoreError::SequenceExhausted));
    assert_eq!(insert_profile_inner(&mut db, profile("a", "A")), Err(StoreError::UniqueViolation));
    assert_eq!(db.profile_count(), 2);
    assert!(query_profile_by_user_name_inner(&db, "c").unwrap().is_none());
}

#[test]
fn a_store_without_identifiers_takes_no_row() {
    for max_id in [0, -1, i64::MIN] {
        let mut db = Database::with_max_id(max_id);
        assert_eq!(db.max_id(), 0);
        assert_eq!(insert_profile_inner(&mut db, profile("a", "A")), Err(StoreError::SequenceExhausted));
        assert_eq!(db.profile_count(), 0);
    }
    assert_eq!(Database::new().max_id(), i64::MAX);
}
