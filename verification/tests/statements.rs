use repository::repo::post::model::PostCriteria;
use repository::repo::profile::model::{ProfileCreate, ProfileUpdate};
use repository::repo::statement::{
    insert_post_response_statement, insert_post_statement, insert_profile_statement,
    select_post_with_profile_and_sharee_statement, select_post_with_profile_statement,
    select_posts_with_profile_statement, select_profile_by_user_name_statement, update_profile_statement,
    SqlValue, Statement,
};

fn binds(statement: &Statement) -> Vec<String> {
    statement.binds.iter().map(|value| format!("{:?}", value)).collect()
}

fn placeholders(sql: &str) -> usize {
    (1..=9).take_while(|n| sql.contains(&format!("${}", n))).count()
}

#[test]
fn insert_profile_binds_every_field_in_order() {
    let st = insert_profile_statement(ProfileCreate {
        chain_asset_id: "asset".to_string(),
        chain_id: 1,
        user_name: "johnson".to_string(),
        full_name: "A B".to_string(),
        description: "d".to_string(),
        main_url: None,
        avatar: Some(vec![1, 2]),
    });
    assert_eq!(
        st.sql,
        "insert into profile (chain_asset_id, chain_id, user_name, full_name, description, main_url, avatar) \
         values ($1, $2, $3, $4, $5, $6, $7) returning id"
    );
    assert_eq!(
        binds(&st),
        vec![
            "Text(\"asset\")",
            "BigInt(1)",
            "Text(\"johnson\")",
            "Text(\"A B\")",
            "Text(\"d\")",
            "NullableText(None)",
            "NullableBytes(Some([1, 2]))",
        ]
    );
    assert_eq!(placeholders(&st.sql), st.binds.len());
}

#[test]
fn update_profile_binds_the_identifier_last() {
    let st = update_profile_statement(
        7,
        ProfileUpdate {
            full_name: "C D".to_string(),
            description: "after".to_string(),
            main_url: Some("http://x".to_string()),
            avatar: None,
        },
    );
    assert_eq!(
        st.sql,
        "update profile set full_name = $1, description = $2, main_url = $3, avatar = $4 where id = $5"
    );
    assert_eq!(
        binds(&st),
        vec![
            "Text(\"C D\")",
            "Text(\"after\")",
            "NullableText(Some(\"http://x\"))",
            "NullableBytes(None)",
            "BigInt(7)",
        ]
    );
    assert_eq!(placeholders(&st.sql), st.binds.len());
}

#[test]
fn select_profile_binds_the_user_name() {
    let st = select_profile_by_user_name_statement("johnson");
    assert_eq!(st.sql, "select * from profile where user_name = $1");
    assert_eq!(binds(&st), vec!["Text(\"johnson\")"]);
}

#[test]
fn insert_post_binds_its_four_values() {
    let st = insert_post_statement("asset", 1, 2, "hello");
    assert_eq!(
        st.sql,
        "insert into post (chain_asset_id, chain_id, user_id, message) values ($1, $2, $3, $4) returning id"
    );
    assert_eq!(binds(&st), vec!["Text(\"asset\")", "BigInt(1)", "BigInt(2)", "Text(\"hello\")"]);
}

#[test]
fn insert_post_response_binds_respondee_then_responder() {
    let st = insert_post_response_statement(3, 9);
    assert_eq!(
        st.sql,
        "insert into post_response (respondee_post_id, responder_post_id) values ($1, $2) returning id"
    );
    assert_eq!(binds(&st), vec!["BigInt(3)", "BigInt(9)"]);
    assert!(matches!(st.binds[0], SqlValue::BigInt(3)));
}

#[test]
fn post_selects_follow_the_criteria() {
    let by_id = select_post_with_profile_statement(&PostCriteria::Id(5));
    assert!(by_id.sql.starts_with("select pt.id, pt.updated_at, pt.chain_asset_id"));
    assert!(by_id.sql.contains("pr.respondee_post_id from post pt join profile pe on pt.user_id = pe.id"));
    assert!(by_id.sql.contains("left join post_response pr on pt.id = pr.responder_post_id"));
    assert!(by_id.sql.ends_with(" where pt.id = $1 order by pt.id limit 1"));
    assert_eq!(binds(&by_id), vec!["BigInt(5)"]);

    let by_message = select_post_with_profile_statement(&PostCriteria::MessageAndUser {
        message: "hello".to_string(),
        user_id: 2,
    });
    assert!(by_message.sql.ends_with(" where pt.message = $1 and pt.user_id = $2 order by pt.id limit 1"));
    assert_eq!(binds(&by_message), vec!["Text(\"hello\")", "BigInt(2)"]);

    let list = select_posts_with_profile_statement(&PostCriteria::User(2));
    assert!(list.sql.ends_with(" where pt.user_id = $1 order by pt.id"));
    assert_eq!(binds(&list), vec!["BigInt(2)"]);
    assert_eq!(list.sql.replace(" where pt.user_id = $1", " where pt.id = $1") + " limit 1", by_id.sql);
}

#[test]
fn sharee_select_joins_two_hops() {
    let st = select_post_with_profile_and_sharee_statement(&PostCriteria::Id(5));
    for column in [
        "sp.id as sharee_post_id",
        "sp.updated_at as sharee_post_updated_at",
        "sp.chain_asset_id as sharee_post_chain_asset_id",
        "sp.chain_id as sharee_post_chain_id",
        "sp.message as sharee_post_message",
        "sp.image as sharee_post_image",
        "sp.user_id as sharee_post_user_id",
        "se.user_name as sharee_post_user_name",
        "se.full_name as sharee_post_full_name",
        "se.avatar as sharee_post_avatar",
    ] {
        assert!(st.sql.contains(column));
    }
    assert!(st.sql.contains("left join post sp on pr.respondee_post_id = sp.id"));
    assert!(st.sql.contains("left join profile se on sp.user_id = se.id"));
    assert!(st.sql.ends_with(" where pt.id = $1 order by pt.id limit 1"));
    assert_eq!(binds(&st), vec!["BigInt(5)"]);
}
