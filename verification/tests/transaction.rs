use repository::repo::base::{EntityId, StoreError};
use repository::repo::post::transaction::{ResponsePostWrite, WriteAction};

fn run(answers: &[Result<i64, StoreError>]) -> (Vec<String>, ResponsePostWrite) {
    let mut state = ResponsePostWrite::start();
    let mut asked = vec![format!("{:?}", state.action())];
    for answer in answers {
        state = state.on(*answer);
        asked.push(format!("{:?}", state.action()));
    }
    (asked, state)
}

fn outcome(state: ResponsePostWrite) -> Option<Result<EntityId, StoreError>> {
    match state.action() {
        WriteAction::Finish { outcome } => Some(outcome),
        _ => None,
    }
}

#[test]
fn unit_of_work_asks_for_begin_post_link_commit() {
    let (asked, end) = run(&[Ok(0), Ok(17), Ok(4), Ok(0)]);
    assert_eq!(
        asked,
        vec![
            "Begin".to_string(),
            "InsertPost".to_string(),
            "InsertPostResponse { responder_post_id: 17 }".to_string(),
            "Commit".to_string(),
            "Finish { outcome: Ok(EntityId { id: 17 }) }".to_string(),
        ]
    );
    assert_eq!(outcome(end), Some(Ok(EntityId { id: 17 })));
}

#[test]
fn failed_link_rolls_back_and_reports_the_link_failure() {
    let (asked, end) = run(&[Ok(0), Ok(17), Err(StoreError::ForeignKeyViolation), Err(StoreError::Connectivity)]);
    assert_eq!(asked[3], "Rollback");
    assert_eq!(outcome(end), Some(Err(StoreError::ForeignKeyViolation)));
    assert!(!asked.contains(&"Commit".to_string()));
}

#[test]
fn failed_post_rolls_back_and_never_links() {
    let (asked, end) = run(&[Ok(0), Err(StoreError::ForeignKeyViolation), Ok(0)]);
    assert_eq!(asked[0], "Begin");
    assert_eq!(asked[1], "InsertPost");
    assert_eq!(asked[2], "Rollback");
    assert_eq!(outcome(end), Some(Err(StoreError::ForeignKeyViolation)));
}

#[test]
fn failed_begin_ends_at_once() {
    let (asked, end) = run(&[Err(StoreError::Connectivity)]);
    assert_eq!(asked.len(), 2);
    assert_eq!(outcome(end), Some(Err(StoreError::Connectivity)));
}

#[test]
fn failed_commit_reports_the_commit_failure() {
    let (_, end) = run(&[Ok(0), Ok(1), Ok(1), Err(StoreError::Other)]);
    assert_eq!(outcome(end), Some(Err(StoreError::Other)));
}

#[test]
fn finished_unit_stays_finished() {
    let (_, end) = run(&[Ok(0), Ok(5), Ok(1), Ok(0), Err(StoreError::Connectivity), Ok(9)]);
    assert_eq!(outcome(end), Some(Ok(EntityId { id: 5 })));
}

#[test]
fn unit_is_not_over_before_its_last_answer() {
    let (_, middle) = run(&[Ok(0), Ok(5), Ok(1)]);
    assert_eq!(outcome(middle), None);
}
