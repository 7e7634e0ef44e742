//! The write of a response post as a unit of work.
//!
//! A response post takes two statements: the post itself, then the link to
//! the post it responds to. Both must take effect or neither. The decisions
//! of that unit are a small machine: it names the next action, the driver
//! performs it against its store and hands the store's answer back. The
//! machine never touches a store itself, so one machine serves every driver.

use vstd::prelude::*;
use crate::repo::base::{EntityId, StoreError};

verus! {

/// What the driver has to do next.
#[derive(Debug, Clone, Copy)]
pub enum WriteAction {
    /// Open a transaction.
    Begin,
    /// Insert the post, inside the transaction.
    InsertPost,
    /// Insert the link from the respondee to the post `responder_post_id`,
    /// inside the transaction.
    InsertPostResponse { responder_post_id: i64 },
    /// Commit the transaction.
    Commit,
    /// Roll the transaction back.
    Rollback,
    /// Nothing more: hand this outcome to the caller.
    Finish { outcome: Result<EntityId, StoreError> },
}

/// Where the unit of work stands: the action whose answer it waits for.
#[derive(Debug, Clone, Copy)]
pub enum ResponsePostWrite {
    /// Waiting for the transaction to open.
    Opening,
    /// Waiting for the identifier of the new post.
    InsertingPost,
    /// The post `post_id` is written; waiting for the link.
    Linking { post_id: i64 },
    /// Both rows are written; waiting for the commit.
    Committing { post_id: i64 },
    /// A statement failed with `error`; waiting for the rollback.
    RollingBack { error: StoreError },
    /// The unit of work is over.
    Finished { outcome: Result<EntityId, StoreError> },
}

impl ResponsePostWrite {
    /// A unit of work at its beginning.
    pub fn start() -> (w: ResponsePostWrite)
        ensures
            w == ResponsePostWrite::Opening,
    {
        ResponsePostWrite::Opening
    }

    /// The action that this state asks for.
    pub open spec fn spec_action(self) -> WriteAction {
        match self {
            ResponsePostWrite::Opening => WriteAction::Begin,
            ResponsePostWrite::InsertingPost => WriteAction::InsertPost,
            ResponsePostWrite::Linking { post_id } => WriteAction::InsertPostResponse {
                responder_post_id: post_id,
            },
            ResponsePostWrite::Committing { .. } => WriteAction::Commit,
            ResponsePostWrite::RollingBack { .. } => WriteAction::Rollback,
            ResponsePostWrite::Finished { outcome } => WriteAction::Finish { outcome },
        }
    }

    /// The action that this state asks for.
    #[verifier::when_used_as_spec(spec_action)]
    pub fn action(self) -> (a: WriteAction)
        ensures
            a == self.spec_action(),
    {
        match self {
            ResponsePostWrite::Opening => WriteAction::Begin,
            ResponsePostWrite::InsertingPost => WriteAction::InsertPost,
            ResponsePostWrite::Linking { post_id } => WriteAction::InsertPostResponse {
                responder_post_id: post_id,
            },
            ResponsePostWrite::Committing { .. } => WriteAction::Commit,
            ResponsePostWrite::RollingBack { .. } => WriteAction::Rollback,
            ResponsePostWrite::Finished { outcome } => WriteAction::Finish { outcome },
        }
    }

    /// The state after the store answered the action that this state asked
    /// for: `Ok` with the new row's identifier for an insert, `Ok` with any
    /// number for the other actions, `Err` with the failure.
    ///
    /// A failure to open or to commit ends the unit with that failure. A
    /// failed statement asks for a rollback and then ends the unit with the
    /// statement's failure, whatever the rollback answered.
    pub open spec fn spec_on(self, answer: Result<i64, StoreError>) -> ResponsePostWrite {
        match self {
            ResponsePostWrite::Opening => match answer {
                Ok(_) => ResponsePostWrite::InsertingPost,
                Err(error) => ResponsePostWrite::Finished { outcome: Err(error) },
            },
            ResponsePostWrite::InsertingPost => match answer {
                Ok(post_id) => ResponsePostWrite::Linking { post_id },
                Err(error) => ResponsePostWrite::RollingBack { error },
            },
            ResponsePostWrite::Linking { post_id } => match answer {
                Ok(_) => ResponsePostWrite::Committing { post_id },
                Err(error) => ResponsePostWrite::RollingBack { error },
            },
            ResponsePostWrite::Committing { post_id } => match answer {
                Ok(_) => ResponsePostWrite::Finished { outcome: Ok(EntityId { id: post_id }) },
                Err(error) => ResponsePostWrite::Finished { outcome: Err(error) },
            },
            ResponsePostWrite::RollingBack { error } => ResponsePostWrite::Finished { outcome: Err(error) },
            ResponsePostWrite::Finished { outcome } => ResponsePostWrite::Finished { outcome },
        }
    }

    /// The state after the store answered the action that this state asked
    /// for.
    #[verifier::when_used_as_spec(spec_on)]
    pub fn on(self, answer: Result<i64, StoreError>) -> (next: ResponsePostWrite)
        ensures
            next == self.spec_on(answer),
    {
        match self {
            ResponsePostWrite::Opening => match answer {
                Ok(_) => ResponsePostWrite::InsertingPost,
                Err(error) => ResponsePostWrite::Finished { outcome: Err(error) },
            },
            ResponsePostWrite::InsertingPost => match answer {
                Ok(post_id) => ResponsePostWrite::Linking { post_id },
                Err(error) => ResponsePostWrite::RollingBack { error },
            },
            ResponsePostWrite::Linking { post_id } => match answer {
                Ok(_) => ResponsePostWrite::Committing { post_id },
                Err(error) => ResponsePostWrite::RollingBack { error },
            },
            ResponsePostWrite::Committing { post_id } => match answer {
                Ok(_) => ResponsePostWrite::Finished { outcome: Ok(EntityId { id: post_id }) },
                Err(error) => ResponsePostWrite::Finished { outcome: Err(error) },
            },
            ResponsePostWrite::RollingBack { error } => ResponsePostWrite::Finished { outcome: Err(error) },
            ResponsePostWrite::Finished { outcome } => ResponsePostWrite::Finished { outcome },
        }
    }

    /// An upper bound on the answers that the unit still needs.
    pub open spec fn steps_left(self) -> nat {
        match self {
            ResponsePostWrite::Opening => 4,
            ResponsePostWrite::InsertingPost => 3,
            ResponsePostWrite::Linking { .. } => 2,
            ResponsePostWrite::Committing { .. } => 1,
            ResponsePostWrite::RollingBack { .. } => 1,
            ResponsePostWrite::Finished { .. } => 0,
        }
    }

    /// The state after the store gave these answers, one after another.
    pub open spec fn after(self, answers: Seq<Result<i64, StoreError>>) -> ResponsePostWrite
        decreases answers.len(),
    {
        if answers.len() == 0 {
            self
        } else {
            self.spec_on(answers[0]).after(answers.drop_first())
        }
    }
}

/// Every answer brings a unit that is not over closer to its end.
pub proof fn law_every_answer_advances(w: ResponsePostWrite, answer: Result<i64, StoreError>)
    requires
        !(w is Finished),
    ensures
        w.spec_on(answer).steps_left() < w.steps_left(),
{
}

/// Four answers end every unit of work, and it succeeds exactly when the
/// store accepted all four actions: open, post, link, commit. The
/// identifier it then reports is the one that the post insert returned.
pub proof fn law_success_takes_every_step(
    open: Result<i64, StoreError>,
    post: Result<i64, StoreError>,
    link: Result<i64, StoreError>,
    close: Result<i64, StoreError>,
)
    ensures
        ({
            let end = ResponsePostWrite::Opening.spec_on(open).spec_on(post).spec_on(link).spec_on(close);
            &&& end is Finished
            &&& end->outcome is Ok <==> open is Ok && post is Ok && link is Ok && close is Ok
            &&& end->outcome matches Ok(entity) ==> post == Ok::<i64, StoreError>(entity.id)
        }),
{
}

/// A commit is asked for only after the store accepted both statements:
/// whatever the answers were, a state that asks for a commit follows an
/// accepted open, an accepted post insert and an accepted link insert.
pub proof fn law_commit_follows_both_statements(answers: Seq<Result<i64, StoreError>>)
    requires
        ResponsePostWrite::Opening.after(answers).spec_action() is Commit,
    ensures
        answers.len() == 3,
        answers[0] is Ok,
        answers[1] is Ok,
        answers[2] is Ok,
{
    let w0 = ResponsePostWrite::Opening;
    reveal_with_fuel(ResponsePostWrite::after, 5);
    if answers.len() >= 1 {
        let w1 = w0.spec_on(answers[0]);
        let r1 = answers.drop_first();
        if r1.len() >= 1 {
            let w2 = w1.spec_on(r1[0]);
            let r2 = r1.drop_first();
            if r2.len() >= 1 {
                let w3 = w2.spec_on(r2[0]);
                let r3 = r2.drop_first();
                if r3.len() >= 1 {
                    let w4 = w3.spec_on(r3[0]);
                    let r4 = r3.drop_first();
                    assert(w4 is Finished);
                    law_finished_stays(w4, r4);
                }
            }
        }
    }
}

/// A unit that is over stays over, with the same outcome.
pub proof fn law_finished_stays(w: ResponsePostWrite, answers: Seq<Result<i64, StoreError>>)
    requires
        w is Finished,
    ensures
        w.after(answers) == w,
    decreases answers.len(),
{
    if answers.len() > 0 {
        law_finished_stays(w.spec_on(answers[0]), answers.drop_first());
    }
}

/// After a statement failed, the unit asks for a rollback and then reports
/// that statement's failure, whatever the rollback answered.
pub proof fn law_failed_statement_rolls_back(
    w: ResponsePostWrite,
    error: StoreError,
    rollback: Result<i64, StoreError>,
)
    requires
        w is InsertingPost || w is Linking,
    ensures
        w.spec_on(Err(error)).spec_action() is Rollback,
        w.spec_on(Err(error)).spec_on(rollback) == (ResponsePostWrite::Finished { outcome: Err(error) }),
{
}

} // verus!
