//! Bringing a named stack up: submit it, then look at its event history
//! until it is complete or the time budget has run out.
//!
//! A [`Deploy`] holds where a deployment stands. [`Deploy::pending`] names the
//! request to make next, [`Deploy::advance`] takes the reply to it. The
//! caller makes the requests and does the waiting; every decision is taken
//! here.

use crate::provider::{Reply, ReplyModel, Request, RequestModel};
use crate::stack::{
    completed, has_stack_completed, DeployError, ParameterModel, SimpleParameter,
};
use crate::tag::{Tag, TagModel};
use vstd::prelude::*;
use vstd::string::*;

verus! {

/// Seconds to wait between two looks at the event history.
pub const POLL_INTERVAL: u64 = 5;

/// Where a deployment stands.
#[derive(Debug, Clone, Copy, PartialEq, Eq)]
pub enum DeployPhase {
    /// The stack is still to be submitted.
    Creating,
    /// The stack is submitted and its history is to be fetched; `first` until
    /// the first answer has come.
    Polling { first: bool },
    Succeeded,
    Failed { error: DeployError },
}

/// A deployment under way.
#[derive(Debug, PartialEq)]
pub struct Deploy {
    profile: String,
    stack_name: String,
    template: String,
    parameters: Vec<SimpleParameter>,
    tags: Vec<Tag>,
    timeout: u64,
    phase: DeployPhase,
}

/// What a [`Deploy`] holds.
pub struct DeployModel {
    pub profile: Seq<char>,
    pub stack_name: Seq<char>,
    pub template: Seq<char>,
    pub parameters: Seq<ParameterModel>,
    pub tags: Seq<TagModel>,
    pub timeout: u64,
    pub phase: DeployPhase,
}

impl View for Deploy {
    type V = DeployModel;

    closed spec fn view(&self) -> DeployModel {
        DeployModel {
            profile: self.profile@,
            stack_name: self.stack_name@,
            template: self.template@,
            parameters: self.parameters.deep_view(),
            tags: self.tags.deep_view(),
            timeout: self.timeout,
            phase: self.phase,
        }
    }
}

/// The request that a deployment waits for, or `None` once it has ended.
pub open spec fn deploy_request(deploy: DeployModel) -> Option<RequestModel> {
    match deploy.phase {
        DeployPhase::Creating => Some(
            RequestModel::CreateStack {
                profile: deploy.profile,
                stack_name: deploy.stack_name,
                template: deploy.template,
                parameters: deploy.parameters,
                tags: deploy.tags,
            },
        ),
        DeployPhase::Polling { first } => Some(
            RequestModel::DescribeStackEvents {
                profile: deploy.profile,
                stack_name: deploy.stack_name,
                delay: if first {
                    0
                } else {
                    POLL_INTERVAL
                },
            },
        ),
        DeployPhase::Succeeded => None,
        DeployPhase::Failed { error } => None,
    }
}

/// How a deployment has ended, or `None` while it has not.
pub open spec fn deploy_outcome(deploy: DeployModel) -> Option<Result<(), DeployError>> {
    match deploy.phase {
        DeployPhase::Succeeded => Some(Ok(())),
        DeployPhase::Failed { error } => Some(Err(error)),
        _ => None,
    }
}

/// The phase that follows when `reply` answers the pending request.
///
/// A submission that is accepted, or refused because the stack exists
/// already, leads to polling; any other answer to it ends the deployment
/// with `CreateStackFailed`. A history that shows the stack complete ends it
/// with success, whatever the time; one that does not ends it with `TimedOut`
/// where the time gone by exceeds the budget, and else leads to another look
/// after the interval. Any other answer to a fetch ends it with
/// `DescribeStackFailed`. A deployment that has ended stays as it is.
pub open spec fn next_phase(deploy: DeployModel, reply: ReplyModel) -> DeployPhase {
    match deploy.phase {
        DeployPhase::Creating => match reply {
            ReplyModel::Done => DeployPhase::Polling { first: true },
            ReplyModel::AlreadyExists => DeployPhase::Polling { first: true },
            _ => DeployPhase::Failed { error: DeployError::CreateStackFailed },
        },
        DeployPhase::Polling { first } => match reply {
            ReplyModel::Events { events, elapsed } => if completed(events, deploy.stack_name) {
                DeployPhase::Succeeded
            } else if elapsed.exceeds(deploy.timeout) {
                DeployPhase::Failed { error: DeployError::TimedOut }
            } else {
                DeployPhase::Polling { first: false }
            },
            _ => DeployPhase::Failed { error: DeployError::DescribeStackFailed },
        },
        DeployPhase::Succeeded => DeployPhase::Succeeded,
        DeployPhase::Failed { error } => DeployPhase::Failed { error },
    }
}

/// The deployment after `reply` has answered its pending request.
pub open spec fn deploy_after(deploy: DeployModel, reply: ReplyModel) -> DeployModel {
    DeployModel { phase: next_phase(deploy, reply), ..deploy }
}

fn copy_parameters(parameters: &Vec<SimpleParameter>) -> (copy: Vec<SimpleParameter>)
    ensures
        copy.deep_view() == parameters.deep_view(),
{
    let mut copy: Vec<SimpleParameter> = Vec::new();
    let mut i: usize = 0;
    while i < parameters.len()
        invariant
            0 <= i <= parameters@.len(),
            copy@.len() == i,
            forall|j: int| 0 <= j < i ==> copy@[j]@ == parameters@[j]@,
        decreases parameters@.len() - i,
    {
        copy.push(parameters[i].duplicate());
        i = i + 1;
    }
    assert(copy.deep_view() == parameters.deep_view());
    copy
}

fn copy_tags(tags: &Vec<Tag>) -> (copy: Vec<Tag>)
    ensures
        copy.deep_view() == tags.deep_view(),
{
    let mut copy: Vec<Tag> = Vec::new();
    let mut i: usize = 0;
    while i < tags.len()
        invariant
            0 <= i <= tags@.len(),
            copy@.len() == i,
            forall|j: int| 0 <= j < i ==> copy@[j]@ == tags@[j]@,
        decreases tags@.len() - i,
    {
        copy.push(tags[i].duplicate());
        i = i + 1;
    }
    assert(copy.deep_view() == tags.deep_view());
    copy
}

/// Begins the deployment of a stack: nothing has been asked of the provider
/// yet, and the first request will be the submission of the stack. `timeout`
/// is the budget, in seconds, for the stack to become complete, counted from
/// the first look at its history.
pub fn deploy_stack(
    profile: String,
    stack_name: String,
    template: String,
    parameters: &Vec<SimpleParameter>,
    tags: &Vec<Tag>,
    timeout: u64,
) -> (deploy: Deploy)
    ensures
        deploy@ == (DeployModel {
            profile: profile@,
            stack_name: stack_name@,
            template: template@,
            parameters: parameters.deep_view(),
            tags: tags.deep_view(),
            timeout,
            phase: DeployPhase::Creating,
        }),
{
    Deploy {
        profile,
        stack_name,
        template,
        parameters: copy_parameters(parameters),
        tags: copy_tags(tags),
        timeout,
        phase: DeployPhase::Creating,
    }
}

impl Deploy {
    /// The request to make next, or `None` once the deployment has ended.
    pub fn pending(&self) -> (request: Option<Request>)
        ensures
            request.deep_view() == deploy_request(self@),
    {
        match self.phase {
            DeployPhase::Creating => Some(
                Request::CreateStack {
                    profile: self.profile.clone(),
                    stack_name: self.stack_name.clone(),
                    template: self.template.clone(),
                    parameters: copy_parameters(&self.parameters),
                    tags: copy_tags(&self.tags),
                },
            ),
            DeployPhase::Polling { first } => Some(
                Request::DescribeStackEvents {
                    profile: self.profile.clone(),
                    stack_name: self.stack_name.clone(),
                    delay: if first {
                        0
                    } else {
                        POLL_INTERVAL
                    },
                },
            ),
            DeployPhase::Succeeded => None,
            DeployPhase::Failed { error } => None,
        }
    }

    /// How the deployment has ended, or `None` while it has not.
    pub fn outcome(&self) -> (outcome: Option<Result<(), DeployError>>)
        ensures
            outcome == deploy_outcome(self@),
    {
        match self.phase {
            DeployPhase::Succeeded => Some(Ok(())),
            DeployPhase::Failed { error } => Some(Err(error)),
            _ => None,
        }
    }

    /// Takes the reply to the pending request and moves on.
    pub fn advance(self, reply: Reply) -> (next: Deploy)
        ensures
            next@ == deploy_after(self@, reply@),
    {
        let phase = match self.phase {
            DeployPhase::Creating => match reply {
                Reply::Done => DeployPhase::Polling { first: true },
                Reply::AlreadyExists => DeployPhase::Polling { first: true },
                _ => DeployPhase::Failed { error: DeployError::CreateStackFailed },
            },
            DeployPhase::Polling { first } => match reply {
                Reply::Events { events, elapsed } => if has_stack_completed(
                    &events,
                    &self.stack_name,
                ) {
                    DeployPhase::Succeeded
                } else if elapsed.exceeds(self.timeout) {
                    DeployPhase::Failed { error: DeployError::TimedOut }
                } else {
                    DeployPhase::Polling { first: false }
                },
                _ => DeployPhase::Failed { error: DeployError::DescribeStackFailed },
            },
            DeployPhase::Succeeded => DeployPhase::Succeeded,
            DeployPhase::Failed { error } => DeployPhase::Failed { error },
        };
        Deploy {
            profile: self.profile,
            stack_name: self.stack_name,
            template: self.template,
            parameters: self.parameters,
            tags: self.tags,
            timeout: self.timeout,
            phase,
        }
    }
}

/// The deployment after each of `replies` has answered, in turn, the request
/// that was pending when it came.
pub open spec fn deploy_run(start: DeployModel, replies: Seq<ReplyModel>) -> DeployModel
    decreases replies.len(),
{
    if replies.len() == 0 {
        start
    } else {
        deploy_after(deploy_run(start, replies.drop_last()), replies.last())
    }
}

/// The number of times the event history was fetched while `replies` came
/// in: the number of replies that answered a fetch.
pub open spec fn polls_made(start: DeployModel, replies: Seq<ReplyModel>) -> nat
    decreases replies.len(),
{
    if replies.len() == 0 {
        0
    } else {
        let earlier = replies.drop_last();
        if deploy_run(start, earlier).phase is Polling {
            polls_made(start, earlier) + 1
        } else {
            polls_made(start, earlier)
        }
    }
}

/// An answer to a submission after which the deployment goes on.
pub open spec fn accepted(reply: ReplyModel) -> bool {
    reply is Done || reply is AlreadyExists
}

/// A history that does not show the stack complete, fetched within the
/// budget.
pub open spec fn inconclusive(deploy: DeployModel, reply: ReplyModel) -> bool {
    reply matches ReplyModel::Events { events, elapsed } && !completed(events, deploy.stack_name)
        && !elapsed.exceeds(deploy.timeout)
}

/// A history that shows the stack complete.
pub open spec fn conclusive(deploy: DeployModel, reply: ReplyModel) -> bool {
    reply matches ReplyModel::Events { events, elapsed } && completed(events, deploy.stack_name)
}

/// A history that does not show the stack complete, fetched after the budget
/// has run out.
pub open spec fn overdue(deploy: DeployModel, reply: ReplyModel) -> bool {
    reply matches ReplyModel::Events { events, elapsed } && !completed(events, deploy.stack_name)
        && elapsed.exceeds(deploy.timeout)
}

/// While the submission is accepted and every history is inconclusive, the
/// deployment keeps polling, and has fetched the history once for each.
pub proof fn lemma_keeps_polling(start: DeployModel, created: ReplyModel, histories: Seq<ReplyModel>)
    requires
        start.phase is Creating,
        accepted(created),
        forall|i: int| 0 <= i < histories.len() ==> inconclusive(start, #[trigger] histories[i]),
    ensures
        deploy_run(start, seq![created] + histories) == (DeployModel {
            phase: DeployPhase::Polling { first: histories.len() == 0 },
            ..start
        }),
        polls_made(start, seq![created] + histories) == histories.len(),
    decreases histories.len(),
{
    let replies = seq![created] + histories;
    if histories.len() == 0 {
        assert(replies.drop_last() == Seq::<ReplyModel>::empty());
        assert(replies.last() == created);
        assert(deploy_run(start, replies.drop_last()) == start);
        assert(polls_made(start, replies.drop_last()) == 0);
    } else {
        let earlier = histories.drop_last();
        lemma_keeps_polling(start, created, earlier);
        assert(replies.drop_last() == seq![created] + earlier);
        assert(replies.last() == histories.last());
        assert(inconclusive(start, histories[histories.len() - 1]));
        assert(deploy_run(start, replies.drop_last()).phase is Polling);
        assert(polls_made(start, replies) == polls_made(start, replies.drop_last()) + 1);
    }
}

/// A deployment whose submission is accepted, or refused only because the
/// stack exists already, and whose `n`-th look at the history is the first to
/// show the stack complete, succeeds after exactly `n` looks: it has not
/// ended before the `n`-th, and asks for nothing after it.
pub proof fn lemma_succeeds_on_nth_poll(
    start: DeployModel,
    created: ReplyModel,
    histories: Seq<ReplyModel>,
)
    requires
        start.phase is Creating,
        accepted(created),
        histories.len() >= 1,
        forall|i: int| 0 <= i < histories.len() - 1 ==> inconclusive(start, #[trigger] histories[i]),
        conclusive(start, histories.last()),
    ensures
        deploy_outcome(deploy_run(start, seq![created] + histories)) == Some(
            Ok::<(), DeployError>(()),
        ),
        polls_made(start, seq![created] + histories) == histories.len(),
        deploy_request(deploy_run(start, seq![created] + histories)) is None,
        forall|n: int|
            0 <= n < histories.len() ==> deploy_outcome(
                #[trigger] deploy_run(start, seq![created] + histories.take(n)),
            ) is None,
{
    let replies = seq![created] + histories;
    let earlier = histories.drop_last();
    lemma_keeps_polling(start, created, earlier);
    assert(replies.drop_last() == seq![created] + earlier);
    assert(replies.last() == histories.last());
    assert(deploy_run(start, replies.drop_last()).phase is Polling);
    assert(polls_made(start, replies) == polls_made(start, replies.drop_last()) + 1);
    assert forall|n: int| 0 <= n < histories.len() implies deploy_outcome(
        #[trigger] deploy_run(start, seq![created] + histories.take(n)),
    ) is None by {
        lemma_keeps_polling(start, created, histories.take(n));
    }
}

/// A deployment whose stack never shows as complete fails with `TimedOut` at
/// the first look at the history that comes after the budget has run out,
/// and not before.
pub proof fn lemma_times_out(start: DeployModel, created: ReplyModel, histories: Seq<ReplyModel>)
    requires
        start.phase is Creating,
        accepted(created),
        histories.len() >= 1,
        forall|i: int| 0 <= i < histories.len() - 1 ==> inconclusive(start, #[trigger] histories[i]),
        overdue(start, histories.last()),
    ensures
        deploy_outcome(deploy_run(start, seq![created] + histories)) == Some(
            Err::<(), DeployError>(DeployError::TimedOut),
        ),
        polls_made(start, seq![created] + histories) == histories.len(),
        deploy_request(deploy_run(start, seq![created] + histories)) is None,
        forall|n: int|
            0 <= n < histories.len() ==> deploy_outcome(
                #[trigger] deploy_run(start, seq![created] + histories.take(n)),
            ) is None,
{
    let replies = seq![created] + histories;
    let earlier = histories.drop_last();
    lemma_keeps_polling(start, created, earlier);
    assert(replies.drop_last() == seq![created] + earlier);
    assert(replies.last() == histories.last());
    assert(deploy_run(start, replies.drop_last()).phase is Polling);
    assert(polls_made(start, replies) == polls_made(start, replies.drop_last()) + 1);
    assert forall|n: int| 0 <= n < histories.len() implies deploy_outcome(
        #[trigger] deploy_run(start, seq![created] + histories.take(n)),
    ) is None by {
        lemma_keeps_polling(start, created, histories.take(n));
    }
}

/// A submission that is refused for any reason other than that the stack
/// exists ends the deployment at once with `CreateStackFailed`: the history
/// is never fetched.
pub proof fn lemma_refused_submission(start: DeployModel, created: ReplyModel)
    requires
        start.phase is Creating,
        !accepted(created),
    ensures
        deploy_outcome(deploy_after(start, created)) == Some(
            Err::<(), DeployError>(DeployError::CreateStackFailed),
        ),
        deploy_request(deploy_after(start, created)) is None,
{
}

/// A deployment that has ended makes no request, and one that has not ended
/// makes one; no reply changes one that has ended.
pub proof fn lemma_ended_is_final(deploy: DeployModel, reply: ReplyModel)
    ensures
        deploy_outcome(deploy) is Some <==> deploy_request(deploy) is None,
        deploy_outcome(deploy) is Some ==> deploy_after(deploy, reply) == deploy,
{
}

} // verus!
