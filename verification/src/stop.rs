//! Stopping the build host. The instance is told to stop and is not waited
//! for.

use crate::config::{Config, ConfigModel};
use crate::provider::{Reply, ReplyModel, Request, RequestModel};
use vstd::prelude::*;
use vstd::string::*;

verus! {

/// A stop of the build host, under way.
pub enum Stop {
    LoadingConfig,
    FindingInstance { config: Config },
    Stopping { config: Config, instance_id: String },
    Succeeded,
    Failed { message: String },
}

/// What a [`Stop`] holds.
pub enum StopModel {
    LoadingConfig,
    FindingInstance { config: ConfigModel },
    Stopping { config: ConfigModel, instance_id: Seq<char> },
    Succeeded,
    Failed { message: Seq<char> },
}

impl View for Stop {
    type V = StopModel;

    open spec fn view(&self) -> StopModel {
        match self {
            Stop::LoadingConfig => StopModel::LoadingConfig,
            Stop::FindingInstance { config } => StopModel::FindingInstance { config: config@ },
            Stop::Stopping { config, instance_id } => StopModel::Stopping {
                config: config@,
                instance_id: instance_id@,
            },
            Stop::Succeeded => StopModel::Succeeded,
            Stop::Failed { message } => StopModel::Failed { message: message@ },
        }
    }
}

/// The request that the stop waits for, or `None` once it has ended.
pub open spec fn stop_request(run: StopModel) -> Option<RequestModel> {
    match run {
        StopModel::LoadingConfig => Some(RequestModel::LoadConfig),
        StopModel::FindingInstance { config } => Some(
            RequestModel::DescribeStackResource {
                profile: config.base_profile,
                stack_name: "container-builder"@,
                logical_id: "Instance"@,
            },
        ),
        StopModel::Stopping { config, instance_id } => Some(
            RequestModel::StopInstances { profile: config.base_profile, instance_id },
        ),
        StopModel::Succeeded => None,
        StopModel::Failed { message } => None,
    }
}

/// How the stop has ended, or `None` while it has not.
pub open spec fn stop_outcome(run: StopModel) -> Option<Result<(), Seq<char>>> {
    match run {
        StopModel::Succeeded => Some(Ok(())),
        StopModel::Failed { message } => Some(Err(message)),
        _ => None,
    }
}

/// The stop after `reply` has answered its pending request. Any reply but
/// those named here fails the step and ends the stop. Once the instance has
/// taken the order to stop, the stop has succeeded.
pub open spec fn stop_after(run: StopModel, reply: ReplyModel) -> StopModel {
    match run {
        StopModel::LoadingConfig => match reply {
            ReplyModel::Settings { config } => StopModel::FindingInstance { config },
            _ => StopModel::Failed { message: "Could not load config file"@ },
        },
        StopModel::FindingInstance { config } => match reply {
            ReplyModel::Text { text } => StopModel::Stopping { config, instance_id: text },
            _ => StopModel::Failed { message: "Failed to get instance Id"@ },
        },
        StopModel::Stopping { config, instance_id } => match reply {
            ReplyModel::Done => StopModel::Succeeded,
            _ => StopModel::Failed { message: "Failed to stop instance"@ },
        },
        StopModel::Succeeded => StopModel::Succeeded,
        StopModel::Failed { message } => StopModel::Failed { message },
    }
}

/// Begins a stop of the build host. The first request asks for the
/// persisted settings.
pub fn run_stop() -> (run: Stop)
    ensures
        run@ == StopModel::LoadingConfig,
{
    Stop::LoadingConfig
}

impl Stop {
    /// The request to make next, or `None` once the stop has ended.
    pub fn pending(&self) -> (request: Option<Request>)
        ensures
            request.deep_view() == stop_request(self@),
    {
        match self {
            Stop::LoadingConfig => Some(Request::LoadConfig),
            Stop::FindingInstance { config } => Some(
                Request::DescribeStackResource {
                    profile: config.get_base_profile(),
                    stack_name: String::from_str("container-builder"),
                    logical_id: String::from_str("Instance"),
                },
            ),
            Stop::Stopping { config, instance_id } => Some(
                Request::StopInstances {
                    profile: config.get_base_profile(),
                    instance_id: instance_id.clone(),
                },
            ),
            Stop::Succeeded => None,
            Stop::Failed { message } => None,
        }
    }

    /// How the stop has ended; `None` while it has not.
    pub fn into_outcome(self) -> (outcome: Option<Result<(), String>>)
        ensures
            match outcome {
                None => stop_outcome(self@) is None,
                Some(Ok(_)) => stop_outcome(self@) == Some(Ok::<(), Seq<char>>(())),
                Some(Err(message)) => stop_outcome(self@) == Some(Err::<(), Seq<char>>(message@)),
            },
    {
        match self {
            Stop::Succeeded => Some(Ok(())),
            Stop::Failed { message } => Some(Err(message)),
            _ => None,
        }
    }

    /// Whether the stop has ended.
    pub fn is_finished(&self) -> (ended: bool)
        ensures
            ended == stop_outcome(self@) is Some,
    {
        match self {
            Stop::Succeeded => true,
            Stop::Failed { message } => true,
            _ => false,
        }
    }

    /// Takes the reply to the pending request and moves on.
    pub fn advance(self, reply: Reply) -> (next: Stop)
        ensures
            next@ == stop_after(self@, reply@),
    {
        match self {
            Stop::LoadingConfig => match reply {
                Reply::Settings { config } => Stop::FindingInstance { config },
                _ => Stop::Failed { message: String::from_str("Could not load config file") },
            },
            Stop::FindingInstance { config } => match reply {
                Reply::Text { text } => Stop::Stopping { config, instance_id: text },
                _ => Stop::Failed { message: String::from_str("Failed to get instance Id") },
            },
            Stop::Stopping { config, instance_id } => match reply {
                Reply::Done => Stop::Succeeded,
                _ => Stop::Failed { message: String::from_str("Failed to stop instance") },
            },
            Stop::Succeeded => Stop::Succeeded,
            Stop::Failed { message } => Stop::Failed { message },
        }
    }
}

/// A stop makes a request exactly while it has not ended, and one that has
/// ended is changed by no reply.
pub proof fn lemma_stop_ended_is_final(run: StopModel, reply: ReplyModel)
    ensures
        stop_request(run) is None <==> stop_outcome(run) is Some,
        stop_outcome(run) is Some ==> stop_after(run, reply) == run,
{
}

} // verus!
