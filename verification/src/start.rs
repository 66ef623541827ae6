//! Starting the build host again and recording its new address.

use crate::config::{Config, ConfigModel};
use crate::provider::{first_address, first_public_ip, Reply, ReplyModel, Request, RequestModel};
use vstd::prelude::*;
use vstd::string::*;

verus! {

/// Why the build host could not be started.
#[derive(Debug, Clone, Copy, PartialEq, Eq, Structural)]
pub enum StartError {
    CouldNotFindConfig,
    InstanceNotFound,
    FailedToStart,
    DescribeInstanceFailed,
    FailedSaveConfig,
}

/// Seconds to let go by, once the instance has been told to start, before
/// its address is asked for. The wait is fixed: an instance that takes
/// longer to get its address is reported as `DescribeInstanceFailed`, and the
/// address is not asked for a second time.
pub const ADDRESS_WAIT: u64 = 60;

/// A start of the build host, under way: what has been asked last, with
/// what has been learnt so far.
pub enum Start {
    LoadingConfig,
    FindingInstance { config: Config },
    Starting { config: Config, instance_id: String },
    FindingAddress { config: Config, instance_id: String },
    Persisting { config: Config },
    Succeeded,
    Failed { error: StartError },
}

/// What a [`Start`] holds.
pub enum StartModel {
    LoadingConfig,
    FindingInstance { config: ConfigModel },
    Starting { config: ConfigModel, instance_id: Seq<char> },
    FindingAddress { config: ConfigModel, instance_id: Seq<char> },
    Persisting { config: ConfigModel },
    Succeeded,
    Failed { error: StartError },
}

impl View for Start {
    type V = StartModel;

    open spec fn view(&self) -> StartModel {
        match self {
            Start::LoadingConfig => StartModel::LoadingConfig,
            Start::FindingInstance { config } => StartModel::FindingInstance { config: config@ },
            Start::Starting { config, instance_id } => StartModel::Starting {
                config: config@,
                instance_id: instance_id@,
            },
            Start::FindingAddress { config, instance_id } => StartModel::FindingAddress {
                config: config@,
                instance_id: instance_id@,
            },
            Start::Persisting { config } => StartModel::Persisting { config: config@ },
            Start::Succeeded => StartModel::Succeeded,
            Start::Failed { error } => StartModel::Failed { error: *error },
        }
    }
}

/// The request that the start waits for, or `None` once it has ended.
pub open spec fn start_request(run: StartModel) -> Option<RequestModel> {
    match run {
        StartModel::LoadingConfig => Some(RequestModel::LoadConfig),
        StartModel::FindingInstance { config } => Some(
            RequestModel::DescribeStackResource {
                profile: config.base_profile,
                stack_name: "container-builder"@,
                logical_id: "Instance"@,
            },
        ),
        StartModel::Starting { config, instance_id } => Some(
            RequestModel::StartInstances { profile: config.base_profile, instance_id },
        ),
        StartModel::FindingAddress { config, instance_id } => Some(
            RequestModel::DescribeInstances {
                profile: config.base_profile,
                instance_id,
                delay: ADDRESS_WAIT,
            },
        ),
        StartModel::Persisting { config } => Some(RequestModel::StoreConfig { config }),
        StartModel::Succeeded => None,
        StartModel::Failed { error } => None,
    }
}

/// How the start has ended, or `None` while it has not.
pub open spec fn start_outcome(run: StartModel) -> Option<Result<(), StartError>> {
    match run {
        StartModel::Succeeded => Some(Ok(())),
        StartModel::Failed { error } => Some(Err(error)),
        _ => None,
    }
}

/// The start after `reply` has answered its pending request. Any reply but
/// those named here fails the step and ends the start.
pub open spec fn start_after(run: StartModel, reply: ReplyModel) -> StartModel {
    match run {
        StartModel::LoadingConfig => match reply {
            ReplyModel::Settings { config } => StartModel::FindingInstance { config },
            _ => StartModel::Failed { error: StartError::CouldNotFindConfig },
        },
        StartModel::FindingInstance { config } => match reply {
            ReplyModel::Text { text } => StartModel::Starting { config, instance_id: text },
            _ => StartModel::Failed { error: StartError::InstanceNotFound },
        },
        StartModel::Starting { config, instance_id } => match reply {
            ReplyModel::Done => StartModel::FindingAddress { config, instance_id },
            _ => StartModel::Failed { error: StartError::FailedToStart },
        },
        StartModel::FindingAddress { config, instance_id } => match reply {
            ReplyModel::Instances { reservations } => match first_address(reservations) {
                Some(address) => StartModel::Persisting {
                    config: ConfigModel { instance_ip: address, ..config },
                },
                None => StartModel::Failed { error: StartError::DescribeInstanceFailed },
            },
            _ => StartModel::Failed { error: StartError::DescribeInstanceFailed },
        },
        StartModel::Persisting { config } => match reply {
            ReplyModel::Done => StartModel::Succeeded,
            _ => StartModel::Failed { error: StartError::FailedSaveConfig },
        },
        StartModel::Succeeded => StartModel::Succeeded,
        StartModel::Failed { error } => StartModel::Failed { error },
    }
}

/// Begins a start of the build host. The first request asks for the
/// persisted settings.
pub fn run_start() -> (run: Start)
    ensures
        run@ == StartModel::LoadingConfig,
{
    Start::LoadingConfig
}

impl Start {
    /// The request to make next, or `None` once the start has ended.
    pub fn pending(&self) -> (request: Option<Request>)
        ensures
            request.deep_view() == start_request(self@),
    {
        match self {
            Start::LoadingConfig => Some(Request::LoadConfig),
            Start::FindingInstance { config } => Some(
                Request::DescribeStackResource {
                    profile: config.get_base_profile(),
                    stack_name: String::from_str("container-builder"),
                    logical_id: String::from_str("Instance"),
                },
            ),
            Start::Starting { config, instance_id } => Some(
                Request::StartInstances {
                    profile: config.get_base_profile(),
                    instance_id: instance_id.clone(),
                },
            ),
            Start::FindingAddress { config, instance_id } => Some(
                Request::DescribeInstances {
                    profile: config.get_base_profile(),
                    instance_id: instance_id.clone(),
                    delay: ADDRESS_WAIT,
                },
            ),
            Start::Persisting { config } => Some(Request::StoreConfig { config: config.duplicate() }),
            Start::Succeeded => None,
            Start::Failed { error } => None,
        }
    }

    /// How the start has ended, or `None` while it has not.
    pub fn outcome(&self) -> (outcome: Option<Result<(), StartError>>)
        ensures
            outcome == start_outcome(self@),
    {
        match self {
            Start::Succeeded => Some(Ok(())),
            Start::Failed { error } => Some(Err(*error)),
            _ => None,
        }
    }

    /// Takes the reply to the pending request and moves on.
    pub fn advance(self, reply: Reply) -> (next: Start)
        ensures
            next@ == start_after(self@, reply@),
    {
        match self {
            Start::LoadingConfig => match reply {
                Reply::Settings { config } => Start::FindingInstance { config },
                _ => Start::Failed { error: StartError::CouldNotFindConfig },
            },
            Start::FindingInstance { config } => match reply {
                Reply::Text { text } => Start::Starting { config, instance_id: text },
                _ => Start::Failed { error: StartError::InstanceNotFound },
            },
            Start::Starting { config, instance_id } => match reply {
                Reply::Done => Start::FindingAddress { config, instance_id },
                _ => Start::Failed { error: StartError::FailedToStart },
            },
            Start::FindingAddress { config, instance_id } => match reply {
                Reply::Instances { reservations } => match first_public_ip(&reservations) {
                    Some(address) => {
                        let mut config = config;
                        config.set_instance_ip(address);
                        Start::Persisting { config }
                    },
                    None => Start::Failed { error: StartError::DescribeInstanceFailed },
                },
                _ => Start::Failed { error: StartError::DescribeInstanceFailed },
            },
            Start::Persisting { config } => match reply {
                Reply::Done => Start::Succeeded,
                _ => Start::Failed { error: StartError::FailedSaveConfig },
            },
            Start::Succeeded => Start::Succeeded,
            Start::Failed { error } => Start::Failed { error },
        }
    }
}

/// A start makes a request exactly while it has not ended, and one that has
/// ended is changed by no reply.
pub proof fn lemma_start_ended_is_final(run: StartModel, reply: ReplyModel)
    ensures
        start_request(run) is None <==> start_outcome(run) is Some,
        start_outcome(run) is Some ==> start_after(run, reply) == run,
{
}

/// The settings that a start asks to persist differ from those it loaded in
/// the address alone, and the address is the one that the provider reported
/// after the wait.
pub proof fn lemma_start_records_address(run: StartModel, reply: ReplyModel)
    requires
        start_after(run, reply) is Persisting,
    ensures
        run matches StartModel::FindingAddress { config, instance_id } && reply matches ReplyModel::Instances {
            reservations,
        } && first_address(reservations) is Some && start_after(run, reply)->Persisting_config == (
        ConfigModel { instance_ip: first_address(reservations)->0, ..config }),
{
}

} // verus!
