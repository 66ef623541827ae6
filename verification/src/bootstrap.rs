//! First-time provisioning: key pair, machine image, base stack, and the
//! settings that record the result.

use crate::ami::{get_amazon_linux_2_ami, resolve};
use crate::config::{Config, ConfigModel};
use crate::deploy::{
    deploy_after, deploy_outcome, deploy_request, deploy_stack, Deploy, DeployModel, DeployPhase,
};
use crate::provider::{complaint, first_address, first_public_ip, Reply, ReplyModel, Request, RequestModel};
use crate::stack::{error_name, ParameterModel, SimpleParameter};
use crate::tag::{Tag, TagModel};
use crate::trust::{role_arn, trust_role_arn};
use vstd::prelude::*;
use vstd::string::*;

verus! {

/// Why provisioning stopped.
#[derive(Debug, PartialEq)]
pub enum BootstrapErrors {
    FailedCreateWorkingDir(String),
    FailedCreatingSSHKey(String),
    FailedFindAmi,
    FailedStackCreation(String),
    FailedDescribeStack,
    FailedWriteConfig,
    FailedSetKeyPermissions,
    FailedGetCurrentAccountId(String),
}

/// What a [`BootstrapErrors`] holds.
pub enum BootstrapErrorsModel {
    FailedCreateWorkingDir(Seq<char>),
    FailedCreatingSSHKey(Seq<char>),
    FailedFindAmi,
    FailedStackCreation(Seq<char>),
    FailedDescribeStack,
    FailedWriteConfig,
    FailedSetKeyPermissions,
    FailedGetCurrentAccountId(Seq<char>),
}

impl View for BootstrapErrors {
    type V = BootstrapErrorsModel;

    open spec fn view(&self) -> BootstrapErrorsModel {
        match self {
            BootstrapErrors::FailedCreateWorkingDir(text) => BootstrapErrorsModel::FailedCreateWorkingDir(text@),
            BootstrapErrors::FailedCreatingSSHKey(text) => BootstrapErrorsModel::FailedCreatingSSHKey(text@),
            BootstrapErrors::FailedFindAmi => BootstrapErrorsModel::FailedFindAmi,
            BootstrapErrors::FailedStackCreation(text) => BootstrapErrorsModel::FailedStackCreation(text@),
            BootstrapErrors::FailedDescribeStack => BootstrapErrorsModel::FailedDescribeStack,
            BootstrapErrors::FailedWriteConfig => BootstrapErrorsModel::FailedWriteConfig,
            BootstrapErrors::FailedSetKeyPermissions => BootstrapErrorsModel::FailedSetKeyPermissions,
            BootstrapErrors::FailedGetCurrentAccountId(text) => BootstrapErrorsModel::FailedGetCurrentAccountId(text@),
        }
    }
}

/// Seconds that the base stack is given to become complete.
pub const DEPLOY_BUDGET: u64 = 420;

/// Where provisioning stands: what has been asked last, with what has been
/// learnt so far and is still needed.
pub enum BootstrapStep {
    ProbingWorkingDir,
    CreatingWorkingDir,
    CreatingKeyPair,
    ProbingKeyFile { key_material: String },
    StoringKey { key_material: String },
    FindingImage,
    ReadingTemplate { image_id: String },
    ResolvingIdentity { image_id: String, template: String },
    Deploying { deploy: Deploy },
    FindingInstance,
    FindingAddress { instance_id: String },
    Persisting { config: Config },
    Succeeded,
    Failed { error: BootstrapErrors },
}

/// What a [`BootstrapStep`] holds.
pub enum BootstrapStepModel {
    ProbingWorkingDir,
    CreatingWorkingDir,
    CreatingKeyPair,
    ProbingKeyFile { key_material: Seq<char> },
    StoringKey { key_material: Seq<char> },
    FindingImage,
    ReadingTemplate { image_id: Seq<char> },
    ResolvingIdentity { image_id: Seq<char>, template: Seq<char> },
    Deploying { deploy: DeployModel },
    FindingInstance,
    FindingAddress { instance_id: Seq<char> },
    Persisting { config: ConfigModel },
    Succeeded,
    Failed { error: BootstrapErrorsModel },
}

impl View for BootstrapStep {
    type V = BootstrapStepModel;

    open spec fn view(&self) -> BootstrapStepModel {
        match self {
            BootstrapStep::ProbingWorkingDir => BootstrapStepModel::ProbingWorkingDir,
            BootstrapStep::CreatingWorkingDir => BootstrapStepModel::CreatingWorkingDir,
            BootstrapStep::CreatingKeyPair => BootstrapStepModel::CreatingKeyPair,
            BootstrapStep::ProbingKeyFile { key_material } => BootstrapStepModel::ProbingKeyFile {
                key_material: key_material@,
            },
            BootstrapStep::StoringKey { key_material } => BootstrapStepModel::StoringKey {
                key_material: key_material@,
            },
            BootstrapStep::FindingImage => BootstrapStepModel::FindingImage,
            BootstrapStep::ReadingTemplate { image_id } => BootstrapStepModel::ReadingTemplate {
                image_id: image_id@,
            },
            BootstrapStep::ResolvingIdentity {
                image_id,
                template,
            } => BootstrapStepModel::ResolvingIdentity { image_id: image_id@, template: template@ },
            BootstrapStep::Deploying { deploy } => BootstrapStepModel::Deploying { deploy: deploy@ },
            BootstrapStep::FindingInstance => BootstrapStepModel::FindingInstance,
            BootstrapStep::FindingAddress { instance_id } => BootstrapStepModel::FindingAddress {
                instance_id: instance_id@,
            },
            BootstrapStep::Persisting { config } => BootstrapStepModel::Persisting { config: config@ },
            BootstrapStep::Succeeded => BootstrapStepModel::Succeeded,
            BootstrapStep::Failed { error } => BootstrapStepModel::Failed { error: error@ },
        }
    }
}

/// A provisioning under way.
pub struct Bootstrap {
    profile: String,
    tags: Vec<Tag>,
    step: BootstrapStep,
}

/// What a [`Bootstrap`] holds.
pub struct BootstrapModel {
    pub profile: Seq<char>,
    pub tags: Seq<TagModel>,
    pub step: BootstrapStepModel,
}

impl View for Bootstrap {
    type V = BootstrapModel;

    closed spec fn view(&self) -> BootstrapModel {
        BootstrapModel { profile: self.profile@, tags: self.tags.deep_view(), step: self.step@ }
    }
}

/// The parameters of the base stack: the machine image, the name of the key
/// pair, and the role of the one account that is trusted from the start.
pub open spec fn base_parameters(image_id: Seq<char>, account_no: Seq<char>) -> Seq<ParameterModel> {
    seq![
        ParameterModel { key: "AmiId"@, value: image_id },
        ParameterModel { key: "SSHKeyName"@, value: "ContainerBuilderKey"@ },
        ParameterModel { key: "AccountRoles"@, value: trust_role_arn(account_no) },
    ]
}

/// The request that provisioning waits for, or `None` once it has ended.
pub open spec fn bootstrap_request(run: BootstrapModel) -> Option<RequestModel> {
    match run.step {
        BootstrapStepModel::ProbingWorkingDir => Some(RequestModel::ProbeWorkingDir),
        BootstrapStepModel::CreatingWorkingDir => Some(RequestModel::CreateWorkingDir),
        BootstrapStepModel::CreatingKeyPair => Some(
            RequestModel::CreateKeyPair { profile: run.profile, key_name: "ContainerBuilderKey"@ },
        ),
        BootstrapStepModel::ProbingKeyFile { key_material } => Some(RequestModel::ProbeKeyFile),
        BootstrapStepModel::StoringKey { key_material } => Some(
            RequestModel::StoreKey { key_material },
        ),
        BootstrapStepModel::FindingImage => Some(
            RequestModel::DescribeImages {
                profile: run.profile,
                name: "amzn2-ami-hvm-2.0.????????.?-x86_64-gp2"@,
                state: "available"@,
                owner: "amazon"@,
            },
        ),
        BootstrapStepModel::ReadingTemplate { image_id } => Some(
            RequestModel::ReadTemplate { path: "resources/instance-cfn.yml"@ },
        ),
        BootstrapStepModel::ResolvingIdentity { image_id, template } => Some(
            RequestModel::GetCallerIdentity { profile: run.profile },
        ),
        BootstrapStepModel::Deploying { deploy } => deploy_request(deploy),
        BootstrapStepModel::FindingInstance => Some(
            RequestModel::DescribeStackResource {
                profile: run.profile,
                stack_name: "container-builder"@,
                logical_id: "Instance"@,
            },
        ),
        BootstrapStepModel::FindingAddress { instance_id } => Some(
            RequestModel::DescribeInstances { profile: run.profile, instance_id, delay: 0 },
        ),
        BootstrapStepModel::Persisting { config } => Some(RequestModel::StoreConfig { config }),
        BootstrapStepModel::Succeeded => None,
        BootstrapStepModel::Failed { error } => None,
    }
}

/// How provisioning has ended, or `None` while it has not.
pub open spec fn bootstrap_outcome(run: BootstrapModel) -> Option<Result<(), BootstrapErrorsModel>> {
    match run.step {
        BootstrapStepModel::Succeeded => Some(Ok(())),
        BootstrapStepModel::Failed { error } => Some(Err(error)),
        _ => None,
    }
}

/// What is said of a working directory that could not be made.
pub open spec fn working_dir_complaint(reason: Seq<char>) -> Seq<char> {
    "Failed to create working directory with error: "@ + reason
}

/// The step that follows when `reply` answers the pending request. Any
/// reply but those named here fails the step, and with it the provisioning:
/// nothing that comes after is attempted.
pub open spec fn bootstrap_next(run: BootstrapModel, reply: ReplyModel) -> BootstrapStepModel {
    match run.step {
        BootstrapStepModel::ProbingWorkingDir => match reply {
            ReplyModel::Done => BootstrapStepModel::CreatingKeyPair,
            ReplyModel::Missing => BootstrapStepModel::CreatingWorkingDir,
            _ => BootstrapStepModel::Failed {
                error: BootstrapErrorsModel::FailedCreateWorkingDir(
                    working_dir_complaint(complaint(reply)),
                ),
            },
        },
        BootstrapStepModel::CreatingWorkingDir => match reply {
            ReplyModel::Done => BootstrapStepModel::CreatingKeyPair,
            _ => BootstrapStepModel::Failed {
                error: BootstrapErrorsModel::FailedCreateWorkingDir(
                    working_dir_complaint(complaint(reply)),
                ),
            },
        },
        BootstrapStepModel::CreatingKeyPair => match reply {
            ReplyModel::Text { text } => BootstrapStepModel::ProbingKeyFile { key_material: text },
            _ => BootstrapStepModel::Failed {
                error: BootstrapErrorsModel::FailedCreatingSSHKey("Failed create ec2 ssh key"@),
            },
        },
        BootstrapStepModel::ProbingKeyFile { key_material } => match reply {
            ReplyModel::Done => BootstrapStepModel::FindingImage,
            ReplyModel::Missing => BootstrapStepModel::StoringKey { key_material },
            _ => BootstrapStepModel::Failed {
                error: BootstrapErrorsModel::FailedCreatingSSHKey(complaint(reply)),
            },
        },
        BootstrapStepModel::StoringKey { key_material } => match reply {
            ReplyModel::Done => BootstrapStepModel::FindingImage,
            _ => BootstrapStepModel::Failed {
                error: BootstrapErrorsModel::FailedCreatingSSHKey(complaint(reply)),
            },
        },
        BootstrapStepModel::FindingImage => match reply {
            ReplyModel::Images { images } => match resolve(images) {
                Some(image_id) => BootstrapStepModel::ReadingTemplate { image_id },
                None => BootstrapStepModel::Failed { error: BootstrapErrorsModel::FailedFindAmi },
            },
            _ => BootstrapStepModel::Failed { error: BootstrapErrorsModel::FailedFindAmi },
        },
        BootstrapStepModel::ReadingTemplate { image_id } => match reply {
            ReplyModel::Text { text } => BootstrapStepModel::ResolvingIdentity {
                image_id,
                template: text,
            },
            _ => BootstrapStepModel::Failed {
                error: BootstrapErrorsModel::FailedStackCreation(complaint(reply)),
            },
        },
        BootstrapStepModel::ResolvingIdentity { image_id, template } => match reply {
            ReplyModel::Text { text } => BootstrapStepModel::Deploying {
                deploy: DeployModel {
                    profile: run.profile,
                    stack_name: "container-builder"@,
                    template,
                    parameters: base_parameters(image_id, text),
                    tags: run.tags,
                    timeout: DEPLOY_BUDGET,
                    phase: DeployPhase::Creating,
                },
            },
            _ => BootstrapStepModel::Failed {
                error: BootstrapErrorsModel::FailedGetCurrentAccountId(complaint(reply)),
            },
        },
        BootstrapStepModel::Deploying { deploy } => match deploy_outcome(
            deploy_after(deploy, reply),
        ) {
            None => BootstrapStepModel::Deploying { deploy: deploy_after(deploy, reply) },
            Some(Ok(_)) => BootstrapStepModel::FindingInstance,
            Some(Err(error)) => BootstrapStepModel::Failed {
                error: BootstrapErrorsModel::FailedStackCreation(error_name(error)),
            },
        },
        BootstrapStepModel::FindingInstance => match reply {
            ReplyModel::Text { text } => BootstrapStepModel::FindingAddress { instance_id: text },
            _ => BootstrapStepModel::Failed { error: BootstrapErrorsModel::FailedDescribeStack },
        },
        BootstrapStepModel::FindingAddress { instance_id } => match reply {
            ReplyModel::Instances { reservations } => match first_address(reservations) {
                Some(address) => BootstrapStepModel::Persisting {
                    config: ConfigModel {
                        instance_ip: address,
                        base_profile: run.profile,
                        sub_accounts: Seq::empty(),
                    },
                },
                None => BootstrapStepModel::Failed {
                    error: BootstrapErrorsModel::FailedDescribeStack,
                },
            },
            _ => BootstrapStepModel::Failed { error: BootstrapErrorsModel::FailedDescribeStack },
        },
        BootstrapStepModel::Persisting { config } => match reply {
            ReplyModel::Done => BootstrapStepModel::Succeeded,
            _ => BootstrapStepModel::Failed { error: BootstrapErrorsModel::FailedWriteConfig },
        },
        BootstrapStepModel::Succeeded => BootstrapStepModel::Succeeded,
        BootstrapStepModel::Failed { error } => BootstrapStepModel::Failed { error },
    }
}

/// Provisioning after `reply` has answered its pending request.
pub open spec fn bootstrap_after(run: BootstrapModel, reply: ReplyModel) -> BootstrapModel {
    BootstrapModel { step: bootstrap_next(run, reply), ..run }
}

/// Begins provisioning under `profile`. The base stack will carry `tags`.
/// The first request asks whether the working directory exists.
pub fn run_bootstrap(profile: String, tags: Vec<Tag>) -> (run: Bootstrap)
    ensures
        run@ == (BootstrapModel {
            profile: profile@,
            tags: tags.deep_view(),
            step: BootstrapStepModel::ProbingWorkingDir,
        }),
{
    Bootstrap { profile, tags, step: BootstrapStep::ProbingWorkingDir }
}

fn failed_working_dir(reply: Reply) -> (step: BootstrapStep)
    ensures
        step@ == (BootstrapStepModel::Failed {
            error: BootstrapErrorsModel::FailedCreateWorkingDir(
                working_dir_complaint(complaint(reply@)),
            ),
        }),
{
    let reason = reply.into_complaint();
    BootstrapStep::Failed {
        error: BootstrapErrors::FailedCreateWorkingDir(
            String::from_str("Failed to create working directory with error: ").concat(
                reason.as_str(),
            ),
        ),
    }
}

fn base_stack_parameters(image_id: String, account_no: &str) -> (parameters: Vec<SimpleParameter>)
    ensures
        parameters.deep_view() == base_parameters(image_id@, account_no@),
{
    let mut parameters: Vec<SimpleParameter> = Vec::new();
    parameters.push(SimpleParameter::new(String::from_str("AmiId"), image_id));
    parameters.push(
        SimpleParameter::new(String::from_str("SSHKeyName"), String::from_str("ContainerBuilderKey")),
    );
    parameters.push(SimpleParameter::new(String::from_str("AccountRoles"), role_arn(account_no)));
    assert(parameters.deep_view() == base_parameters(image_id@, account_no@));
    parameters
}

impl Bootstrap {
    /// The request to make next, or `None` once provisioning has ended.
    pub fn pending(&self) -> (request: Option<Request>)
        ensures
            request.deep_view() == bootstrap_request(self@),
    {
        match &self.step {
            BootstrapStep::ProbingWorkingDir => Some(Request::ProbeWorkingDir),
            BootstrapStep::CreatingWorkingDir => Some(Request::CreateWorkingDir),
            BootstrapStep::CreatingKeyPair => Some(
                Request::CreateKeyPair {
                    profile: self.profile.clone(),
                    key_name: String::from_str("ContainerBuilderKey"),
                },
            ),
            BootstrapStep::ProbingKeyFile { key_material } => Some(Request::ProbeKeyFile),
            BootstrapStep::StoringKey { key_material } => Some(
                Request::StoreKey { key_material: key_material.clone() },
            ),
            BootstrapStep::FindingImage => Some(
                Request::DescribeImages {
                    profile: self.profile.clone(),
                    name: String::from_str("amzn2-ami-hvm-2.0.????????.?-x86_64-gp2"),
                    state: String::from_str("available"),
                    owner: String::from_str("amazon"),
                },
            ),
            BootstrapStep::ReadingTemplate { image_id } => Some(
                Request::ReadTemplate { path: String::from_str("resources/instance-cfn.yml") },
            ),
            BootstrapStep::ResolvingIdentity { image_id, template } => Some(
                Request::GetCallerIdentity { profile: self.profile.clone() },
            ),
            BootstrapStep::Deploying { deploy } => deploy.pending(),
            BootstrapStep::FindingInstance => Some(
                Request::DescribeStackResource {
                    profile: self.profile.clone(),
                    stack_name: String::from_str("container-builder"),
                    logical_id: String::from_str("Instance"),
                },
            ),
            BootstrapStep::FindingAddress { instance_id } => Some(
                Request::DescribeInstances {
                    profile: self.profile.clone(),
                    instance_id: instance_id.clone(),
                    delay: 0,
                },
            ),
            BootstrapStep::Persisting { config } => Some(
                Request::StoreConfig { config: config.duplicate() },
            ),
            BootstrapStep::Succeeded => None,
            BootstrapStep::Failed { error } => None,
        }
    }

    /// Whether provisioning has ended.
    pub fn is_finished(&self) -> (ended: bool)
        ensures
            ended == bootstrap_outcome(self@) is Some,
    {
        match &self.step {
            BootstrapStep::Succeeded => true,
            BootstrapStep::Failed { error } => true,
            _ => false,
        }
    }

    /// How provisioning has ended; `None` while it has not.
    pub fn into_outcome(self) -> (outcome: Option<Result<(), BootstrapErrors>>)
        ensures
            match outcome {
                None => bootstrap_outcome(self@) is None,
                Some(Ok(_)) => bootstrap_outcome(self@) == Some(Ok::<(), BootstrapErrorsModel>(())),
                Some(Err(error)) => bootstrap_outcome(self@) == Some(
                    Err::<(), BootstrapErrorsModel>(error@),
                ),
            },
    {
        match self.step {
            BootstrapStep::Succeeded => Some(Ok(())),
            BootstrapStep::Failed { error } => Some(Err(error)),
            _ => None,
        }
    }

    /// Takes the reply to the pending request and moves on.
    pub fn advance(self, reply: Reply) -> (next: Bootstrap)
        ensures
            next@ == bootstrap_after(self@, reply@),
    {
        let Bootstrap { profile, tags, step } = self;
        let step = match step {
            BootstrapStep::ProbingWorkingDir => match reply {
                Reply::Done => BootstrapStep::CreatingKeyPair,
                Reply::Missing => BootstrapStep::CreatingWorkingDir,
                other => failed_working_dir(other),
            },
            BootstrapStep::CreatingWorkingDir => match reply {
                Reply::Done => BootstrapStep::CreatingKeyPair,
                other => failed_working_dir(other),
            },
            BootstrapStep::CreatingKeyPair => match reply {
                Reply::Text { text } => BootstrapStep::ProbingKeyFile { key_material: text },
                _ => BootstrapStep::Failed {
                    error: BootstrapErrors::FailedCreatingSSHKey(
                        String::from_str("Failed create ec2 ssh key"),
                    ),
                },
            },
            BootstrapStep::ProbingKeyFile { key_material } => match reply {
                Reply::Done => BootstrapStep::FindingImage,
                Reply::Missing => BootstrapStep::StoringKey { key_material },
                other => BootstrapStep::Failed {
                    error: BootstrapErrors::FailedCreatingSSHKey(other.into_complaint()),
                },
            },
            BootstrapStep::StoringKey { key_material } => match reply {
                Reply::Done => BootstrapStep::FindingImage,
                other => BootstrapStep::Failed {
                    error: BootstrapErrors::FailedCreatingSSHKey(other.into_complaint()),
                },
            },
            BootstrapStep::FindingImage => match reply {
                Reply::Images { images } => match get_amazon_linux_2_ami(images) {
                    Ok(image_id) => BootstrapStep::ReadingTemplate { image_id },
                    Err(error) => BootstrapStep::Failed { error: BootstrapErrors::FailedFindAmi },
                },
                _ => BootstrapStep::Failed { error: BootstrapErrors::FailedFindAmi },
            },
            BootstrapStep::ReadingTemplate { image_id } => match reply {
                Reply::Text { text } => BootstrapStep::ResolvingIdentity { image_id, template: text },
                other => BootstrapStep::Failed {
                    error: BootstrapErrors::FailedStackCreation(other.into_complaint()),
                },
            },
            BootstrapStep::ResolvingIdentity { image_id, template } => match reply {
                Reply::Text { text } => {
                    let parameters = base_stack_parameters(image_id, text.as_str());
                    BootstrapStep::Deploying {
                        deploy: deploy_stack(
                            profile.clone(),
                            String::from_str("container-builder"),
                            template,
                            &parameters,
                            &tags,
                            DEPLOY_BUDGET,
                        ),
                    }
                },
                other => BootstrapStep::Failed {
                    error: BootstrapErrors::FailedGetCurrentAccountId(other.into_complaint()),
                },
            },
            BootstrapStep::Deploying { deploy } => {
                let deploy = deploy.advance(reply);
                match deploy.outcome() {
                    None => BootstrapStep::Deploying { deploy },
                    Some(Ok(_)) => BootstrapStep::FindingInstance,
                    Some(Err(error)) => BootstrapStep::Failed {
                        error: BootstrapErrors::FailedStackCreation(error.to_string()),
                    },
                }
            },
            BootstrapStep::FindingInstance => match reply {
                Reply::Text { text } => BootstrapStep::FindingAddress { instance_id: text },
                _ => BootstrapStep::Failed { error: BootstrapErrors::FailedDescribeStack },
            },
            BootstrapStep::FindingAddress { instance_id } => match reply {
                Reply::Instances { reservations } => match first_public_ip(&reservations) {
                    Some(address) => BootstrapStep::Persisting {
                        config: Config::new(address, profile.clone()),
                    },
                    None => BootstrapStep::Failed { error: BootstrapErrors::FailedDescribeStack },
                },
                _ => BootstrapStep::Failed { error: BootstrapErrors::FailedDescribeStack },
            },
            BootstrapStep::Persisting { config } => match reply {
                Reply::Done => BootstrapStep::Succeeded,
                _ => BootstrapStep::Failed { error: BootstrapErrors::FailedWriteConfig },
            },
            BootstrapStep::Succeeded => BootstrapStep::Succeeded,
            BootstrapStep::Failed { error } => BootstrapStep::Failed { error },
        };
        Bootstrap { profile, tags, step }
    }
}

/// A provisioning that is deploying has a deployment that has not ended.
pub open spec fn bootstrap_consistent(run: BootstrapModel) -> bool {
    run.step matches BootstrapStepModel::Deploying { deploy } ==> deploy_outcome(deploy) is None
}

/// Provisioning begins consistent and stays so; and a consistent
/// provisioning makes a request exactly while it has not ended.
pub proof fn lemma_bootstrap_consistent(run: BootstrapModel, reply: ReplyModel)
    requires
        bootstrap_consistent(run),
    ensures
        bootstrap_consistent(bootstrap_after(run, reply)),
        bootstrap_request(run) is None <==> bootstrap_outcome(run) is Some,
{
}

/// A failure is final: provisioning that has ended asks for nothing more,
/// and no reply changes it.
pub proof fn lemma_bootstrap_ended_is_final(run: BootstrapModel, reply: ReplyModel)
    requires
        bootstrap_outcome(run) is Some,
    ensures
        bootstrap_request(run) is None,
        bootstrap_after(run, reply) == run,
{
}

/// The settings that provisioning asks to persist hold the address that the
/// provider reported for the instance, the profile that provisioning was
/// begun with, and an empty ledger.
pub proof fn lemma_bootstrap_persists_report(run: BootstrapModel, reply: ReplyModel)
    requires
        run.step is FindingAddress,
        reply is Instances,
        first_address(reply->reservations) is Some,
    ensures
        bootstrap_request(bootstrap_after(run, reply)) == Some(
            RequestModel::StoreConfig {
                config: ConfigModel {
                    instance_ip: first_address(reply->reservations)->0,
                    base_profile: run.profile,
                    sub_accounts: Seq::empty(),
                },
            },
        ),
{
}

/// Provisioning succeeds only by way of persisted settings: the one step
/// that leads to success is the one that has just asked to persist them.
pub proof fn lemma_bootstrap_success_follows_persisting(run: BootstrapModel, reply: ReplyModel)
    requires
        bootstrap_consistent(run),
        bootstrap_outcome(run) is None,
        bootstrap_outcome(bootstrap_after(run, reply)) == Some(Ok::<(), BootstrapErrorsModel>(())),
    ensures
        run.step is Persisting,
        reply is Done,
{
}

} // verus!
