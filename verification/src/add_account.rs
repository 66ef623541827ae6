//! Linking another account: the base stack learns to trust it, the new
//! account gets the stack with the role to push under, and only then does the
//! ledger record it.

use crate::config::{numbers, register, Config, ConfigModel};
use crate::deploy::{
    deploy_after, deploy_outcome, deploy_request, deploy_stack, Deploy, DeployModel, DeployPhase,
};
use crate::provider::{complaint, Reply, ReplyModel, Request, RequestModel};
use crate::stack::{role_updates, update_stack, ParameterModel, SimpleParameter};
use crate::tag::{Tag, TagModel};
use crate::trust::{account_roles, account_roles_value, trusted_accounts, trusted_numbers};
use vstd::prelude::*;
use vstd::string::*;

verus! {

/// Why an account could not be linked.
#[derive(Debug, PartialEq)]
pub enum AddAccountError {
    FailedToLoadConfig,
    FailedGetCurrentAccountNo(String),
    FailedUpdateStack(String),
    FailedCreateNewStack,
    FailedToUpdateConfig,
}

/// What an [`AddAccountError`] holds.
pub enum AddAccountErrorModel {
    FailedToLoadConfig,
    FailedGetCurrentAccountNo(Seq<char>),
    FailedUpdateStack(Seq<char>),
    FailedCreateNewStack,
    FailedToUpdateConfig,
}

impl View for AddAccountError {
    type V = AddAccountErrorModel;

    open spec fn view(&self) -> AddAccountErrorModel {
        match self {
            AddAccountError::FailedToLoadConfig => AddAccountErrorModel::FailedToLoadConfig,
            AddAccountError::FailedGetCurrentAccountNo(text) => AddAccountErrorModel::FailedGetCurrentAccountNo(
                text@,
            ),
            AddAccountError::FailedUpdateStack(text) => AddAccountErrorModel::FailedUpdateStack(text@),
            AddAccountError::FailedCreateNewStack => AddAccountErrorModel::FailedCreateNewStack,
            AddAccountError::FailedToUpdateConfig => AddAccountErrorModel::FailedToUpdateConfig,
        }
    }
}

/// Seconds that the role stack is given to become complete.
pub const ROLE_DEPLOY_BUDGET: u64 = 420;

/// Where the linking of an account stands.
pub enum AddAccountStep {
    LoadingConfig,
    ResolvingBase { config: Config },
    ResolvingNew { config: Config, base_account: String },
    UpdatingBase { config: Config, base_account: String, new_account: String, roles: String },
    ReadingTemplate { config: Config, base_account: String, new_account: String },
    Deploying { config: Config, new_account: String, deploy: Deploy },
    Persisting { config: Config },
    Succeeded,
    Failed { error: AddAccountError },
}

/// What an [`AddAccountStep`] holds.
pub enum AddAccountStepModel {
    LoadingConfig,
    ResolvingBase { config: ConfigModel },
    ResolvingNew { config: ConfigModel, base_account: Seq<char> },
    UpdatingBase {
        config: ConfigModel,
        base_account: Seq<char>,
        new_account: Seq<char>,
        roles: Seq<char>,
    },
    ReadingTemplate { config: ConfigModel, base_account: Seq<char>, new_account: Seq<char> },
    Deploying { config: ConfigModel, new_account: Seq<char>, deploy: DeployModel },
    Persisting { config: ConfigModel },
    Succeeded,
    Failed { error: AddAccountErrorModel },
}

impl View for AddAccountStep {
    type V = AddAccountStepModel;

    open spec fn view(&self) -> AddAccountStepModel {
        match self {
            AddAccountStep::LoadingConfig => AddAccountStepModel::LoadingConfig,
            AddAccountStep::ResolvingBase { config } => AddAccountStepModel::ResolvingBase {
                config: config@,
            },
            AddAccountStep::ResolvingNew { config, base_account } => AddAccountStepModel::ResolvingNew {
                config: config@,
                base_account: base_account@,
            },
            AddAccountStep::UpdatingBase {
                config,
                base_account,
                new_account,
                roles,
            } => AddAccountStepModel::UpdatingBase {
                config: config@,
                base_account: base_account@,
                new_account: new_account@,
                roles: roles@,
            },
            AddAccountStep::ReadingTemplate {
                config,
                base_account,
                new_account,
            } => AddAccountStepModel::ReadingTemplate {
                config: config@,
                base_account: base_account@,
                new_account: new_account@,
            },
            AddAccountStep::Deploying {
                config,
                new_account,
                deploy,
            } => AddAccountStepModel::Deploying {
                config: config@,
                new_account: new_account@,
                deploy: deploy@,
            },
            AddAccountStep::Persisting { config } => AddAccountStepModel::Persisting { config: config@ },
            AddAccountStep::Succeeded => AddAccountStepModel::Succeeded,
            AddAccountStep::Failed { error } => AddAccountStepModel::Failed { error: error@ },
        }
    }
}

/// The linking of an account, under way.
pub struct AddAccount {
    new_profile: String,
    tags: Vec<Tag>,
    step: AddAccountStep,
}

/// What an [`AddAccount`] holds.
pub struct AddAccountModel {
    pub new_profile: Seq<char>,
    pub tags: Seq<TagModel>,
    pub step: AddAccountStepModel,
}

impl View for AddAccount {
    type V = AddAccountModel;

    closed spec fn view(&self) -> AddAccountModel {
        AddAccountModel {
            new_profile: self.new_profile@,
            tags: self.tags.deep_view(),
            step: self.step@,
        }
    }
}

/// The request that the linking waits for, or `None` once it has ended.
pub open spec fn add_account_request(run: AddAccountModel) -> Option<RequestModel> {
    match run.step {
        AddAccountStepModel::LoadingConfig => Some(RequestModel::LoadConfig),
        AddAccountStepModel::ResolvingBase { config } => Some(
            RequestModel::GetCallerIdentity { profile: config.base_profile },
        ),
        AddAccountStepModel::ResolvingNew { config, base_account } => Some(
            RequestModel::GetCallerIdentity { profile: run.new_profile },
        ),
        AddAccountStepModel::UpdatingBase { config, base_account, new_account, roles } => Some(
            RequestModel::UpdateStack {
                profile: config.base_profile,
                stack_name: "container-builder"@,
                updates: role_updates(roles),
            },
        ),
        AddAccountStepModel::ReadingTemplate { config, base_account, new_account } => Some(
            RequestModel::ReadTemplate { path: "resources/role-cfn.yml"@ },
        ),
        AddAccountStepModel::Deploying { config, new_account, deploy } => deploy_request(deploy),
        AddAccountStepModel::Persisting { config } => Some(RequestModel::StoreConfig { config }),
        AddAccountStepModel::Succeeded => None,
        AddAccountStepModel::Failed { error } => None,
    }
}

/// How the linking has ended, or `None` while it has not.
pub open spec fn add_account_outcome(run: AddAccountModel) -> Option<
    Result<(), AddAccountErrorModel>,
> {
    match run.step {
        AddAccountStepModel::Succeeded => Some(Ok(())),
        AddAccountStepModel::Failed { error } => Some(Err(error)),
        _ => None,
    }
}

/// The step that follows when `reply` answers the pending request. Any
/// reply but those named here fails the step and ends the linking.
///
/// The base stack is updated first, with the roles of the ledger's accounts,
/// the new account and the base account. The role stack of the new account
/// comes second. The ledger is changed last, and only after both went well.
pub open spec fn add_account_next(run: AddAccountModel, reply: ReplyModel) -> AddAccountStepModel {
    match run.step {
        AddAccountStepModel::LoadingConfig => match reply {
            ReplyModel::Settings { config } => AddAccountStepModel::ResolvingBase { config },
            _ => AddAccountStepModel::Failed { error: AddAccountErrorModel::FailedToLoadConfig },
        },
        AddAccountStepModel::ResolvingBase { config } => match reply {
            ReplyModel::Text { text } => AddAccountStepModel::ResolvingNew {
                config,
                base_account: text,
            },
            _ => AddAccountStepModel::Failed {
                error: AddAccountErrorModel::FailedGetCurrentAccountNo(complaint(reply)),
            },
        },
        AddAccountStepModel::ResolvingNew { config, base_account } => match reply {
            ReplyModel::Text { text } => AddAccountStepModel::UpdatingBase {
                config,
                base_account,
                new_account: text,
                roles: account_roles(
                    trusted_numbers(numbers(config.sub_accounts), text, base_account),
                ),
            },
            _ => AddAccountStepModel::Failed {
                error: AddAccountErrorModel::FailedGetCurrentAccountNo(complaint(reply)),
            },
        },
        AddAccountStepModel::UpdatingBase { config, base_account, new_account, roles } => match reply {
            ReplyModel::Done => AddAccountStepModel::ReadingTemplate {
                config,
                base_account,
                new_account,
            },
            _ => AddAccountStepModel::Failed {
                error: AddAccountErrorModel::FailedUpdateStack(Seq::empty()),
            },
        },
        AddAccountStepModel::ReadingTemplate { config, base_account, new_account } => match reply {
            ReplyModel::Text { text } => AddAccountStepModel::Deploying {
                config,
                new_account,
                deploy: DeployModel {
                    profile: run.new_profile,
                    stack_name: "container-builder-role"@,
                    template: text,
                    parameters: seq![ParameterModel { key: "RootAccount"@, value: base_account }],
                    tags: run.tags,
                    timeout: ROLE_DEPLOY_BUDGET,
                    phase: DeployPhase::Creating,
                },
            },
            _ => AddAccountStepModel::Failed { error: AddAccountErrorModel::FailedCreateNewStack },
        },
        AddAccountStepModel::Deploying { config, new_account, deploy } => match deploy_outcome(
            deploy_after(deploy, reply),
        ) {
            None => AddAccountStepModel::Deploying {
                config,
                new_account,
                deploy: deploy_after(deploy, reply),
            },
            Some(Ok(_)) => AddAccountStepModel::Persisting {
                config: ConfigModel {
                    sub_accounts: register(config.sub_accounts, run.new_profile, new_account),
                    ..config
                },
            },
            Some(Err(error)) => AddAccountStepModel::Failed {
                error: AddAccountErrorModel::FailedCreateNewStack,
            },
        },
        AddAccountStepModel::Persisting { config } => match reply {
            ReplyModel::Done => AddAccountStepModel::Succeeded,
            _ => AddAccountStepModel::Failed { error: AddAccountErrorModel::FailedToUpdateConfig },
        },
        AddAccountStepModel::Succeeded => AddAccountStepModel::Succeeded,
        AddAccountStepModel::Failed { error } => AddAccountStepModel::Failed { error },
    }
}

/// The linking after `reply` has answered its pending request.
pub open spec fn add_account_after(run: AddAccountModel, reply: ReplyModel) -> AddAccountModel {
    AddAccountModel { step: add_account_next(run, reply), ..run }
}

/// Begins the linking of the account that `new_account_profile` reaches. The
/// first request asks for the persisted settings.
pub fn run_add_account(new_account_profile: String, tags: Vec<Tag>) -> (run: AddAccount)
    ensures
        run@ == (AddAccountModel {
            new_profile: new_account_profile@,
            tags: tags.deep_view(),
            step: AddAccountStepModel::LoadingConfig,
        }),
{
    AddAccount { new_profile: new_account_profile, tags, step: AddAccountStep::LoadingConfig }
}

impl AddAccount {
    /// The request to make next, or `None` once the linking has ended.
    pub fn pending(&self) -> (request: Option<Request>)
        ensures
            request.deep_view() == add_account_request(self@),
    {
        match &self.step {
            AddAccountStep::LoadingConfig => Some(Request::LoadConfig),
            AddAccountStep::ResolvingBase { config } => Some(
                Request::GetCallerIdentity { profile: config.get_base_profile() },
            ),
            AddAccountStep::ResolvingNew { config, base_account } => Some(
                Request::GetCallerIdentity { profile: self.new_profile.clone() },
            ),
            AddAccountStep::UpdatingBase { config, base_account, new_account, roles } => Some(
                Request::UpdateStack {
                    profile: config.get_base_profile(),
                    stack_name: String::from_str("container-builder"),
                    updates: update_stack(roles.clone()),
                },
            ),
            AddAccountStep::ReadingTemplate { config, base_account, new_account } => Some(
                Request::ReadTemplate { path: String::from_str("resources/role-cfn.yml") },
            ),
            AddAccountStep::Deploying { config, new_account, deploy } => deploy.pending(),
            AddAccountStep::Persisting { config } => Some(
                Request::StoreConfig { config: config.duplicate() },
            ),
            AddAccountStep::Succeeded => None,
            AddAccountStep::Failed { error } => None,
        }
    }

    /// Whether the linking has ended.
    pub fn is_finished(&self) -> (ended: bool)
        ensures
            ended == add_account_outcome(self@) is Some,
    {
        match &self.step {
            AddAccountStep::Succeeded => true,
            AddAccountStep::Failed { error } => true,
            _ => false,
        }
    }

    /// How the linking has ended; `None` while it has not.
    pub fn into_outcome(self) -> (outcome: Option<Result<(), AddAccountError>>)
        ensures
            match outcome {
                None => add_account_outcome(self@) is None,
                Some(Ok(_)) => add_account_outcome(self@) == Some(
                    Ok::<(), AddAccountErrorModel>(()),
                ),
                Some(Err(error)) => add_account_outcome(self@) == Some(
                    Err::<(), AddAccountErrorModel>(error@),
                ),
            },
    {
        match self.step {
            AddAccountStep::Succeeded => Some(Ok(())),
            AddAccountStep::Failed { error } => Some(Err(error)),
            _ => None,
        }
    }

    /// Takes the reply to the pending request and moves on.
    pub fn advance(self, reply: Reply) -> (next: AddAccount)
        ensures
            next@ == add_account_after(self@, reply@),
    {
        let AddAccount { new_profile, tags, step } = self;
        let step = match step {
            AddAccountStep::LoadingConfig => match reply {
                Reply::Settings { config } => AddAccountStep::ResolvingBase { config },
                _ => AddAccountStep::Failed { error: AddAccountError::FailedToLoadConfig },
            },
            AddAccountStep::ResolvingBase { config } => match reply {
                Reply::Text { text } => AddAccountStep::ResolvingNew { config, base_account: text },
                other => AddAccountStep::Failed {
                    error: AddAccountError::FailedGetCurrentAccountNo(other.into_complaint()),
                },
            },
            AddAccountStep::ResolvingNew { config, base_account } => match reply {
                Reply::Text { text } => {
                    let trusted = trusted_accounts(
                        config.get_account_numbers(),
                        text.clone(),
                        base_account.clone(),
                    );
                    let roles = account_roles_value(&trusted);
                    AddAccountStep::UpdatingBase { config, base_account, new_account: text, roles }
                },
                other => AddAccountStep::Failed {
                    error: AddAccountError::FailedGetCurrentAccountNo(other.into_complaint()),
                },
            },
            AddAccountStep::UpdatingBase { config, base_account, new_account, roles } => match reply {
                Reply::Done => AddAccountStep::ReadingTemplate { config, base_account, new_account },
                _ => AddAccountStep::Failed {
                    error: AddAccountError::FailedUpdateStack(String::new()),
                },
            },
            AddAccountStep::ReadingTemplate { config, base_account, new_account } => match reply {
                Reply::Text { text } => {
                    let mut parameters: Vec<SimpleParameter> = Vec::new();
                    parameters.push(
                        SimpleParameter::new(String::from_str("RootAccount"), base_account),
                    );
                    assert(parameters.deep_view() == seq![
                        ParameterModel { key: "RootAccount"@, value: base_account@ },
                    ]);
                    AddAccountStep::Deploying {
                        config,
                        new_account,
                        deploy: deploy_stack(
                            new_profile.clone(),
                            String::from_str("container-builder-role"),
                            text,
                            &parameters,
                            &tags,
                            ROLE_DEPLOY_BUDGET,
                        ),
                    }
                },
                _ => AddAccountStep::Failed { error: AddAccountError::FailedCreateNewStack },
            },
            AddAccountStep::Deploying { config, new_account, deploy } => {
                let deploy = deploy.advance(reply);
                match deploy.outcome() {
                    None => AddAccountStep::Deploying { config, new_account, deploy },
                    Some(Ok(_)) => {
                        let mut config = config;
                        config.add_account(new_profile.clone(), new_account);
                        AddAccountStep::Persisting { config }
                    },
                    Some(Err(error)) => AddAccountStep::Failed {
                        error: AddAccountError::FailedCreateNewStack,
                    },
                }
            },
            AddAccountStep::Persisting { config } => match reply {
                Reply::Done => AddAccountStep::Succeeded,
                _ => AddAccountStep::Failed { error: AddAccountError::FailedToUpdateConfig },
            },
            AddAccountStep::Succeeded => AddAccountStep::Succeeded,
            AddAccountStep::Failed { error } => AddAccountStep::Failed { error },
        };
        AddAccount { new_profile, tags, step }
    }
}

/// A linking that is deploying has a deployment that has not ended.
pub open spec fn add_account_consistent(run: AddAccountModel) -> bool {
    run.step matches AddAccountStepModel::Deploying { config, new_account, deploy }
        ==> deploy_outcome(deploy) is None
}

/// The linking begins consistent and stays so; and a consistent linking
/// makes a request exactly while it has not ended.
pub proof fn lemma_add_account_consistent(run: AddAccountModel, reply: ReplyModel)
    requires
        add_account_consistent(run),
    ensures
        add_account_consistent(add_account_after(run, reply)),
        add_account_request(run) is None <==> add_account_outcome(run) is Some,
{
}

/// The ledger is changed last: the settings are asked to be persisted only
/// when the role stack of the new account has just become complete, and then
/// they are the settings that were loaded, with the new account added under
/// its profile.
pub proof fn lemma_ledger_changes_last(run: AddAccountModel, reply: ReplyModel)
    requires
        add_account_consistent(run),
        add_account_after(run, reply).step is Persisting,
    ensures
        run.step matches AddAccountStepModel::Deploying { config, new_account, deploy } && {
            &&& deploy_outcome(deploy_after(deploy, reply)) == Some(Ok::<(), crate::stack::DeployError>(()))
            &&& add_account_request(add_account_after(run, reply)) == Some(
                RequestModel::StoreConfig {
                    config: ConfigModel {
                        sub_accounts: register(config.sub_accounts, run.new_profile, new_account),
                        ..config
                    },
                },
            )
        },
{
}

/// A linking that has ended asks for nothing more, and no reply changes it:
/// after a failure nothing further is attempted.
pub proof fn lemma_add_account_ended_is_final(run: AddAccountModel, reply: ReplyModel)
    requires
        add_account_outcome(run) is Some,
    ensures
        add_account_request(run) is None,
        add_account_after(run, reply) == run,
{
}

} // verus!
