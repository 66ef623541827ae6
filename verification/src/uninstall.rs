//! Tearing everything down: the base stack, the role stack of every linked
//! account, the key pair, and at last the local files.
//!
//! The role stacks are deleted all at once and each deletion is waited for,
//! whatever became of the others. Those that failed are reported together,
//! by the numbers of their accounts.

use crate::config::{
    lemma_profile_of_entry, numbers, profiles, Config, ConfigModel,
};
use crate::provider::{Reply, ReplyModel, Request, RequestModel};
use vstd::prelude::*;
use vstd::string::*;

verus! {

/// Why the teardown stopped.
#[derive(Debug, PartialEq)]
pub enum UninstallError {
    CouldNotFindConfig,
    /// The base stack could not be deleted.
    DeleteStackFailed,
    /// The role stacks of these accounts could not be deleted; every account
    /// whose deletion failed is named, in ledger order.
    DeleteAccountStacksFailed(Vec<String>),
    DeleteSSHKeyFailed(String),
    CouldNotDeleteLocalFiles,
}

/// What an [`UninstallError`] holds.
pub enum UninstallErrorModel {
    CouldNotFindConfig,
    DeleteStackFailed,
    DeleteAccountStacksFailed(Seq<Seq<char>>),
    DeleteSSHKeyFailed(Seq<char>),
    CouldNotDeleteLocalFiles,
}

impl View for UninstallError {
    type V = UninstallErrorModel;

    open spec fn view(&self) -> UninstallErrorModel {
        match self {
            UninstallError::CouldNotFindConfig => UninstallErrorModel::CouldNotFindConfig,
            UninstallError::DeleteStackFailed => UninstallErrorModel::DeleteStackFailed,
            UninstallError::DeleteAccountStacksFailed(accounts) => UninstallErrorModel::DeleteAccountStacksFailed(
                accounts.deep_view(),
            ),
            UninstallError::DeleteSSHKeyFailed(text) => UninstallErrorModel::DeleteSSHKeyFailed(text@),
            UninstallError::CouldNotDeleteLocalFiles => UninstallErrorModel::CouldNotDeleteLocalFiles,
        }
    }
}

/// The deletion asked for at position `at` went well: the reply has a flag
/// for it, and the flag is set.
pub open spec fn deleted_at(deleted: Seq<bool>, at: int) -> bool {
    0 <= at < deleted.len() && deleted[at]
}

/// The accounts whose role stack was not deleted, in ledger order.
pub open spec fn failed_accounts(accounts: Seq<Seq<char>>, deleted: Seq<bool>) -> Seq<Seq<char>>
    decreases accounts.len(),
{
    if accounts.len() == 0 {
        Seq::empty()
    } else {
        let earlier = failed_accounts(accounts.drop_last(), deleted);
        if deleted_at(deleted, accounts.len() - 1) {
            earlier
        } else {
            earlier.push(accounts.last())
        }
    }
}

/// The flags of a reply to the deletion of the role stacks; a reply of
/// another form confirms no deletion.
pub open spec fn deletions(reply: ReplyModel) -> Seq<bool> {
    match reply {
        ReplyModel::Deletions { deleted } => deleted,
        _ => Seq::empty(),
    }
}

/// Sorts out the deletions that failed: the numbers of the accounts whose
/// deletion has no flag or an unset one, in the order of `accounts`.
pub fn aggregate_failures(accounts: Vec<String>, deleted: &Vec<bool>) -> (failed: Vec<String>)
    ensures
        failed.deep_view() == failed_accounts(accounts.deep_view(), deleted@),
{
    let ghost all = accounts.deep_view();
    let mut failed: Vec<String> = Vec::new();
    let mut i: usize = 0;
    proof {
        assert(all.take(0) == Seq::<Seq<char>>::empty());
        assert(failed.deep_view() == Seq::<Seq<char>>::empty());
    }
    while i < accounts.len()
        invariant
            0 <= i <= accounts@.len(),
            all == accounts.deep_view(),
            failed.deep_view() == failed_accounts(all.take(i as int), deleted@),
        decreases accounts@.len() - i,
    {
        let ghost before = failed.deep_view();
        proof {
            assert(all.take(i + 1).drop_last() == all.take(i as int));
            assert(all.take(i + 1).last() == accounts@[i as int]@);
        }
        if !(i < deleted.len() && deleted[i]) {
            failed.push(accounts[i].clone());
            assert(failed.deep_view() == before.push(accounts@[i as int]@));
        }
        i = i + 1;
    }
    proof {
        assert(all.take(i as int) == all);
    }
    failed
}

/// A teardown under way.
pub enum Uninstall {
    LoadingConfig,
    DeletingBase { config: Config },
    DeletingRoles { config: Config },
    DeletingKeyPair { config: Config },
    RemovingFiles,
    Succeeded,
    Failed { error: UninstallError },
}

/// What an [`Uninstall`] holds.
pub enum UninstallModel {
    LoadingConfig,
    DeletingBase { config: ConfigModel },
    DeletingRoles { config: ConfigModel },
    DeletingKeyPair { config: ConfigModel },
    RemovingFiles,
    Succeeded,
    Failed { error: UninstallErrorModel },
}

impl View for Uninstall {
    type V = UninstallModel;

    open spec fn view(&self) -> UninstallModel {
        match self {
            Uninstall::LoadingConfig => UninstallModel::LoadingConfig,
            Uninstall::DeletingBase { config } => UninstallModel::DeletingBase { config: config@ },
            Uninstall::DeletingRoles { config } => UninstallModel::DeletingRoles { config: config@ },
            Uninstall::DeletingKeyPair { config } => UninstallModel::DeletingKeyPair {
                config: config@,
            },
            Uninstall::RemovingFiles => UninstallModel::RemovingFiles,
            Uninstall::Succeeded => UninstallModel::Succeeded,
            Uninstall::Failed { error } => UninstallModel::Failed { error: error@ },
        }
    }
}

/// The request that the teardown waits for, or `None` once it has ended.
/// The role stacks are asked for in one request that names the profile of
/// every account of the ledger.
pub open spec fn uninstall_request(run: UninstallModel) -> Option<RequestModel> {
    match run {
        UninstallModel::LoadingConfig => Some(RequestModel::LoadConfig),
        UninstallModel::DeletingBase { config } => Some(
            RequestModel::DeleteStack {
                profile: config.base_profile,
                stack_name: "container-builder"@,
            },
        ),
        UninstallModel::DeletingRoles { config } => Some(
            RequestModel::DeleteStacks {
                profiles: profiles(config.sub_accounts),
                stack_name: "container-builder-role"@,
            },
        ),
        UninstallModel::DeletingKeyPair { config } => Some(
            RequestModel::DeleteKeyPair {
                profile: config.base_profile,
                key_name: "ContainerBuilderKey"@,
            },
        ),
        UninstallModel::RemovingFiles => Some(RequestModel::RemoveLocalFiles),
        UninstallModel::Succeeded => None,
        UninstallModel::Failed { error } => None,
    }
}

/// How the teardown has ended, or `None` while it has not.
pub open spec fn uninstall_outcome(run: UninstallModel) -> Option<Result<(), UninstallErrorModel>> {
    match run {
        UninstallModel::Succeeded => Some(Ok(())),
        UninstallModel::Failed { error } => Some(Err(error)),
        _ => None,
    }
}

/// The teardown after `reply` has answered its pending request. Any reply
/// but those named here fails the step and ends the teardown.
///
/// The key pair is deleted only when every stack is gone, and the local
/// files only when the key pair is. What has been deleted stays deleted when
/// a later step fails.
pub open spec fn uninstall_after(run: UninstallModel, reply: ReplyModel) -> UninstallModel {
    match run {
        UninstallModel::LoadingConfig => match reply {
            ReplyModel::Settings { config } => UninstallModel::DeletingBase { config },
            _ => UninstallModel::Failed { error: UninstallErrorModel::CouldNotFindConfig },
        },
        UninstallModel::DeletingBase { config } => match reply {
            ReplyModel::Done => UninstallModel::DeletingRoles { config },
            _ => UninstallModel::Failed { error: UninstallErrorModel::DeleteStackFailed },
        },
        UninstallModel::DeletingRoles { config } => {
            let failed = failed_accounts(numbers(config.sub_accounts), deletions(reply));
            if failed.len() == 0 {
                UninstallModel::DeletingKeyPair { config }
            } else {
                UninstallModel::Failed {
                    error: UninstallErrorModel::DeleteAccountStacksFailed(failed),
                }
            }
        },
        UninstallModel::DeletingKeyPair { config } => match reply {
            ReplyModel::Done => UninstallModel::RemovingFiles,
            _ => UninstallModel::Failed {
                error: UninstallErrorModel::DeleteSSHKeyFailed("Failed to delete SSH key"@),
            },
        },
        UninstallModel::RemovingFiles => match reply {
            ReplyModel::Done => UninstallModel::Succeeded,
            _ => UninstallModel::Failed { error: UninstallErrorModel::CouldNotDeleteLocalFiles },
        },
        UninstallModel::Succeeded => UninstallModel::Succeeded,
        UninstallModel::Failed { error } => UninstallModel::Failed { error },
    }
}

/// The profile of every account of the ledger, in ledger order.
fn role_stack_profiles(config: &Config) -> (found: Vec<String>)
    ensures
        found.deep_view() == profiles(config@.sub_accounts),
{
    let account_numbers = config.get_account_numbers();
    let ghost accounts = config@.sub_accounts;
    let mut found: Vec<String> = Vec::new();
    let mut i: usize = 0;
    assert(account_numbers.deep_view().len() == numbers(accounts).len());
    while i < account_numbers.len()
        invariant
            0 <= i <= account_numbers@.len(),
            account_numbers@.len() == accounts.len(),
            accounts == config@.sub_accounts,
            account_numbers.deep_view() == numbers(accounts),
            numbers(accounts).no_duplicates(),
            found@.len() == i,
            forall|j: int| 0 <= j < i ==> found@[j]@ == accounts[j].profile,
        decreases account_numbers@.len() - i,
    {
        proof {
            assert(account_numbers.deep_view()[i as int] == accounts[i as int].account_no);
            lemma_profile_of_entry(accounts, i as int);
        }
        match config.get_account_profile(account_numbers[i].clone()) {
            Some(profile) => {
                found.push(profile);
            },
            None => {
                proof {
                    assert(false);
                }
            },
        }
        i = i + 1;
    }
    assert(found.deep_view() == profiles(accounts));
    found
}

/// Begins a teardown. The first request asks for the persisted settings.
pub fn uninstall() -> (run: Uninstall)
    ensures
        run@ == UninstallModel::LoadingConfig,
{
    Uninstall::LoadingConfig
}

impl Uninstall {
    /// The request to make next, or `None` once the teardown has ended.
    pub fn pending(&self) -> (request: Option<Request>)
        ensures
            request.deep_view() == uninstall_request(self@),
    {
        match self {
            Uninstall::LoadingConfig => Some(Request::LoadConfig),
            Uninstall::DeletingBase { config } => Some(
                Request::DeleteStack {
                    profile: config.get_base_profile(),
                    stack_name: String::from_str("container-builder"),
                },
            ),
            Uninstall::DeletingRoles { config } => Some(
                Request::DeleteStacks {
                    profiles: role_stack_profiles(config),
                    stack_name: String::from_str("container-builder-role"),
                },
            ),
            Uninstall::DeletingKeyPair { config } => Some(
                Request::DeleteKeyPair {
                    profile: config.get_base_profile(),
                    key_name: String::from_str("ContainerBuilderKey"),
                },
            ),
            Uninstall::RemovingFiles => Some(Request::RemoveLocalFiles),
            Uninstall::Succeeded => None,
            Uninstall::Failed { error } => None,
        }
    }

    /// Whether the teardown has ended.
    pub fn is_finished(&self) -> (ended: bool)
        ensures
            ended == uninstall_outcome(self@) is Some,
    {
        match self {
            Uninstall::Succeeded => true,
            Uninstall::Failed { error } => true,
            _ => false,
        }
    }

    /// How the teardown has ended; `None` while it has not.
    pub fn into_outcome(self) -> (outcome: Option<Result<(), UninstallError>>)
        ensures
            match outcome {
                None => uninstall_outcome(self@) is None,
                Some(Ok(_)) => uninstall_outcome(self@) == Some(Ok::<(), UninstallErrorModel>(())),
                Some(Err(error)) => uninstall_outcome(self@) == Some(
                    Err::<(), UninstallErrorModel>(error@),
                ),
            },
    {
        match self {
            Uninstall::Succeeded => Some(Ok(())),
            Uninstall::Failed { error } => Some(Err(error)),
            _ => None,
        }
    }

    /// Takes the reply to the pending request and moves on.
    pub fn advance(self, reply: Reply) -> (next: Uninstall)
        ensures
            next@ == uninstall_after(self@, reply@),
    {
        match self {
            Uninstall::LoadingConfig => match reply {
                Reply::Settings { config } => Uninstall::DeletingBase { config },
                _ => Uninstall::Failed { error: UninstallError::CouldNotFindConfig },
            },
            Uninstall::DeletingBase { config } => match reply {
                Reply::Done => Uninstall::DeletingRoles { config },
                _ => Uninstall::Failed { error: UninstallError::DeleteStackFailed },
            },
            Uninstall::DeletingRoles { config } => {
                let deleted = match reply {
                    Reply::Deletions { deleted } => deleted,
                    _ => Vec::new(),
                };
                let failed = aggregate_failures(config.get_account_numbers(), &deleted);
                if failed.len() == 0 {
                    Uninstall::DeletingKeyPair { config }
                } else {
                    Uninstall::Failed { error: UninstallError::DeleteAccountStacksFailed(failed) }
                }
            },
            Uninstall::DeletingKeyPair { config } => match reply {
                Reply::Done => Uninstall::RemovingFiles,
                _ => Uninstall::Failed {
                    error: UninstallError::DeleteSSHKeyFailed(
                        String::from_str("Failed to delete SSH key"),
                    ),
                },
            },
            Uninstall::RemovingFiles => match reply {
                Reply::Done => Uninstall::Succeeded,
                _ => Uninstall::Failed { error: UninstallError::CouldNotDeleteLocalFiles },
            },
            Uninstall::Succeeded => Uninstall::Succeeded,
            Uninstall::Failed { error } => Uninstall::Failed { error },
        }
    }
}

/// The report of failed deletions names an account exactly if it is one of
/// the accounts asked for and its deletion did not go well; it names the
/// accounts in the order in which they were asked for, and is empty exactly
/// if every deletion went well.
pub proof fn lemma_failed_accounts(accounts: Seq<Seq<char>>, deleted: Seq<bool>)
    ensures
        forall|at: int|
            0 <= at < accounts.len() && !deleted_at(deleted, at) ==> failed_accounts(
                accounts,
                deleted,
            ).contains(#[trigger] accounts[at]),
        forall|account: Seq<char>| #[trigger]
            failed_accounts(accounts, deleted).contains(account) ==> exists|at: int|
                0 <= at < accounts.len() && !deleted_at(deleted, at) && accounts[at] == account,
        failed_accounts(accounts, deleted).len() <= accounts.len(),
        failed_accounts(accounts, deleted).len() == 0 <==> forall|at: int|
            0 <= at < accounts.len() ==> deleted_at(deleted, at),
    decreases accounts.len(),
{
    let failed = failed_accounts(accounts, deleted);
    if accounts.len() > 0 {
        let shorter = accounts.drop_last();
        let earlier = failed_accounts(shorter, deleted);
        let last = accounts.len() - 1;
        lemma_failed_accounts(shorter, deleted);
        assert forall|at: int| 0 <= at < accounts.len() && !deleted_at(deleted, at) implies failed.contains(
            #[trigger] accounts[at],
        ) by {
            if at < last {
                assert(shorter[at] == accounts[at]);
                assert(earlier.contains(shorter[at]));
                let k = choose|k: int| 0 <= k < earlier.len() && earlier[k] == shorter[at];
                assert(failed[k] == accounts[at]);
            } else {
                assert(failed[earlier.len() as int] == accounts[at]);
            }
        }
        assert forall|account: Seq<char>| #[trigger] failed.contains(account) implies exists|at: int|
            0 <= at < accounts.len() && !deleted_at(deleted, at) && accounts[at] == account by {
            let k = choose|k: int| 0 <= k < failed.len() && failed[k] == account;
            if k < earlier.len() {
                assert(earlier[k] == account);
                assert(earlier.contains(account));
                let at = choose|at: int|
                    0 <= at < shorter.len() && !deleted_at(deleted, at) && shorter[at] == account;
                assert(accounts[at] == account);
            } else {
                assert(accounts[last] == account);
            }
        }
        if failed.len() == 0 {
            assert forall|at: int| 0 <= at < accounts.len() implies deleted_at(deleted, at) by {
                if at < last {
                    assert(0 <= at < shorter.len());
                }
            }
        }
    }
}

/// The failed accounts keep the order of the ledger: the failures among
/// the first `n` accounts are the beginning of the failures among all.
pub proof fn lemma_failed_accounts_in_order(accounts: Seq<Seq<char>>, deleted: Seq<bool>, n: int)
    requires
        0 <= n <= accounts.len(),
    ensures
        failed_accounts(accounts.take(n), deleted).len() <= failed_accounts(accounts, deleted).len(),
        failed_accounts(accounts.take(n), deleted) == failed_accounts(accounts, deleted).take(
            failed_accounts(accounts.take(n), deleted).len() as int,
        ),
    decreases accounts.len() - n,
{
    if n < accounts.len() {
        lemma_failed_accounts_in_order(accounts, deleted, n + 1);
        assert(accounts.take(n + 1).drop_last() == accounts.take(n));
        let shorter = failed_accounts(accounts.take(n), deleted);
        let longer = failed_accounts(accounts.take(n + 1), deleted);
        let all = failed_accounts(accounts, deleted);
        assert(shorter.len() <= longer.len());
        assert(shorter == longer.take(shorter.len() as int));
        assert(all.take(longer.len() as int).take(shorter.len() as int) == all.take(
            shorter.len() as int,
        ));
    } else {
        assert(accounts.take(n) == accounts);
        let all = failed_accounts(accounts, deleted);
        assert(all.take(all.len() as int) == all);
    }
}

/// The key pair goes only when every stack is gone: the teardown asks to
/// delete it only after a reply to the deletion of the role stacks in which
/// every account of the ledger has its flag set.
pub proof fn lemma_key_pair_goes_last(run: UninstallModel, reply: ReplyModel)
    requires
        uninstall_after(run, reply) is DeletingKeyPair,
    ensures
        run matches UninstallModel::DeletingRoles { config } && forall|at: int|
            0 <= at < config.sub_accounts.len() ==> deleted_at(deletions(reply), at),
{
    match run {
        UninstallModel::DeletingRoles { config } => {
            lemma_failed_accounts(numbers(config.sub_accounts), deletions(reply));
        },
        _ => {},
    }
}

/// A teardown makes a request exactly while it has not ended, and one that
/// has ended is changed by no reply.
pub proof fn lemma_uninstall_ended_is_final(run: UninstallModel, reply: ReplyModel)
    ensures
        uninstall_request(run) is None <==> uninstall_outcome(run) is Some,
        uninstall_outcome(run) is Some ==> uninstall_after(run, reply) == run,
{
}

} // verus!
