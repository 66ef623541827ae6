//! The exchange between a workflow and its surroundings. A workflow decides;
//! it does not call a provider or touch a file. It names the one thing it
//! needs done next as a [`Request`], and is told how that went in a [`Reply`].

use crate::ami::{AmiCandidate, AmiCandidateModel};
use crate::config::{Config, ConfigModel};
use crate::stack::{
    Elapsed, ParameterModel, SimpleParameter, StackEvent, StackEventModel, UpdateParameter,
    UpdateParameterModel,
};
use crate::tag::{Tag, TagModel};
use vstd::prelude::*;
use vstd::string::*;

verus! {

/// One thing for the surroundings to do. Requests that go to a provider name
/// the credential profile to use.
#[derive(Debug, PartialEq)]
pub enum Request {
    /// Report whether the working directory exists: `Done` or `Missing`.
    ProbeWorkingDir,
    /// Create the working directory.
    CreateWorkingDir,
    /// Create a key pair with the instance provider; `Text` carries the
    /// private key.
    CreateKeyPair { profile: String, key_name: String },
    /// Report whether the private-key file exists: `Done` or `Missing`.
    ProbeKeyFile,
    /// Write the private-key file, readable by its owner only.
    StoreKey { key_material: String },
    /// List the machine images of that owner whose name and state match:
    /// `Images`.
    DescribeImages { profile: String, name: String, state: String, owner: String },
    /// Read a stack template: `Text` carries its body.
    ReadTemplate { path: String },
    /// Ask the identity provider for the account number: `Text`.
    GetCallerIdentity { profile: String },
    /// Submit a stack for creation: `Done`, or `AlreadyExists`.
    CreateStack {
        profile: String,
        stack_name: String,
        template: String,
        parameters: Vec<SimpleParameter>,
        tags: Vec<Tag>,
    },
    /// Wait `delay` seconds, then fetch the stack's event history: `Events`,
    /// with the time gone by since the first fetch was asked for.
    DescribeStackEvents { profile: String, stack_name: String, delay: u64 },
    /// Update a stack in place, with its previous template.
    UpdateStack { profile: String, stack_name: String, updates: Vec<UpdateParameter> },
    /// Ask for the physical id of a resource of a stack: `Text`.
    DescribeStackResource { profile: String, stack_name: String, logical_id: String },
    /// Wait `delay` seconds, then describe an instance: `Instances`.
    DescribeInstances { profile: String, instance_id: String, delay: u64 },
    StartInstances { profile: String, instance_id: String },
    StopInstances { profile: String, instance_id: String },
    DeleteStack { profile: String, stack_name: String },
    /// Delete the stack of that name under each of the profiles, all at once,
    /// and wait for all of them: `Deletions`, one flag for each profile, in
    /// the same order.
    DeleteStacks { profiles: Vec<String>, stack_name: String },
    DeleteKeyPair { profile: String, key_name: String },
    /// Remove the settings file and the private-key file.
    RemoveLocalFiles,
    /// Read the persisted settings: `Settings`.
    LoadConfig,
    /// Persist the settings.
    StoreConfig { config: Config },
    /// List the files below a directory, at any depth: `Paths`.
    ListFiles { directory: String },
    /// Read the ignore file of a directory: `Text` carries its contents.
    ReadIgnoreFile { directory: String },
    /// Pack the files, named relative to the directory, into the archive.
    WriteArchive { directory: String, files: Vec<String> },
    /// Write the build script and make it executable.
    WriteScript { text: String },
    /// Copy a local file to the host at `address`.
    SendFile { address: String, local: String, remote: String },
    /// Run a command on the host at `address` and wait for it: `Exited`.
    RunCommand { address: String, command: String },
}

/// What a [`Request`] holds.
pub enum RequestModel {
    ProbeWorkingDir,
    CreateWorkingDir,
    CreateKeyPair { profile: Seq<char>, key_name: Seq<char> },
    ProbeKeyFile,
    StoreKey { key_material: Seq<char> },
    DescribeImages { profile: Seq<char>, name: Seq<char>, state: Seq<char>, owner: Seq<char> },
    ReadTemplate { path: Seq<char> },
    GetCallerIdentity { profile: Seq<char> },
    CreateStack {
        profile: Seq<char>,
        stack_name: Seq<char>,
        template: Seq<char>,
        parameters: Seq<ParameterModel>,
        tags: Seq<TagModel>,
    },
    DescribeStackEvents { profile: Seq<char>, stack_name: Seq<char>, delay: u64 },
    UpdateStack { profile: Seq<char>, stack_name: Seq<char>, updates: Seq<UpdateParameterModel> },
    DescribeStackResource { profile: Seq<char>, stack_name: Seq<char>, logical_id: Seq<char> },
    DescribeInstances { profile: Seq<char>, instance_id: Seq<char>, delay: u64 },
    StartInstances { profile: Seq<char>, instance_id: Seq<char> },
    StopInstances { profile: Seq<char>, instance_id: Seq<char> },
    DeleteStack { profile: Seq<char>, stack_name: Seq<char> },
    DeleteStacks { profiles: Seq<Seq<char>>, stack_name: Seq<char> },
    DeleteKeyPair { profile: Seq<char>, key_name: Seq<char> },
    RemoveLocalFiles,
    LoadConfig,
    StoreConfig { config: ConfigModel },
    ListFiles { directory: Seq<char> },
    ReadIgnoreFile { directory: Seq<char> },
    WriteArchive { directory: Seq<char>, files: Seq<Seq<char>> },
    WriteScript { text: Seq<char> },
    SendFile { address: Seq<char>, local: Seq<char>, remote: Seq<char> },
    RunCommand { address: Seq<char>, command: Seq<char> },
}

impl View for Request {
    type V = RequestModel;

    open spec fn view(&self) -> RequestModel {
        match self {
            Request::ProbeWorkingDir => RequestModel::ProbeWorkingDir,
            Request::CreateWorkingDir => RequestModel::CreateWorkingDir,
            Request::CreateKeyPair { profile, key_name } => RequestModel::CreateKeyPair {
                profile: profile@,
                key_name: key_name@,
            },
            Request::ProbeKeyFile => RequestModel::ProbeKeyFile,
            Request::StoreKey { key_material } => RequestModel::StoreKey {
                key_material: key_material@,
            },
            Request::DescribeImages { profile, name, state, owner } => RequestModel::DescribeImages {
                profile: profile@,
                name: name@,
                state: state@,
                owner: owner@,
            },
            Request::ReadTemplate { path } => RequestModel::ReadTemplate { path: path@ },
            Request::GetCallerIdentity { profile } => RequestModel::GetCallerIdentity {
                profile: profile@,
            },
            Request::CreateStack {
                profile,
                stack_name,
                template,
                parameters,
                tags,
            } => RequestModel::CreateStack {
                profile: profile@,
                stack_name: stack_name@,
                template: template@,
                parameters: parameters.deep_view(),
                tags: tags.deep_view(),
            },
            Request::DescribeStackEvents {
                profile,
                stack_name,
                delay,
            } => RequestModel::DescribeStackEvents {
                profile: profile@,
                stack_name: stack_name@,
                delay: *delay,
            },
            Request::UpdateStack { profile, stack_name, updates } => RequestModel::UpdateStack {
                profile: profile@,
                stack_name: stack_name@,
                updates: updates.deep_view(),
            },
            Request::DescribeStackResource {
                profile,
                stack_name,
                logical_id,
            } => RequestModel::DescribeStackResource {
                profile: profile@,
                stack_name: stack_name@,
                logical_id: logical_id@,
            },
            Request::DescribeInstances {
                profile,
                instance_id,
                delay,
            } => RequestModel::DescribeInstances {
                profile: profile@,
                instance_id: instance_id@,
                delay: *delay,
            },
            Request::StartInstances { profile, instance_id } => RequestModel::StartInstances {
                profile: profile@,
                instance_id: instance_id@,
            },
            Request::StopInstances { profile, instance_id } => RequestModel::StopInstances {
                profile: profile@,
                instance_id: instance_id@,
            },
            Request::DeleteStack { profile, stack_name } => RequestModel::DeleteStack {
                profile: profile@,
                stack_name: stack_name@,
            },
            Request::DeleteStacks { profiles, stack_name } => RequestModel::DeleteStacks {
                profiles: profiles.deep_view(),
                stack_name: stack_name@,
            },
            Request::DeleteKeyPair { profile, key_name } => RequestModel::DeleteKeyPair {
                profile: profile@,
                key_name: key_name@,
            },
            Request::RemoveLocalFiles => RequestModel::RemoveLocalFiles,
            Request::LoadConfig => RequestModel::LoadConfig,
            Request::StoreConfig { config } => RequestModel::StoreConfig { config: config@ },
            Request::ListFiles { directory } => RequestModel::ListFiles { directory: directory@ },
            Request::ReadIgnoreFile { directory } => RequestModel::ReadIgnoreFile {
                directory: directory@,
            },
            Request::WriteArchive { directory, files } => RequestModel::WriteArchive {
                directory: directory@,
                files: files.deep_view(),
            },
            Request::WriteScript { text } => RequestModel::WriteScript { text: text@ },
            Request::SendFile { address, local, remote } => RequestModel::SendFile {
                address: address@,
                local: local@,
                remote: remote@,
            },
            Request::RunCommand { address, command } => RequestModel::RunCommand {
                address: address@,
                command: command@,
            },
        }
    }
}

impl DeepView for Request {
    type V = RequestModel;

    open spec fn deep_view(&self) -> RequestModel {
        self@
    }
}

/// How a request went. Each request has the forms of reply that it expects;
/// a workflow takes any other reply to mean that the request failed.
#[derive(Debug, PartialEq)]
pub enum Reply {
    /// It was done; or, to a probe, the thing is there.
    Done,
    /// To a probe: the thing is not there.
    Missing,
    /// The stack to create exists already.
    AlreadyExists,
    /// It failed, and this is what the provider or the system said.
    Failed { message: String },
    Text { text: String },
    Images { images: Vec<AmiCandidate> },
    Events { events: Vec<StackEvent>, elapsed: Elapsed },
    /// The public address, where it has one, of each instance of each
    /// reservation.
    Instances { reservations: Vec<Vec<Option<String>>> },
    Deletions { deleted: Vec<bool> },
    Settings { config: Config },
    Paths { paths: Vec<String> },
    /// The command ran and ended with this status.
    Exited { status: i32 },
}

/// What a [`Reply`] holds.
pub enum ReplyModel {
    Done,
    Missing,
    AlreadyExists,
    Failed { message: Seq<char> },
    Text { text: Seq<char> },
    Images { images: Seq<AmiCandidateModel> },
    Events { events: Seq<StackEventModel>, elapsed: Elapsed },
    Instances { reservations: Seq<Seq<Option<Seq<char>>>> },
    Deletions { deleted: Seq<bool> },
    Settings { config: ConfigModel },
    Paths { paths: Seq<Seq<char>> },
    Exited { status: i32 },
}

impl View for Reply {
    type V = ReplyModel;

    open spec fn view(&self) -> ReplyModel {
        match self {
            Reply::Done => ReplyModel::Done,
            Reply::Missing => ReplyModel::Missing,
            Reply::AlreadyExists => ReplyModel::AlreadyExists,
            Reply::Failed { message } => ReplyModel::Failed { message: message@ },
            Reply::Text { text } => ReplyModel::Text { text: text@ },
            Reply::Images { images } => ReplyModel::Images { images: images.deep_view() },
            Reply::Events { events, elapsed } => ReplyModel::Events {
                events: events.deep_view(),
                elapsed: *elapsed,
            },
            Reply::Instances { reservations } => ReplyModel::Instances {
                reservations: reservations.deep_view(),
            },
            Reply::Deletions { deleted } => ReplyModel::Deletions { deleted: deleted@ },
            Reply::Settings { config } => ReplyModel::Settings { config: config@ },
            Reply::Paths { paths } => ReplyModel::Paths { paths: paths.deep_view() },
            Reply::Exited { status } => ReplyModel::Exited { status: *status },
        }
    }
}

/// What a failed request said: the message of a `Failed` reply, and nothing
/// for a reply of any other form.
pub open spec fn complaint(reply: ReplyModel) -> Seq<char> {
    match reply {
        ReplyModel::Failed { message } => message,
        _ => Seq::empty(),
    }
}

impl Reply {
    /// The message of a reply that is taken as a failure.
    pub fn into_complaint(self) -> (message: String)
        ensures
            message@ == complaint(self@),
    {
        match self {
            Reply::Failed { message } => message,
            _ => String::new(),
        }
    }
}

/// The instances of all reservations, in order.
pub open spec fn all_instances(reservations: Seq<Seq<Option<Seq<char>>>>) -> Seq<Option<Seq<char>>>
    decreases reservations.len(),
{
    if reservations.len() == 0 {
        Seq::empty()
    } else {
        all_instances(reservations.drop_last()) + reservations.last()
    }
}

/// The public address of the first instance of all, if there is an instance
/// and it has an address.
pub open spec fn first_address(reservations: Seq<Seq<Option<Seq<char>>>>) -> Option<Seq<char>> {
    let instances = all_instances(reservations);
    if instances.len() == 0 {
        None
    } else {
        instances[0]
    }
}

/// Reads the public address of the first instance out of a description. A
/// reservation without instances is passed over. The answer is `None` where
/// there is no instance at all or the first one has no public address.
pub fn first_public_ip(reservations: &Vec<Vec<Option<String>>>) -> (address: Option<String>)
    ensures
        address.deep_view() == first_address(reservations.deep_view()),
{
    let ghost model = reservations.deep_view();
    let mut i: usize = 0;
    proof {
        assert(model.take(0) == Seq::<Seq<Option<Seq<char>>>>::empty());
    }
    while i < reservations.len()
        invariant
            0 <= i <= reservations@.len(),
            model == reservations.deep_view(),
            all_instances(model.take(i as int)).len() == 0,
        decreases reservations@.len() - i,
    {
        let instances = &reservations[i];
        proof {
            assert(model.take(i + 1).drop_last() == model.take(i as int));
            assert(model.take(i + 1).last() == instances.deep_view());
            assert(all_instances(model.take(i + 1)) == instances.deep_view());
        }
        if instances.len() > 0 {
            proof {
                lemma_first_of_prefix(model, i + 1);
                assert(instances.deep_view()[0] == instances@[0].deep_view());
            }
            return instances[0].clone();
        }
        i = i + 1;
    }
    proof {
        assert(model.take(i as int) == model);
    }
    None
}

/// Once a prefix of the reservations holds an instance, the first instance
/// of the prefix is the first instance of all.
pub proof fn lemma_first_of_prefix(reservations: Seq<Seq<Option<Seq<char>>>>, n: int)
    requires
        0 <= n <= reservations.len(),
        all_instances(reservations.take(n)).len() > 0,
    ensures
        all_instances(reservations).len() > 0,
        all_instances(reservations)[0] == all_instances(reservations.take(n))[0],
    decreases reservations.len() - n,
{
    if n < reservations.len() {
        assert(reservations.take(n + 1).drop_last() == reservations.take(n));
        lemma_first_of_prefix(reservations, n + 1);
    } else {
        assert(reservations.take(n) == reservations);
    }
}

} // verus!
