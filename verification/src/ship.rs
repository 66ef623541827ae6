//! Shipping a build context: pack what the ignore file lets through, write
//! the script that builds and pushes the image, send both to the build host
//! and run the script there.

use crate::docker_ignore::{rules_of, unmatched, DockerIgnore};
use crate::provider::{complaint, Reply, ReplyModel, Request, RequestModel};
use crate::text::{join, join_strings, lemma_first_index, split, split_str};
use crate::trust::{role_arn, trust_role_arn};
use vstd::prelude::*;
use vstd::string::*;

verus! {

/// Why a build context could not be shipped.
#[derive(Debug, PartialEq)]
pub enum ShipError {
    NoDockerIgnore,
    RegistryUriMalformed,
    ArchiveCreationFailed(String),
    ScriptCreateFailed,
    ConfigFileNotOpened,
    ScriptExitCodeError(String),
    SendFileError(String),
}

/// What a [`ShipError`] holds.
pub enum ShipErrorModel {
    NoDockerIgnore,
    RegistryUriMalformed,
    ArchiveCreationFailed(Seq<char>),
    ScriptCreateFailed,
    ConfigFileNotOpened,
    ScriptExitCodeError(Seq<char>),
    SendFileError(Seq<char>),
}

impl View for ShipError {
    type V = ShipErrorModel;

    open spec fn view(&self) -> ShipErrorModel {
        match self {
            ShipError::NoDockerIgnore => ShipErrorModel::NoDockerIgnore,
            ShipError::RegistryUriMalformed => ShipErrorModel::RegistryUriMalformed,
            ShipError::ArchiveCreationFailed(text) => ShipErrorModel::ArchiveCreationFailed(text@),
            ShipError::ScriptCreateFailed => ShipErrorModel::ScriptCreateFailed,
            ShipError::ConfigFileNotOpened => ShipErrorModel::ConfigFileNotOpened,
            ShipError::ScriptExitCodeError(text) => ShipErrorModel::ScriptExitCodeError(text@),
            ShipError::SendFileError(text) => ShipErrorModel::SendFileError(text@),
        }
    }
}

/// The account that a registry belongs to: what stands before the first dot
/// of its address, or all of it where it has no dot.
pub open spec fn registry_account(registry_uri: Seq<char>) -> Seq<char> {
    split(registry_uri, '.')[0]
}

/// The arguments for the build, with blanks between them; nothing where
/// none were given.
pub open spec fn build_arguments(additional_args: Option<Seq<Seq<char>>>) -> Seq<char> {
    match additional_args {
        Some(args) => join(args, " "@),
        None => Seq::empty(),
    }
}

/// The lines of the script that builds the image on the build host and
/// pushes it under the role of the target account.
pub open spec fn script_lines(
    target_account: Seq<char>,
    registry_uri: Seq<char>,
    additional_args: Option<Seq<Seq<char>>>,
    tag: Seq<char>,
) -> Seq<Seq<char>> {
    seq![
        "#!/bin/bash -eux"@,
        "mkdir archive"@,
        "tar -xzvf archive.tar.gz -C archive"@,
        "cd archive"@,
        "aws configure set profile.target_profile.role_arn "@ + trust_role_arn(target_account),
        "aws configure set profile.target_profile.credential_source Ec2InstanceMetadata"@,
        "aws ecr get-login-password --profile target_profile --region us-east-1 | docker login --username AWS --password-stdin "@
            + registry_uri,
        "docker build -t "@ + registry_uri + " "@ + build_arguments(additional_args) + " ."@,
        "docker push "@ + registry_uri + ":"@ + tag,
        "cd .."@,
        "rm -rf archive"@,
    ]
}

/// The text of the build script: its lines with a line feed between each
/// two.
pub open spec fn script_text(
    target_account: Seq<char>,
    registry_uri: Seq<char>,
    additional_args: Option<Seq<Seq<char>>>,
    tag: Seq<char>,
) -> Seq<char> {
    join(script_lines(target_account, registry_uri, additional_args, tag), "\n"@)
}

/// The account that a registry belongs to.
pub fn account_of_registry(registry_uri: &str) -> (account: String)
    ensures
        account@ == registry_account(registry_uri@),
{
    let mut pieces = split_str(registry_uri, '.');
    proof {
        lemma_first_index(registry_uri@, '.');
    }
    pieces.swap_remove(0)
}

/// Writes the build script.
pub fn create_script(
    target_account: String,
    registry_uri: String,
    additional_args: Option<Vec<String>>,
    tag: String,
) -> (script: String)
    ensures
        script@ == script_text(target_account@, registry_uri@, additional_args.deep_view(), tag@),
{
    let build_args = match &additional_args {
        Some(args) => join_strings(args, " "),
        None => String::new(),
    };
    let uri = registry_uri.as_str();
    let mut script: Vec<String> = Vec::new();
    script.push(String::from_str("#!/bin/bash -eux"));
    script.push(String::from_str("mkdir archive"));
    script.push(String::from_str("tar -xzvf archive.tar.gz -C archive"));
    script.push(String::from_str("cd archive"));
    script.push(
        String::from_str("aws configure set profile.target_profile.role_arn ").concat(
            role_arn(target_account.as_str()).as_str(),
        ),
    );
    script.push(
        String::from_str(
            "aws configure set profile.target_profile.credential_source Ec2InstanceMetadata",
        ),
    );
    script.push(
        String::from_str(
            "aws ecr get-login-password --profile target_profile --region us-east-1 | docker login --username AWS --password-stdin ",
        ).concat(uri),
    );
    script.push(
        String::from_str("docker build -t ").concat(uri).concat(" ").concat(
            build_args.as_str(),
        ).concat(" ."),
    );
    script.push(String::from_str("docker push ").concat(uri).concat(":").concat(tag.as_str()));
    script.push(String::from_str("cd .."));
    script.push(String::from_str("rm -rf archive"));
    assert(script.deep_view() == script_lines(
        target_account@,
        registry_uri@,
        additional_args.deep_view(),
        tag@,
    ));
    join_strings(&script, "\n")
}

/// Where a shipping stands.
pub enum ShipStep {
    ListingFiles,
    ReadingIgnore { files: Vec<String> },
    Archiving,
    WritingScript,
    LoadingConfig,
    SendingArchive { address: String },
    SendingScript { address: String },
    Running { address: String },
    Succeeded,
    Failed { error: ShipError },
}

/// What a [`ShipStep`] holds.
pub enum ShipStepModel {
    ListingFiles,
    ReadingIgnore { files: Seq<Seq<char>> },
    Archiving,
    WritingScript,
    LoadingConfig,
    SendingArchive { address: Seq<char> },
    SendingScript { address: Seq<char> },
    Running { address: Seq<char> },
    Succeeded,
    Failed { error: ShipErrorModel },
}

impl View for ShipStep {
    type V = ShipStepModel;

    open spec fn view(&self) -> ShipStepModel {
        match self {
            ShipStep::ListingFiles => ShipStepModel::ListingFiles,
            ShipStep::ReadingIgnore { files } => ShipStepModel::ReadingIgnore {
                files: files.deep_view(),
            },
            ShipStep::Archiving => ShipStepModel::Archiving,
            ShipStep::WritingScript => ShipStepModel::WritingScript,
            ShipStep::LoadingConfig => ShipStepModel::LoadingConfig,
            ShipStep::SendingArchive { address } => ShipStepModel::SendingArchive {
                address: address@,
            },
            ShipStep::SendingScript { address } => ShipStepModel::SendingScript { address: address@ },
            ShipStep::Running { address } => ShipStepModel::Running { address: address@ },
            ShipStep::Succeeded => ShipStepModel::Succeeded,
            ShipStep::Failed { error } => ShipStepModel::Failed { error: error@ },
        }
    }
}

/// A shipping under way.
pub struct Ship {
    path: String,
    registry_uri: String,
    additional_args: Option<Vec<String>>,
    tag: String,
    /// The files to pack, once the ignore file has been applied.
    files: Vec<String>,
    step: ShipStep,
}

/// What a [`Ship`] holds.
pub struct ShipModel {
    pub path: Seq<char>,
    pub registry_uri: Seq<char>,
    pub additional_args: Option<Seq<Seq<char>>>,
    pub tag: Seq<char>,
    pub files: Seq<Seq<char>>,
    pub step: ShipStepModel,
}

impl View for Ship {
    type V = ShipModel;

    closed spec fn view(&self) -> ShipModel {
        ShipModel {
            path: self.path@,
            registry_uri: self.registry_uri@,
            additional_args: self.additional_args.deep_view(),
            tag: self.tag@,
            files: self.files.deep_view(),
            step: self.step@,
        }
    }
}

/// The request that the shipping waits for, or `None` once it has ended.
pub open spec fn ship_request(run: ShipModel) -> Option<RequestModel> {
    match run.step {
        ShipStepModel::ListingFiles => Some(RequestModel::ListFiles { directory: run.path }),
        ShipStepModel::ReadingIgnore { files } => Some(
            RequestModel::ReadIgnoreFile { directory: run.path },
        ),
        ShipStepModel::Archiving => Some(
            RequestModel::WriteArchive { directory: run.path, files: run.files },
        ),
        ShipStepModel::WritingScript => Some(
            RequestModel::WriteScript {
                text: script_text(
                    registry_account(run.registry_uri),
                    run.registry_uri,
                    run.additional_args,
                    run.tag,
                ),
            },
        ),
        ShipStepModel::LoadingConfig => Some(RequestModel::LoadConfig),
        ShipStepModel::SendingArchive { address } => Some(
            RequestModel::SendFile {
                address,
                local: "archive.tar.gz"@,
                remote: "archive.tar.gz"@,
            },
        ),
        ShipStepModel::SendingScript { address } => Some(
            RequestModel::SendFile { address, local: "script.sh"@, remote: "script.sh"@ },
        ),
        ShipStepModel::Running { address } => Some(
            RequestModel::RunCommand { address, command: "./script.sh > log"@ },
        ),
        ShipStepModel::Succeeded => None,
        ShipStepModel::Failed { error } => None,
    }
}

/// How the shipping has ended, or `None` while it has not.
pub open spec fn ship_outcome(run: ShipModel) -> Option<Result<(), ShipErrorModel>> {
    match run.step {
        ShipStepModel::Succeeded => Some(Ok(())),
        ShipStepModel::Failed { error } => Some(Err(error)),
        _ => None,
    }
}

/// The shipping after `reply` has answered its pending request. Any reply
/// but those named here fails the step and ends the shipping.
///
/// The files that are packed are those that no rule of the ignore file
/// matches. An ignore file that holds a rule which cannot be compiled may
/// be taken as no ignore file (`rules_usable` tells), so that after the
/// ignore file has been read the shipping either fails with `NoDockerIgnore`
/// or goes on with exactly those files.
pub open spec fn ship_after(run: ShipModel, reply: ReplyModel, rules_usable: bool) -> ShipModel {
    match run.step {
        ShipStepModel::ListingFiles => match reply {
            ReplyModel::Paths { paths } => ShipModel {
                step: ShipStepModel::ReadingIgnore { files: paths },
                ..run
            },
            _ => ShipModel {
                step: ShipStepModel::Failed {
                    error: ShipErrorModel::ArchiveCreationFailed(complaint(reply)),
                },
                ..run
            },
        },
        ShipStepModel::ReadingIgnore { files } => match reply {
            ReplyModel::Text { text } => if rules_usable {
                ShipModel {
                    files: unmatched(files, rules_of(split(text, '\n'))),
                    step: ShipStepModel::Archiving,
                    ..run
                }
            } else {
                ShipModel {
                    step: ShipStepModel::Failed { error: ShipErrorModel::NoDockerIgnore },
                    ..run
                }
            },
            _ => ShipModel {
                step: ShipStepModel::Failed { error: ShipErrorModel::NoDockerIgnore },
                ..run
            },
        },
        ShipStepModel::Archiving => match reply {
            ReplyModel::Done => ShipModel { step: ShipStepModel::WritingScript, ..run },
            _ => ShipModel {
                step: ShipStepModel::Failed {
                    error: ShipErrorModel::ArchiveCreationFailed(complaint(reply)),
                },
                ..run
            },
        },
        ShipStepModel::WritingScript => match reply {
            ReplyModel::Done => ShipModel { step: ShipStepModel::LoadingConfig, ..run },
            _ => ShipModel {
                step: ShipStepModel::Failed { error: ShipErrorModel::ScriptCreateFailed },
                ..run
            },
        },
        ShipStepModel::LoadingConfig => match reply {
            ReplyModel::Settings { config } => ShipModel {
                step: ShipStepModel::SendingArchive { address: config.instance_ip },
                ..run
            },
            _ => ShipModel {
                step: ShipStepModel::Failed { error: ShipErrorModel::ConfigFileNotOpened },
                ..run
            },
        },
        ShipStepModel::SendingArchive { address } => match reply {
            ReplyModel::Done => ShipModel { step: ShipStepModel::SendingScript { address }, ..run },
            _ => ShipModel {
                step: ShipStepModel::Failed {
                    error: ShipErrorModel::SendFileError(complaint(reply)),
                },
                ..run
            },
        },
        ShipStepModel::SendingScript { address } => match reply {
            ReplyModel::Done => ShipModel { step: ShipStepModel::Running { address }, ..run },
            _ => ShipModel {
                step: ShipStepModel::Failed {
                    error: ShipErrorModel::SendFileError(complaint(reply)),
                },
                ..run
            },
        },
        ShipStepModel::Running { address } => match reply {
            ReplyModel::Exited { status } => if status == 0 {
                ShipModel { step: ShipStepModel::Succeeded, ..run }
            } else {
                ShipModel {
                    step: ShipStepModel::Failed {
                        error: ShipErrorModel::ScriptExitCodeError(
                            "Script exited with non zero error code"@,
                        ),
                    },
                    ..run
                }
            },
            _ => ShipModel {
                step: ShipStepModel::Failed {
                    error: ShipErrorModel::ScriptExitCodeError(complaint(reply)),
                },
                ..run
            },
        },
        ShipStepModel::Succeeded => run,
        ShipStepModel::Failed { error } => run,
    }
}

fn copy_strings(items: &Vec<String>) -> (copy: Vec<String>)
    ensures
        copy.deep_view() == items.deep_view(),
{
    let mut copy: Vec<String> = Vec::new();
    let mut i: usize = 0;
    while i < items.len()
        invariant
            0 <= i <= items@.len(),
            copy@.len() == i,
            forall|j: int| 0 <= j < i ==> copy@[j]@ == items@[j]@,
        decreases items@.len() - i,
    {
        copy.push(items[i].clone());
        i = i + 1;
    }
    assert(copy.deep_view() == items.deep_view());
    copy
}

fn copy_arguments(arguments: &Option<Vec<String>>) -> (copy: Option<Vec<String>>)
    ensures
        copy.deep_view() == arguments.deep_view(),
{
    match arguments {
        Some(items) => Some(copy_strings(items)),
        None => None,
    }
}

/// Begins the shipping of the build context at `path` to the registry at
/// `registry_uri`, to be pushed under `tag`. The first request asks for the
/// files of the context.
pub fn ship(path: String, registry_uri: String, additional_args: Option<Vec<String>>, tag: String) -> (run:
    Ship)
    ensures
        run@ == (ShipModel {
            path: path@,
            registry_uri: registry_uri@,
            additional_args: additional_args.deep_view(),
            tag: tag@,
            files: Seq::empty(),
            step: ShipStepModel::ListingFiles,
        }),
{
    let files: Vec<String> = Vec::new();
    assert(files.deep_view() == Seq::<Seq<char>>::empty());
    Ship { path, registry_uri, additional_args, tag, files, step: ShipStep::ListingFiles }
}

impl Ship {
    /// The request to make next, or `None` once the shipping has ended.
    pub fn pending(&self) -> (request: Option<Request>)
        ensures
            request.deep_view() == ship_request(self@),
    {
        match &self.step {
            ShipStep::ListingFiles => Some(Request::ListFiles { directory: self.path.clone() }),
            ShipStep::ReadingIgnore { files } => Some(
                Request::ReadIgnoreFile { directory: self.path.clone() },
            ),
            ShipStep::Archiving => Some(
                Request::WriteArchive {
                    directory: self.path.clone(),
                    files: copy_strings(&self.files),
                },
            ),
            ShipStep::WritingScript => Some(
                Request::WriteScript {
                    text: create_script(
                        account_of_registry(self.registry_uri.as_str()),
                        self.registry_uri.clone(),
                        copy_arguments(&self.additional_args),
                        self.tag.clone(),
                    ),
                },
            ),
            ShipStep::LoadingConfig => Some(Request::LoadConfig),
            ShipStep::SendingArchive { address } => Some(
                Request::SendFile {
                    address: address.clone(),
                    local: String::from_str("archive.tar.gz"),
                    remote: String::from_str("archive.tar.gz"),
                },
            ),
            ShipStep::SendingScript { address } => Some(
                Request::SendFile {
                    address: address.clone(),
                    local: String::from_str("script.sh"),
                    remote: String::from_str("script.sh"),
                },
            ),
            ShipStep::Running { address } => Some(
                Request::RunCommand {
                    address: address.clone(),
                    command: String::from_str("./script.sh > log"),
                },
            ),
            ShipStep::Succeeded => None,
            ShipStep::Failed { error } => None,
        }
    }

    /// Whether the shipping has ended.
    pub fn is_finished(&self) -> (ended: bool)
        ensures
            ended == ship_outcome(self@) is Some,
    {
        match &self.step {
            ShipStep::Succeeded => true,
            ShipStep::Failed { error } => true,
            _ => false,
        }
    }

    /// How the shipping has ended; `None` while it has not.
    pub fn into_outcome(self) -> (outcome: Option<Result<(), ShipError>>)
        ensures
            match outcome {
                None => ship_outcome(self@) is None,
                Some(Ok(_)) => ship_outcome(self@) == Some(Ok::<(), ShipErrorModel>(())),
                Some(Err(error)) => ship_outcome(self@) == Some(Err::<(), ShipErrorModel>(error@)),
            },
    {
        match self.step {
            ShipStep::Succeeded => Some(Ok(())),
            ShipStep::Failed { error } => Some(Err(error)),
            _ => None,
        }
    }

    /// Takes the reply to the pending request and moves on.
    ///
    /// After the ignore file has been read, the shipping goes on with the
    /// files that no rule matches, or fails with `NoDockerIgnore`; it may
    /// fail so only if the ignore file holds a rule and the context a file.
    pub fn advance(self, reply: Reply) -> (next: Ship)
        ensures
            next@ == ship_after(self@, reply@, true) || next@ == ship_after(self@, reply@, false),
            !(self@.step is ReadingIgnore) ==> next@ == ship_after(self@, reply@, true),
            self@.step matches ShipStepModel::ReadingIgnore { files } && reply@ matches ReplyModel::Text {
                text,
            } && (files.len() == 0 || rules_of(split(text, '\n')).len() == 0) ==> next@
                == ship_after(self@, reply@, true),
    {
        let Ship { path, registry_uri, additional_args, tag, files, step } = self;
        let (files, step) = match step {
            ShipStep::ListingFiles => match reply {
                Reply::Paths { paths } => (files, ShipStep::ReadingIgnore { files: paths }),
                other => (
                    files,
                    ShipStep::Failed {
                        error: ShipError::ArchiveCreationFailed(other.into_complaint()),
                    },
                ),
            },
            ShipStep::ReadingIgnore { files: listed } => match reply {
                Reply::Text { text } => {
                    let ignore = DockerIgnore::new(text.as_str());
                    match ignore.filter_files(&listed) {
                        Some(kept) => (kept, ShipStep::Archiving),
                        None => (files, ShipStep::Failed { error: ShipError::NoDockerIgnore }),
                    }
                },
                _ => (files, ShipStep::Failed { error: ShipError::NoDockerIgnore }),
            },
            ShipStep::Archiving => match reply {
                Reply::Done => (files, ShipStep::WritingScript),
                other => (
                    files,
                    ShipStep::Failed {
                        error: ShipError::ArchiveCreationFailed(other.into_complaint()),
                    },
                ),
            },
            ShipStep::WritingScript => match reply {
                Reply::Done => (files, ShipStep::LoadingConfig),
                _ => (files, ShipStep::Failed { error: ShipError::ScriptCreateFailed }),
            },
            ShipStep::LoadingConfig => match reply {
                Reply::Settings { config } => (
                    files,
                    ShipStep::SendingArchive { address: config.get_instance_ip() },
                ),
                _ => (files, ShipStep::Failed { error: ShipError::ConfigFileNotOpened }),
            },
            ShipStep::SendingArchive { address } => match reply {
                Reply::Done => (files, ShipStep::SendingScript { address }),
                other => (
                    files,
                    ShipStep::Failed { error: ShipError::SendFileError(other.into_complaint()) },
                ),
            },
            ShipStep::SendingScript { address } => match reply {
                Reply::Done => (files, ShipStep::Running { address }),
                other => (
                    files,
                    ShipStep::Failed { error: ShipError::SendFileError(other.into_complaint()) },
                ),
            },
            ShipStep::Running { address } => match reply {
                Reply::Exited { status } => if status == 0 {
                    (files, ShipStep::Succeeded)
                } else {
                    (
                        files,
                        ShipStep::Failed {
                            error: ShipError::ScriptExitCodeError(
                                String::from_str("Script exited with non zero error code"),
                            ),
                        },
                    )
                },
                other => (
                    files,
                    ShipStep::Failed {
                        error: ShipError::ScriptExitCodeError(other.into_complaint()),
                    },
                ),
            },
            ShipStep::Succeeded => (files, ShipStep::Succeeded),
            ShipStep::Failed { error } => (files, ShipStep::Failed { error }),
        };
        Ship { path, registry_uri, additional_args, tag, files, step }
    }
}

/// A shipping makes a request exactly while it has not ended, and one that
/// has ended is changed by no reply.
pub proof fn lemma_ship_ended_is_final(run: ShipModel, reply: ReplyModel, rules_usable: bool)
    ensures
        ship_request(run) is None <==> ship_outcome(run) is Some,
        ship_outcome(run) is Some ==> ship_after(run, reply, rules_usable) == run,
{
}

/// Nothing is sent before the archive and the script are written, and the
/// script is run only after both have been sent.
pub proof fn lemma_ship_runs_last(run: ShipModel, reply: ReplyModel, rules_usable: bool)
    requires
        ship_after(run, reply, rules_usable).step is Running,
    ensures
        run.step is SendingScript,
        reply is Done,
{
}

} // verus!
