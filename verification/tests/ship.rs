use cbuilder::config::Config;
use cbuilder::connect::{connect, create_error_msg};
use cbuilder::provider::{Reply, Request};
use cbuilder::ship::{account_of_registry, create_script, ship, Ship, ShipError};

fn owned(items: &[&str]) -> Vec<String> {
    items.iter().map(|item| item.to_string()).collect()
}

fn failed(message: &str) -> Reply {
    Reply::Failed { message: message.to_owned() }
}

const URI: &str = "123456789012.dkr.ecr.us-east-1.amazonaws.com/app";

#[test]
fn the_account_stands_before_the_first_dot() {
    assert_eq!(account_of_registry(URI), "123456789012");
    assert_eq!(account_of_registry("localhost"), "localhost");
    assert_eq!(account_of_registry(".x"), "");
    assert_eq!(account_of_registry(""), "");
}

#[test]
fn create_script_writes_the_build_script() {
    let script = create_script(
        "123456789012".to_owned(),
        URI.to_owned(),
        Some(owned(&["--build-arg", "A=1"])),
        "v2".to_owned(),
    );
    let expected = "#!/bin/bash -eux\n\
mkdir archive\n\
tar -xzvf archive.tar.gz -C archive\n\
cd archive\n\
aws configure set profile.target_profile.role_arn arn:aws:iam::123456789012:role/ContainerBuilderPushRole\n\
aws configure set profile.target_profile.credential_source Ec2InstanceMetadata\n\
aws ecr get-login-password --profile target_profile --region us-east-1 | docker login --username AWS --password-stdin 123456789012.dkr.ecr.us-east-1.amazonaws.com/app\n\
docker build -t 123456789012.dkr.ecr.us-east-1.amazonaws.com/app --build-arg A=1 .\n\
docker push 123456789012.dkr.ecr.us-east-1.amazonaws.com/app:v2\n\
cd ..\n\
rm -rf archive";
    assert_eq!(script, expected);
}

#[test]
fn create_script_without_build_arguments() {
    let script = create_script("1".to_owned(), "1.example/app".to_owned(), None, "latest".to_owned());
    assert!(script.contains("\ndocker build -t 1.example/app  .\n"));
    assert!(script.ends_with("\ndocker push 1.example/app:latest\ncd ..\nrm -rf archive"));
    assert_eq!(script.lines().count(), 11);
}

fn drive(fault: &dyn Fn(&Request) -> Option<Reply>) -> (Result<(), ShipError>, Vec<Request>) {
    let mut run: Ship = ship("ctx".to_owned(), URI.to_owned(), None, "latest".to_owned());
    let mut asked = Vec::new();
    while let Some(request) = run.pending() {
        let reply = match fault(&request) {
            Some(reply) => reply,
            None => match &request {
                Request::ListFiles { .. } => Reply::Paths {
                    paths: owned(&["ctx/Dockerfile", "ctx/target/app", "ctx/src/main.rs"]),
                },
                Request::ReadIgnoreFile { .. } => Reply::Text { text: "# build output\ntarget\n".to_owned() },
                Request::WriteArchive { .. } => Reply::Done,
                Request::WriteScript { .. } => Reply::Done,
                Request::LoadConfig => Reply::Settings {
                    config: Config::new("203.0.113.7".to_owned(), "base".to_owned()),
                },
                Request::SendFile { .. } => Reply::Done,
                Request::RunCommand { .. } => Reply::Exited { status: 0 },
                other => panic!("unexpected request {:?}", other),
            },
        };
        asked.push(request);
        run = run.advance(reply);
        assert!(asked.len() < 100);
    }
    assert!(run.is_finished());
    (run.into_outcome().unwrap(), asked)
}

#[test]
fn ship_packs_sends_and_runs() {
    let (outcome, asked) = drive(&|_| None);
    assert_eq!(outcome, Ok(()));
    let script = create_script("123456789012".to_owned(), URI.to_owned(), None, "latest".to_owned());
    assert_eq!(
        asked,
        vec![
            Request::ListFiles { directory: "ctx".to_owned() },
            Request::ReadIgnoreFile { directory: "ctx".to_owned() },
            Request::WriteArchive {
                directory: "ctx".to_owned(),
                files: owned(&["ctx/Dockerfile", "ctx/src/main.rs"]),
            },
            Request::WriteScript { text: script },
            Request::LoadConfig,
            Request::SendFile {
                address: "203.0.113.7".to_owned(),
                local: "archive.tar.gz".to_owned(),
                remote: "archive.tar.gz".to_owned(),
            },
            Request::SendFile {
                address: "203.0.113.7".to_owned(),
                local: "script.sh".to_owned(),
                remote: "script.sh".to_owned(),
            },
            Request::RunCommand {
                address: "203.0.113.7".to_owned(),
                command: "./script.sh > log".to_owned(),
            },
        ]
    );
}

#[test]
fn ship_stops_at_the_step_that_fails() {
    let cases: Vec<(fn(&Request) -> Option<Reply>, ShipError, usize)> = vec![
        (
            |request| match request {
                Request::ReadIgnoreFile { .. } => Some(failed("not found")),
                _ => None,
            },
            ShipError::NoDockerIgnore,
            2,
        ),
        (
            |request| match request {
                Request::ReadIgnoreFile { .. } => Some(Reply::Text { text: "(".to_owned() }),
                _ => None,
            },
            ShipError::NoDockerIgnore,
            2,
        ),
        (
            |request| match request {
                Request::WriteArchive { .. } => Some(failed("disk full")),
                _ => None,
            },
            ShipError::ArchiveCreationFailed("disk full".to_owned()),
            3,
        ),
        (
            |request| match request {
                Request::WriteScript { .. } => Some(failed("disk full")),
                _ => None,
            },
            ShipError::ScriptCreateFailed,
            4,
        ),
        (
            |request| match request {
                Request::LoadConfig => Some(Reply::Missing),
                _ => None,
            },
            ShipError::ConfigFileNotOpened,
            5,
        ),
        (
            |request| match request {
                Request::SendFile { .. } => Some(failed("connection refused")),
                _ => None,
            },
            ShipError::SendFileError("connection refused".to_owned()),
            6,
        ),
        (
            |request| match request {
                Request::SendFile { local, .. } if local == "script.sh" => Some(failed("broken pipe")),
                _ => None,
            },
            ShipError::SendFileError("broken pipe".to_owned()),
            7,
        ),
        (
            |request| match request {
                Request::RunCommand { .. } => Some(Reply::Exited { status: 2 }),
                _ => None,
            },
            ShipError::ScriptExitCodeError("Script exited with non zero error code".to_owned()),
            8,
        ),
        (
            |request| match request {
                Request::RunCommand { .. } => Some(failed("channel closed")),
                _ => None,
            },
            ShipError::ScriptExitCodeError("channel closed".to_owned()),
            8,
        ),
    ];
    for (fault, expected, requests) in cases {
        let (outcome, asked) = drive(&fault);
        assert_eq!(outcome, Err(expected));
        assert_eq!(asked.len(), requests);
    }
}

#[test]
fn connect_gives_the_ssh_command() {
    assert_eq!(
        connect(Some("/home/u/.cbuilder/ContainerBuilderKey.pem".to_owned()), Some("203.0.113.7".to_owned())),
        "ssh -i /home/u/.cbuilder/ContainerBuilderKey.pem ec2-user@203.0.113.7"
    );
    assert_eq!(connect(None, Some("203.0.113.7".to_owned())), "echo 'Could not find SSH Key'");
    assert_eq!(connect(None, None), "echo 'Could not find SSH Key'");
    assert_eq!(connect(Some("key.pem".to_owned()), None), "echo 'Failed to find IP of instance'");
    assert_eq!(create_error_msg("oops"), "echo 'oops'");
}
