use cbuilder::add_account::{run_add_account, AddAccount, AddAccountError};
use cbuilder::config::Config;
use cbuilder::provider::{Reply, Request};
use cbuilder::stack::{Elapsed, SimpleParameter, StackEvent, UpdateParameter};
use cbuilder::tag::Tag;

fn text(text: &str) -> Reply {
    Reply::Text { text: text.to_owned() }
}

fn failed(message: &str) -> Reply {
    Reply::Failed { message: message.to_owned() }
}

fn settings() -> Config {
    let mut config = Config::new("203.0.113.7".to_owned(), "base".to_owned());
    config.add_account("first".to_owned(), "111".to_owned());
    config
}

fn complete(stack: &str) -> Reply {
    Reply::Events {
        events: vec![StackEvent {
            logical_resource_id: Some(stack.to_owned()),
            resource_status: Some("CREATE_COMPLETE".to_owned()),
        }],
        elapsed: Elapsed { secs: 0, nanos: 0 },
    }
}

fn answer(request: &Request) -> Reply {
    match request {
        Request::LoadConfig => Reply::Settings { config: settings() },
        Request::GetCallerIdentity { profile } => match profile.as_str() {
            "base" => text("999"),
            "second" => text("222"),
            other => panic!("unexpected profile {}", other),
        },
        Request::UpdateStack { .. } => Reply::Done,
        Request::ReadTemplate { .. } => text("role template"),
        Request::CreateStack { .. } => Reply::Done,
        Request::DescribeStackEvents { stack_name, .. } => complete(stack_name),
        Request::StoreConfig { .. } => Reply::Done,
        other => panic!("unexpected request {:?}", other),
    }
}

fn drive(fault: &dyn Fn(&Request) -> Option<Reply>) -> (Result<(), AddAccountError>, Vec<Request>) {
    let mut run: AddAccount =
        run_add_account("second".to_owned(), vec![Tag::new("k".to_owned(), "v".to_owned())]);
    let mut asked = Vec::new();
    while let Some(request) = run.pending() {
        let reply = fault(&request).unwrap_or_else(|| answer(&request));
        asked.push(request);
        run = run.advance(reply);
        assert!(asked.len() < 100);
    }
    assert!(run.is_finished());
    (run.into_outcome().unwrap(), asked)
}

#[test]
fn add_account_grants_then_deploys_then_records() {
    let (outcome, asked) = drive(&|_| None);
    assert_eq!(outcome, Ok(()));
    let mut expected_settings = settings();
    expected_settings.add_account("second".to_owned(), "222".to_owned());
    let roles = "arn:aws:iam::111:role/ContainerBuilderPushRole,\
                 arn:aws:iam::222:role/ContainerBuilderPushRole,\
                 arn:aws:iam::999:role/ContainerBuilderPushRole";
    assert_eq!(
        asked,
        vec![
            Request::LoadConfig,
            Request::GetCallerIdentity { profile: "base".to_owned() },
            Request::GetCallerIdentity { profile: "second".to_owned() },
            Request::UpdateStack {
                profile: "base".to_owned(),
                stack_name: "container-builder".to_owned(),
                updates: vec![
                    UpdateParameter { key: "AmiId".to_owned(), value: None },
                    UpdateParameter { key: "SSHKeyName".to_owned(), value: None },
                    UpdateParameter { key: "AccountRoles".to_owned(), value: Some(roles.to_owned()) },
                ],
            },
            Request::ReadTemplate { path: "resources/role-cfn.yml".to_owned() },
            Request::CreateStack {
                profile: "second".to_owned(),
                stack_name: "container-builder-role".to_owned(),
                template: "role template".to_owned(),
                parameters: vec![SimpleParameter::new("RootAccount".to_owned(), "999".to_owned())],
                tags: vec![Tag::new("k".to_owned(), "v".to_owned())],
            },
            Request::DescribeStackEvents {
                profile: "second".to_owned(),
                stack_name: "container-builder-role".to_owned(),
                delay: 0,
            },
            Request::StoreConfig { config: expected_settings },
        ]
    );
}

#[test]
fn adding_an_account_again_trusts_it_once() {
    let (outcome, asked) = drive(&|request| match request {
        Request::GetCallerIdentity { profile } if profile == "second" => Some(text("111")),
        _ => None,
    });
    assert_eq!(outcome, Ok(()));
    let roles = asked
        .iter()
        .find_map(|request| match request {
            Request::UpdateStack { updates, .. } => updates[2].value.clone(),
            _ => None,
        })
        .unwrap();
    assert_eq!(
        roles,
        "arn:aws:iam::111:role/ContainerBuilderPushRole,arn:aws:iam::999:role/ContainerBuilderPushRole"
    );
    match asked.last().unwrap() {
        Request::StoreConfig { config } => {
            assert_eq!(config.get_account_numbers(), vec!["111".to_owned()]);
            assert_eq!(config.get_account_profile("111".to_owned()), Some("second".to_owned()));
        }
        other => panic!("unexpected request {:?}", other),
    }
}

#[test]
fn add_account_needs_the_settings_of_a_bootstrap() {
    let (outcome, asked) = drive(&|request| match request {
        Request::LoadConfig => Some(Reply::Missing),
        _ => None,
    });
    assert_eq!(outcome, Err(AddAccountError::FailedToLoadConfig));
    assert_eq!(asked.len(), 1);
}

#[test]
fn add_account_failures_leave_the_ledger_alone() {
    let cases: Vec<(fn(&Request) -> Option<Reply>, AddAccountError)> = vec![
        (
            |request| match request {
                Request::GetCallerIdentity { profile } if profile == "base" => Some(failed("expired token")),
                _ => None,
            },
            AddAccountError::FailedGetCurrentAccountNo("expired token".to_owned()),
        ),
        (
            |request| match request {
                Request::GetCallerIdentity { profile } if profile == "second" => {
                    Some(failed("account not found on response"))
                }
                _ => None,
            },
            AddAccountError::FailedGetCurrentAccountNo("account not found on response".to_owned()),
        ),
        (
            |request| match request {
                Request::UpdateStack { .. } => Some(failed("no updates are to be performed")),
                _ => None,
            },
            AddAccountError::FailedUpdateStack("".to_owned()),
        ),
        (
            |request| match request {
                Request::ReadTemplate { .. } => Some(failed("not found")),
                _ => None,
            },
            AddAccountError::FailedCreateNewStack,
        ),
        (
            |request| match request {
                Request::CreateStack { .. } => Some(failed("denied")),
                _ => None,
            },
            AddAccountError::FailedCreateNewStack,
        ),
        (
            |request| match request {
                Request::DescribeStackEvents { .. } => Some(Reply::Events {
                    events: vec![],
                    elapsed: Elapsed { secs: 421, nanos: 0 },
                }),
                _ => None,
            },
            AddAccountError::FailedCreateNewStack,
        ),
    ];
    for (fault, expected) in cases {
        let (outcome, asked) = drive(&fault);
        assert_eq!(outcome, Err(expected));
        assert!(!asked.iter().any(|request| matches!(request, Request::StoreConfig { .. })));
    }
    let (outcome, _) = drive(&|request| match request {
        Request::StoreConfig { .. } => Some(failed("disk full")),
        _ => None,
    });
    assert_eq!(outcome, Err(AddAccountError::FailedToUpdateConfig));
}
