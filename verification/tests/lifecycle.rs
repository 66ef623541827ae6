use cbuilder::config::Config;
use cbuilder::provider::{Reply, Request};
use cbuilder::start::{run_start, StartError, ADDRESS_WAIT};
use cbuilder::stop::run_stop;
use cbuilder::uninstall::{aggregate_failures, uninstall, Uninstall, UninstallError};

fn owned(items: &[&str]) -> Vec<String> {
    items.iter().map(|item| item.to_string()).collect()
}

fn text(text: &str) -> Reply {
    Reply::Text { text: text.to_owned() }
}

fn failed(message: &str) -> Reply {
    Reply::Failed { message: message.to_owned() }
}

fn settings() -> Config {
    let mut config = Config::new("198.51.100.1".to_owned(), "base".to_owned());
    config.add_account("one".to_owned(), "111".to_owned());
    config.add_account("two".to_owned(), "222".to_owned());
    config.add_account("three".to_owned(), "333".to_owned());
    config
}

#[test]
fn start_records_the_new_address() {
    let run = run_start();
    assert_eq!(run.pending(), Some(Request::LoadConfig));
    let run = run.advance(Reply::Settings { config: settings() });
    assert_eq!(
        run.pending(),
        Some(Request::DescribeStackResource {
            profile: "base".to_owned(),
            stack_name: "container-builder".to_owned(),
            logical_id: "Instance".to_owned(),
        })
    );
    let run = run.advance(text("i-7"));
    assert_eq!(
        run.pending(),
        Some(Request::StartInstances { profile: "base".to_owned(), instance_id: "i-7".to_owned() })
    );
    let run = run.advance(Reply::Done);
    assert_eq!(ADDRESS_WAIT, 60);
    assert_eq!(
        run.pending(),
        Some(Request::DescribeInstances {
            profile: "base".to_owned(),
            instance_id: "i-7".to_owned(),
            delay: 60,
        })
    );
    let run = run.advance(Reply::Instances { reservations: vec![vec![Some("203.0.113.9".to_owned())]] });
    let mut expected = settings();
    expected.set_instance_ip("203.0.113.9".to_owned());
    assert_eq!(run.pending(), Some(Request::StoreConfig { config: expected }));
    assert_eq!(run.outcome(), None);
    let run = run.advance(Reply::Done);
    assert_eq!(run.outcome(), Some(Ok(())));
    assert_eq!(run.pending(), None);
}

#[test]
fn start_fails_at_the_step_that_fails() {
    let loaded = || run_start().advance(Reply::Settings { config: settings() });
    assert_eq!(
        run_start().advance(Reply::Missing).outcome(),
        Some(Err(StartError::CouldNotFindConfig))
    );
    assert_eq!(loaded().advance(failed("x")).outcome(), Some(Err(StartError::InstanceNotFound)));
    assert_eq!(
        loaded().advance(text("i")).advance(failed("x")).outcome(),
        Some(Err(StartError::FailedToStart))
    );
    let waiting = || loaded().advance(text("i")).advance(Reply::Done);
    assert_eq!(waiting().advance(failed("x")).outcome(), Some(Err(StartError::DescribeInstanceFailed)));
    assert_eq!(
        waiting().advance(Reply::Instances { reservations: vec![vec![None]] }).outcome(),
        Some(Err(StartError::DescribeInstanceFailed))
    );
    let storing = || waiting().advance(Reply::Instances { reservations: vec![vec![Some("1.1.1.1".to_owned())]] });
    assert_eq!(storing().advance(failed("x")).outcome(), Some(Err(StartError::FailedSaveConfig)));
    assert_eq!(storing().advance(failed("x")).pending(), None);
}

#[test]
fn stop_does_not_wait_for_the_instance() {
    let run = run_stop();
    assert_eq!(run.pending(), Some(Request::LoadConfig));
    let run = run.advance(Reply::Settings { config: settings() });
    assert_eq!(
        run.pending(),
        Some(Request::DescribeStackResource {
            profile: "base".to_owned(),
            stack_name: "container-builder".to_owned(),
            logical_id: "Instance".to_owned(),
        })
    );
    let run = run.advance(text("i-7"));
    assert_eq!(
        run.pending(),
        Some(Request::StopInstances { profile: "base".to_owned(), instance_id: "i-7".to_owned() })
    );
    let run = run.advance(Reply::Done);
    assert!(run.is_finished());
    assert_eq!(run.pending(), None);
    assert_eq!(run.into_outcome(), Some(Ok(())));
}

#[test]
fn stop_says_what_failed() {
    assert_eq!(
        run_stop().advance(Reply::Missing).into_outcome(),
        Some(Err("Could not load config file".to_owned()))
    );
    let loaded = || run_stop().advance(Reply::Settings { config: settings() });
    assert_eq!(
        loaded().advance(failed("x")).into_outcome(),
        Some(Err("Failed to get instance Id".to_owned()))
    );
    assert_eq!(
        loaded().advance(text("i")).advance(failed("x")).into_outcome(),
        Some(Err("Failed to stop instance".to_owned()))
    );
    assert_eq!(loaded().into_outcome(), None);
}

/// Runs a teardown; the deletion of the role stack fails for the profiles in
/// `failing`. Gives the outcome, the requests, and the number of role stacks
/// whose deletion was attempted.
fn teardown(failing: &[&str], fault: &dyn Fn(&Request) -> Option<Reply>) -> (Result<(), UninstallError>, Vec<Request>, usize) {
    let mut run: Uninstall = uninstall();
    let mut asked = Vec::new();
    let mut attempted = 0;
    while let Some(request) = run.pending() {
        let reply = match fault(&request) {
            Some(reply) => reply,
            None => match &request {
                Request::LoadConfig => Reply::Settings { config: settings() },
                Request::DeleteStack { .. } => Reply::Done,
                Request::DeleteStacks { profiles, stack_name } => {
                    assert_eq!(stack_name, "container-builder-role");
                    attempted += profiles.len();
                    Reply::Deletions {
                        deleted: profiles.iter().map(|profile| !failing.contains(&profile.as_str())).collect(),
                    }
                }
                Request::DeleteKeyPair { .. } => Reply::Done,
                Request::RemoveLocalFiles => Reply::Done,
                other => panic!("unexpected request {:?}", other),
            },
        };
        asked.push(request);
        run = run.advance(reply);
        assert!(asked.len() < 100);
    }
    assert!(run.is_finished());
    (run.into_outcome().unwrap(), asked, attempted)
}

#[test]
fn uninstall_reports_the_one_account_that_failed_and_attempts_all() {
    let (outcome, asked, attempted) = teardown(&["two"], &|_| None);
    assert_eq!(outcome, Err(UninstallError::DeleteAccountStacksFailed(owned(&["222"]))));
    assert_eq!(attempted, 3);
    assert_eq!(
        asked,
        vec![
            Request::LoadConfig,
            Request::DeleteStack { profile: "base".to_owned(), stack_name: "container-builder".to_owned() },
            Request::DeleteStacks {
                profiles: owned(&["one", "two", "three"]),
                stack_name: "container-builder-role".to_owned(),
            },
        ]
    );
}

#[test]
fn uninstall_reports_every_failure_in_ledger_order() {
    let (outcome, _, attempted) = teardown(&["three", "one"], &|_| None);
    assert_eq!(outcome, Err(UninstallError::DeleteAccountStacksFailed(owned(&["111", "333"]))));
    assert_eq!(attempted, 3);
    let (outcome, _, _) = teardown(&[], &|request| match request {
        Request::DeleteStacks { .. } => Some(failed("nothing was deleted")),
        _ => None,
    });
    assert_eq!(outcome, Err(UninstallError::DeleteAccountStacksFailed(owned(&["111", "222", "333"]))));
    let (outcome, _, _) = teardown(&[], &|request| match request {
        Request::DeleteStacks { .. } => Some(Reply::Deletions { deleted: vec![true, true] }),
        _ => None,
    });
    assert_eq!(outcome, Err(UninstallError::DeleteAccountStacksFailed(owned(&["333"]))));
}

#[test]
fn uninstall_removes_the_key_and_the_files_last() {
    let (outcome, asked, attempted) = teardown(&[], &|_| None);
    assert_eq!(outcome, Ok(()));
    assert_eq!(attempted, 3);
    assert_eq!(
        asked[3..],
        [
            Request::DeleteKeyPair { profile: "base".to_owned(), key_name: "ContainerBuilderKey".to_owned() },
            Request::RemoveLocalFiles,
        ]
    );
}

#[test]
fn uninstall_without_linked_accounts() {
    let mut run = uninstall().advance(Reply::Settings {
        config: Config::new("1.1.1.1".to_owned(), "base".to_owned()),
    });
    run = run.advance(Reply::Done);
    assert_eq!(
        run.pending(),
        Some(Request::DeleteStacks { profiles: vec![], stack_name: "container-builder-role".to_owned() })
    );
    run = run.advance(Reply::Deletions { deleted: vec![] });
    assert!(matches!(run.pending(), Some(Request::DeleteKeyPair { .. })));
}

#[test]
fn uninstall_stops_at_the_step_that_fails() {
    let cases: Vec<(fn(&Request) -> Option<Reply>, UninstallError, usize)> = vec![
        (
            |request| match request {
                Request::LoadConfig => Some(Reply::Missing),
                _ => None,
            },
            UninstallError::CouldNotFindConfig,
            1,
        ),
        (
            |request| match request {
                Request::DeleteStack { .. } => Some(failed("denied")),
                _ => None,
            },
            UninstallError::DeleteStackFailed,
            2,
        ),
        (
            |request| match request {
                Request::DeleteKeyPair { .. } => Some(failed("denied")),
                _ => None,
            },
            UninstallError::DeleteSSHKeyFailed("Failed to delete SSH key".to_owned()),
            4,
        ),
        (
            |request| match request {
                Request::RemoveLocalFiles => Some(failed("denied")),
                _ => None,
            },
            UninstallError::CouldNotDeleteLocalFiles,
            5,
        ),
    ];
    for (fault, expected, requests) in cases {
        let (outcome, asked, _) = teardown(&[], &fault);
        assert_eq!(outcome, Err(expected));
        assert_eq!(asked.len(), requests);
    }
}

#[test]
fn aggregate_failures_names_what_was_not_deleted() {
    let accounts = || owned(&["1", "2", "3"]);
    assert_eq!(aggregate_failures(accounts(), &vec![true, true, true]), owned(&[]));
    assert_eq!(aggregate_failures(accounts(), &vec![true, false, true]), owned(&["2"]));
    assert_eq!(aggregate_failures(accounts(), &vec![false, false, false]), accounts());
    assert_eq!(aggregate_failures(accounts(), &vec![true]), owned(&["2", "3"]));
    assert_eq!(aggregate_failures(accounts(), &vec![true, true, true, false]), owned(&[]));
    assert_eq!(aggregate_failures(owned(&[]), &vec![false]), owned(&[]));
}
