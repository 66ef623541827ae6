use cbuilder::deploy::{deploy_stack, Deploy, POLL_INTERVAL};
use cbuilder::provider::{Reply, Request};
use cbuilder::stack::{
    get_stack_ip_address, has_stack_completed, DeployError, Elapsed, SimpleParameter, StackDescription,
    StackEvent, StackOutput,
};
use cbuilder::tag::Tag;

fn event(id: Option<&str>, status: Option<&str>) -> StackEvent {
    StackEvent {
        logical_resource_id: id.map(|text| text.to_owned()),
        resource_status: status.map(|text| text.to_owned()),
    }
}

fn history(complete: bool, seconds: u64) -> Reply {
    let mut events = vec![
        event(Some("Instance"), Some("CREATE_COMPLETE")),
        event(Some("stack"), Some("CREATE_IN_PROGRESS")),
    ];
    if complete {
        events.push(event(Some("stack"), Some("CREATE_COMPLETE")));
    }
    Reply::Events { events, elapsed: Elapsed { secs: seconds, nanos: 0 } }
}

fn begin(timeout: u64) -> Deploy {
    deploy_stack(
        "profile".to_owned(),
        "stack".to_owned(),
        "template body".to_owned(),
        &vec![SimpleParameter::new("K".to_owned(), "V".to_owned())],
        &vec![Tag::new("team".to_owned(), "build".to_owned())],
        timeout,
    )
}

/// Runs a deployment against a provider that answers the submission with
/// `created` and completes the stack at the `completes_on`-th look, 5 seconds
/// going by between looks. Gives the outcome, the number of looks, and the
/// delays that were asked for.
fn run(created: Reply, completes_on: Option<u64>, timeout: u64) -> (Result<(), DeployError>, u64, Vec<u64>) {
    let mut deploy = begin(timeout);
    let mut created = Some(created);
    let mut polls: u64 = 0;
    let mut delays = Vec::new();
    loop {
        let request = match deploy.pending() {
            None => break,
            Some(request) => request,
        };
        let reply = match request {
            Request::CreateStack { .. } => created.take().expect("the stack is submitted once"),
            Request::DescribeStackEvents { profile, stack_name, delay } => {
                assert_eq!(profile, "profile");
                assert_eq!(stack_name, "stack");
                polls += 1;
                delays.push(delay);
                history(Some(polls) == completes_on, (polls - 1) * 5)
            }
            other => panic!("unexpected request {:?}", other),
        };
        deploy = deploy.advance(reply);
        assert!(polls < 10_000);
    }
    (deploy.outcome().unwrap(), polls, delays)
}

#[test]
fn deploy_polls_exactly_until_the_stack_is_complete() {
    for n in 1..=20u64 {
        let (outcome, polls, delays) = run(Reply::Done, Some(n), 7 * 60);
        assert_eq!(outcome, Ok(()));
        assert_eq!(polls, n);
        assert_eq!(delays[0], 0);
        assert!(delays[1..].iter().all(|delay| *delay == POLL_INTERVAL));
    }
}

#[test]
fn deploy_times_out_once_the_budget_is_exceeded() {
    let (outcome, polls, _) = run(Reply::Done, None, 20);
    assert_eq!(outcome, Err(DeployError::TimedOut));
    // looks at 0, 5, 10, 15, 20 are within the budget of 20; the look at 25 is not
    assert_eq!(polls, 6);
    let (outcome, polls, _) = run(Reply::Done, None, 0);
    assert_eq!(outcome, Err(DeployError::TimedOut));
    assert_eq!(polls, 2);
}

#[test]
fn a_stack_that_completes_late_still_succeeds() {
    let mut deploy = begin(10).advance(Reply::Done);
    deploy = deploy.advance(history(true, 9_000));
    assert_eq!(deploy.outcome(), Some(Ok(())));
    assert_eq!(deploy.pending(), None);
}

#[test]
fn deploy_goes_on_to_polling_when_the_stack_exists_already() {
    let (outcome, polls, _) = run(Reply::AlreadyExists, Some(3), 7 * 60);
    assert_eq!(outcome, Ok(()));
    assert_eq!(polls, 3);
}

#[test]
fn deploy_submits_what_it_was_given() {
    let deploy = begin(60);
    assert_eq!(deploy.outcome(), None);
    assert_eq!(
        deploy.pending(),
        Some(Request::CreateStack {
            profile: "profile".to_owned(),
            stack_name: "stack".to_owned(),
            template: "template body".to_owned(),
            parameters: vec![SimpleParameter::new("K".to_owned(), "V".to_owned())],
            tags: vec![Tag::new("team".to_owned(), "build".to_owned())],
        })
    );
}

#[test]
fn a_refused_submission_fails_without_a_poll() {
    let (outcome, polls, _) =
        run(Reply::Failed { message: "access denied".to_owned() }, Some(1), 60);
    assert_eq!(outcome, Err(DeployError::CreateStackFailed));
    assert_eq!(polls, 0);
}

#[test]
fn a_failed_fetch_is_fatal() {
    let deploy = begin(60).advance(Reply::Done);
    let deploy = deploy.advance(history(false, 0));
    assert_eq!(deploy.outcome(), None);
    let deploy = deploy.advance(Reply::Failed { message: "throttled".to_owned() });
    assert_eq!(deploy.outcome(), Some(Err(DeployError::DescribeStackFailed)));
    assert_eq!(deploy.pending(), None);
    let deploy = deploy.advance(history(true, 0));
    assert_eq!(deploy.outcome(), Some(Err(DeployError::DescribeStackFailed)));
}

#[test]
fn the_budget_is_exceeded_by_any_time_beyond_it() {
    assert!(!Elapsed { secs: 420, nanos: 0 }.exceeds(420));
    assert!(Elapsed { secs: 420, nanos: 1 }.exceeds(420));
    assert!(Elapsed { secs: 421, nanos: 0 }.exceeds(420));
    assert!(!Elapsed { secs: 419, nanos: 999_999_999 }.exceeds(420));
    assert!(!Elapsed { secs: 0, nanos: 0 }.exceeds(0));
}

#[test]
fn has_stack_completed_looks_for_the_stack_itself() {
    let name = "container-builder".to_owned();
    assert!(!has_stack_completed(&vec![], &name));
    assert!(has_stack_completed(
        &vec![event(Some("container-builder"), Some("CREATE_COMPLETE"))],
        &name
    ));
    assert!(has_stack_completed(
        &vec![
            event(Some("container-builder"), Some("UPDATE_IN_PROGRESS")),
            event(Some("container-builder"), Some("UPDATE_COMPLETE")),
        ],
        &name
    ));
    assert!(!has_stack_completed(
        &vec![
            event(Some("Instance"), Some("CREATE_COMPLETE")),
            event(Some("container-builder"), Some("CREATE_FAILED")),
            event(Some("container-builder"), None),
            event(None, Some("CREATE_COMPLETE")),
            event(Some("container-builder-role"), Some("CREATE_COMPLETE")),
            event(Some("container-builder"), Some("DELETE_COMPLETE")),
        ],
        &name
    ));
}

#[test]
fn deploy_error_names() {
    assert_eq!(DeployError::CreateStackFailed.to_string(), "CreateStackFailed");
    assert_eq!(DeployError::DescribeStackFailed.to_string(), "DescribeStackFailed");
    assert_eq!(DeployError::TimedOut.to_string(), "TimedOut");
}

#[test]
fn get_stack_ip_address_reads_the_output_of_the_base_stack() {
    let output = |key: Option<&str>, value: Option<&str>| StackOutput {
        output_key: key.map(|text| text.to_owned()),
        output_value: value.map(|text| text.to_owned()),
    };
    let stack = |name: &str, outputs: Option<Vec<StackOutput>>| StackDescription {
        stack_name: name.to_owned(),
        outputs,
    };
    assert_eq!(get_stack_ip_address(&vec![]), None);
    assert_eq!(
        get_stack_ip_address(&vec![
            stack("other", Some(vec![output(Some("InstanceIP"), Some("9.9.9.9"))])),
            stack(
                "container-builder",
                Some(vec![
                    output(None, Some("0.0.0.0")),
                    output(Some("InstanceId"), Some("i-1")),
                    output(Some("InstanceIP"), Some("203.0.113.7")),
                    output(Some("InstanceIP"), Some("203.0.113.8")),
                ])
            ),
        ]),
        Some("203.0.113.7".to_owned())
    );
    assert_eq!(get_stack_ip_address(&vec![stack("container-builder", None)]), None);
    assert_eq!(
        get_stack_ip_address(&vec![stack("container-builder", Some(vec![output(Some("InstanceIP"), None)]))]),
        None
    );
    assert_eq!(
        get_stack_ip_address(&vec![
            stack("container-builder", Some(vec![])),
            stack("container-builder", Some(vec![output(Some("InstanceIP"), Some("1.1.1.1"))])),
        ]),
        None
    );
}
