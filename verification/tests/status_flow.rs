use buzz_policy::git_status::{CliError, ResolvedStatus};
use buzz_policy::status_flow::{
    cmd_git_status_get, resolve_git_status, root_filter, status_filter, GetStep, ResolveStep,
    StepError, STATUS_FETCH_LIMIT,
};
use serde_json::Value;

fn parsed(text: &str) -> Value {
    serde_json::from_str(text).unwrap()
}

/// What the client of these tests fails with.
#[derive(Debug, Clone, PartialEq)]
enum ClientError {
    BadId(u8),
    Down,
}

fn owner() -> String {
    "b".repeat(64)
}

fn status_event() -> Value {
    let id = "e".repeat(64);
    let author = owner();
    parsed(&format!(
        "{{\"id\":\"{id}\",\"kind\":1631,\"pubkey\":\"{author}\",\"created_at\":5}}"
    ))
}

fn resolved() -> ResolvedStatus {
    ResolvedStatus {
        event: status_event(),
        kind: 1631,
        author: owner(),
        created_at: 5,
    }
}

fn failed(step: GetStep<ClientError>) -> StepError<ClientError> {
    match step {
        GetStep::Fail(error) => error,
        _ => panic!("the command did not fail"),
    }
}

fn client(error: ClientError) -> StepError<ClientError> {
    StepError::Client(error)
}

fn command(message: &str) -> StepError<ClientError> {
    StepError::Command(CliError::Other(message.to_string()))
}

#[test]
fn filters_name_kinds_and_ids() {
    assert_eq!(
        status_filter("abc"),
        parsed("{\"kinds\":[1630,1631,1632,1633],\"#e\":[\"abc\"]}")
    );
    assert_eq!(
        root_filter(1617, "abc"),
        parsed("{\"kinds\":[1617],\"ids\":[\"abc\"]}")
    );
    assert_eq!(STATUS_FETCH_LIMIT, 1000);
}

#[test]
fn resolution_checks_fetches_and_picks() {
    let (id, check) = match resolve_git_status::<ClientError>("root", "author", Some(&owner())) {
        ResolveStep::CheckRoot { id, check } => (id, check),
        _ => panic!("the root id comes first"),
    };
    assert_eq!(id, "root");
    let fetch = match check.resume::<ClientError>(Ok(())) {
        ResolveStep::FetchHistory { filter, limit, fetch } => {
            assert_eq!(filter, status_filter("root"));
            assert_eq!(limit, 1000);
            fetch
        }
        _ => panic!("the history comes next"),
    };
    match fetch.resume::<ClientError>(Ok(vec![status_event()])) {
        ResolveStep::Done(status) => assert_eq!(status, Some(resolved())),
        _ => panic!("the history resolves"),
    }
}

#[test]
fn resolution_without_an_owner_leaves_the_author() {
    let check = match resolve_git_status::<ClientError>("root", "author", None) {
        ResolveStep::CheckRoot { check, .. } => check,
        _ => panic!("the root id comes first"),
    };
    let fetch = match check.resume::<ClientError>(Ok(())) {
        ResolveStep::FetchHistory { fetch, .. } => fetch,
        _ => panic!("the history comes next"),
    };
    match fetch.resume::<ClientError>(Ok(vec![status_event()])) {
        ResolveStep::Done(status) => assert_eq!(status, None),
        _ => panic!("the history resolves"),
    }
}

#[test]
fn resolution_ends_with_a_failure_of_the_relay() {
    match resolve_git_status::<ClientError>("root", "author", None) {
        ResolveStep::CheckRoot { check, .. } => match check.resume(Err(ClientError::BadId(1))) {
            ResolveStep::Fail(error) => assert_eq!(error, client(ClientError::BadId(1))),
            _ => panic!("a refused id ends the resolution"),
        },
        _ => panic!("the root id comes first"),
    }
    match resolve_git_status::<ClientError>("root", "author", None) {
        ResolveStep::CheckRoot { check, .. } => match check.resume::<ClientError>(Ok(())) {
            ResolveStep::FetchHistory { fetch, .. } => match fetch.resume(Err(ClientError::Down)) {
                ResolveStep::Fail(error) => assert_eq!(error, client(ClientError::Down)),
                _ => panic!("a failed fetch ends the resolution"),
            },
            _ => panic!("the history comes next"),
        },
        _ => panic!("the root id comes first"),
    }
}

#[test]
fn command_checks_the_owner_where_one_was_given() {
    let check = match cmd_git_status_get::<ClientError>("root", 1617, Some("owner")) {
        GetStep::CheckRoot { id, check } => {
            assert_eq!(id, "root");
            check
        }
        _ => panic!("the root id comes first"),
    };
    let check = match check.resume::<ClientError>(Ok(())) {
        GetStep::CheckOwner { id, check } => {
            assert_eq!(id, "owner");
            check
        }
        _ => panic!("the owner comes next"),
    };
    match check.resume::<ClientError>(Ok(())) {
        GetStep::QueryRoot { filter, .. } => assert_eq!(filter, root_filter(1617, "root")),
        _ => panic!("the root event comes next"),
    }
}

#[test]
fn refused_ids_end_the_command() {
    match cmd_git_status_get::<ClientError>("root", 1617, Some("owner")) {
        GetStep::CheckRoot { check, .. } => {
            assert_eq!(failed(check.resume(Err(ClientError::BadId(2)))), client(ClientError::BadId(2)))
        }
        _ => panic!("the root id comes first"),
    }
    match cmd_git_status_get::<ClientError>("root", 1617, Some("owner")) {
        GetStep::CheckRoot { check, .. } => match check.resume::<ClientError>(Ok(())) {
            GetStep::CheckOwner { check, .. } => {
                assert_eq!(failed(check.resume(Err(ClientError::BadId(3)))), client(ClientError::BadId(3)))
            }
            _ => panic!("the owner comes next"),
        },
        _ => panic!("the root id comes first"),
    }
}

fn after_root(reply: Result<String, ClientError>) -> GetStep<ClientError> {
    match cmd_git_status_get::<ClientError>("root", 1617, None) {
        GetStep::CheckRoot { check, .. } => match check.resume::<ClientError>(Ok(())) {
            GetStep::QueryRoot { query, .. } => query.resume(reply),
            _ => panic!("without an owner the root event comes next"),
        },
        _ => panic!("the root id comes first"),
    }
}

#[test]
fn replies_without_a_root_author_end_the_command() {
    assert_eq!(failed(after_root(Err(ClientError::Down))), client(ClientError::Down));
    assert_eq!(
        failed(after_root(Ok("[]".to_string()))),
        command("no kind:1617 root event found with id root")
    );
    assert_eq!(
        failed(after_root(Ok("[{}]".to_string()))),
        command("root event missing pubkey")
    );
    match failed(after_root(Ok("nonsense".to_string()))) {
        StepError::Command(CliError::Other(message)) => {
            assert!(message.starts_with("root event parse failed: "))
        }
        StepError::Client(_) => panic!("the client did not fail"),
    }
}

#[test]
fn command_prints_the_resolved_status() {
    let replies = vec![
        (Some(resolved()), "merged", false),
        (None, "open", true),
    ];
    for (status, state, implicit) in replies {
        let pending = match after_root(Ok("[{\"pubkey\":\"author\"}]".to_string())) {
            GetStep::Resolve { request, pending } => {
                assert_eq!(request.root_id, "root");
                assert_eq!(request.root_author, "author");
                assert_eq!(request.repo_owner, None);
                pending
            }
            _ => panic!("the status is resolved next"),
        };
        match pending.resume::<ClientError>(Ok(status)) {
            GetStep::Print(text) => {
                let printed = parsed(&text);
                assert_eq!(printed["root"], Value::from("root"));
                assert_eq!(printed["state"], Value::from(state));
                assert_eq!(printed["implicit"], Value::from(implicit));
            }
            _ => panic!("the report is printed"),
        }
    }
}

#[test]
fn failed_resolution_ends_the_command() {
    match after_root(Ok("[{\"pubkey\":\"author\"}]".to_string())) {
        GetStep::Resolve { pending, .. } => {
            assert_eq!(failed(pending.resume(Err(ClientError::Down))), client(ClientError::Down))
        }
        _ => panic!("the status is resolved next"),
    }
}
