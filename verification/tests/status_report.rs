use buzz_policy::git_status::{CliError, ResolvedStatus};
use buzz_policy::json::{natural_member, text_member};
use buzz_policy::status_report::{
    envelope, look_up_root, output_text, root_author, status_output, status_report, RootLookup,
};
use serde_json::Value;

fn message(error: CliError) -> String {
    match error {
        CliError::Other(message) => message,
    }
}

fn event() -> Value {
    let mut map = serde_json::Map::new();
    map.insert("id".to_string(), Value::from("e1"));
    map.insert("offset".to_string(), Value::from(-2.5));
    Value::Object(map)
}

fn status(kind: u16) -> ResolvedStatus {
    ResolvedStatus {
        event: event(),
        kind,
        author: "alice".to_string(),
        created_at: 42,
    }
}

#[test]
fn root_reply_is_read() {
    assert_eq!(
        look_up_root("[{\"pubkey\":\"alice\"},{\"pubkey\":\"bob\"}]"),
        RootLookup::Found(Some("alice".to_string()))
    );
    assert_eq!(look_up_root("[{\"pubkey\":7}]"), RootLookup::Found(None));
    assert_eq!(look_up_root("[3]"), RootLookup::Found(None));
    assert_eq!(look_up_root(" [ ] "), RootLookup::Missing);
}

#[test]
fn unreadable_reply_carries_the_parse_error() {
    let expected = serde_json::from_str::<Vec<Value>>("[{")
        .unwrap_err()
        .to_string();
    assert!(expected.contains("line 1"));
    assert_eq!(look_up_root("[{"), RootLookup::Unreadable(expected.clone()));
    let failure = root_author(look_up_root("[{"), 1617, "r").unwrap_err();
    assert_eq!(message(failure), format!("root event parse failed: {expected}"));
    assert!(matches!(look_up_root("{}"), RootLookup::Unreadable(_)));
}

#[test]
fn missing_root_names_kind_and_id() {
    for kind in [0u16, 7, 10, 1617, 1618, 1621, 65535] {
        let failure = root_author(RootLookup::Missing, kind, "abc").unwrap_err();
        assert_eq!(
            message(failure),
            format!("no kind:{kind} root event found with id abc")
        );
    }
}

#[test]
fn root_without_author_is_a_failure() {
    let failure = root_author(RootLookup::Found(None), 1617, "abc").unwrap_err();
    assert_eq!(message(failure), "root event missing pubkey");
    let found = RootLookup::Found(Some("alice".to_string()));
    assert_eq!(root_author(found, 1617, "abc"), Ok("alice".to_string()));
}

#[test]
fn no_status_is_reported_as_implicit_open() {
    let report = status_report("r", None);
    assert_eq!(report.root, "r");
    assert_eq!(report.state, "open");
    assert!(report.implicit);
    assert_eq!(report.kind, None);
    assert_eq!(report.author, None);
    assert_eq!(report.created_at, None);
    assert_eq!(report.event, None);
}

#[test]
fn issued_status_is_reported_with_its_event() {
    let report = status_report("r", Some(status(1631)));
    assert_eq!(report.state, "merged");
    assert!(!report.implicit);
    assert_eq!(report.kind, Some(1631));
    assert_eq!(report.author, Some("alice".to_string()));
    assert_eq!(report.created_at, Some(42));
    assert_eq!(report.event, Some(event()));
}

#[test]
fn issued_open_differs_from_no_status() {
    let issued = envelope(&status_report("r", Some(status(1630))));
    let none = envelope(&status_report("r", None));
    assert_eq!(issued["state"], none["state"]);
    assert_eq!(issued["implicit"], Value::Bool(false));
    assert_eq!(none["implicit"], Value::Bool(true));
    assert_ne!(issued, none);
}

#[test]
fn envelope_has_seven_members() {
    let issued = envelope(&status_report("r", Some(status(1632))));
    let none = envelope(&status_report("r", None));
    assert_eq!(issued.as_object().unwrap().len(), 7);
    assert_eq!(none.as_object().unwrap().len(), 7);
    assert_eq!(text_member(&issued, "root"), Some("r"));
    assert_eq!(text_member(&issued, "state"), Some("closed"));
    assert_eq!(natural_member(&issued, "kind"), Some(1632));
    assert_eq!(text_member(&issued, "author"), Some("alice"));
    assert_eq!(natural_member(&issued, "created_at"), Some(42));
    assert_eq!(issued["event"], event());
    for key in ["kind", "author", "created_at", "event"] {
        assert!(none.get(key).unwrap().is_null());
    }
}

#[test]
fn members_of_another_type_are_not_given() {
    let issued = envelope(&status_report("r", Some(status(1632))));
    assert_eq!(text_member(&issued, "kind"), None);
    assert_eq!(natural_member(&issued, "root"), None);
    assert_eq!(text_member(&issued, "nowhere"), None);
    assert_eq!(natural_member(&Value::from(3), "kind"), None);
}

#[test]
fn output_is_one_indented_object() {
    for status in [None, Some(status(1633))] {
        let text = status_output("r", status.clone()).unwrap();
        let back: Value = serde_json::from_str(&text).unwrap();
        assert_eq!(back, envelope(&status_report("r", status)));
        assert!(text.starts_with("{\n  \""));
        assert!(text.ends_with("\n}"));
    }
}

#[test]
fn failure_to_write_carries_the_error() {
    assert_eq!(output_text(Ok("{}".to_string())), Ok("{}".to_string()));
    let failure = output_text(Err("no room".to_string())).unwrap_err();
    assert_eq!(message(failure), "envelope serialize failed: no room");
}
