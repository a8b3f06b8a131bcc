use buzz_policy::git_status::{
    eligible, pick_winning_status, select_winner, status_fields, status_word,
    StatusFields,
};
use serde_json::Value;

fn object(members: Vec<(&str, Value)>) -> Value {
    let mut map = serde_json::Map::new();
    for (key, value) in members {
        map.insert(key.to_string(), value);
    }
    Value::Object(map)
}

fn ev(id: &str, kind: u16, author: &str, created_at: u64) -> Value {
    object(vec![
        ("id", Value::from(id)),
        ("kind", Value::from(kind)),
        ("pubkey", Value::from(author)),
        ("created_at", Value::from(created_at)),
        ("content", Value::from("")),
        ("tags", Value::Array(vec![])),
        ("sig", Value::from("f".repeat(128))),
    ])
}

fn root_author() -> &'static str {
    "a".repeat(64).leak()
}

fn repo_owner() -> &'static str {
    "b".repeat(64).leak()
}

fn outsider() -> &'static str {
    "c".repeat(64).leak()
}

fn id(n: u8) -> String {
    format!("{:064x}", n)
}

#[test]
fn latest_created_at_wins() {
    let events = vec![
        ev(&id(1), 1630, root_author(), 100),
        ev(&id(2), 1631, root_author(), 200),
        ev(&id(3), 1632, root_author(), 150),
    ];
    let got = pick_winning_status(&events, root_author(), Some(repo_owner()))
        .unwrap()
        .expect("a winner exists");
    assert_eq!(got.kind, 1631);
    assert_eq!(got.created_at, 200);
}

#[test]
fn tie_on_created_at_breaks_on_lexicographic_id() {
    let events = vec![
        ev(&id(0x10), 1631, root_author(), 200),
        ev(&id(0x2f), 1632, root_author(), 200),
    ];
    let got = pick_winning_status(&events, root_author(), Some(repo_owner()))
        .unwrap()
        .expect("a winner exists");
    assert_eq!(got.kind, 1632);
}

#[test]
fn root_author_and_repo_owner_both_eligible() {
    let events = vec![
        ev(&id(1), 1630, root_author(), 100),
        ev(&id(2), 1632, repo_owner(), 200),
    ];
    let got = pick_winning_status(&events, root_author(), Some(repo_owner()))
        .unwrap()
        .expect("a winner exists");
    assert_eq!(got.kind, 1632);
    assert_eq!(got.author, repo_owner());
}

#[test]
fn outsider_events_are_ignored() {
    let events = vec![
        ev(&id(1), 1630, root_author(), 100),
        ev(&id(2), 1632, outsider(), 999),
    ];
    let got = pick_winning_status(&events, root_author(), Some(repo_owner()))
        .unwrap()
        .expect("a winner exists");
    assert_eq!(got.kind, 1630);
}

#[test]
fn no_repo_owner_means_only_root_author_counts() {
    let events = vec![
        ev(&id(1), 1630, root_author(), 100),
        ev(&id(2), 1632, repo_owner(), 200),
    ];
    let got = pick_winning_status(&events, root_author(), None)
        .unwrap()
        .expect("a winner exists");
    assert_eq!(
        got.kind, 1630,
        "owner status must be ineligible without the hint"
    );
}

#[test]
fn empty_history_yields_none() {
    let got = pick_winning_status(&[], root_author(), Some(repo_owner())).unwrap();
    assert!(got.is_none());
}

#[test]
fn events_with_missing_fields_are_skipped() {
    let events = vec![
        object(vec![
            ("id", Value::from(id(9))),
            ("kind", Value::from(1632)),
        ]),
        object(vec![
            ("id", Value::from(id(8))),
            ("pubkey", Value::from(root_author())),
        ]),
        object(vec![
            ("pubkey", Value::from(root_author())),
            ("kind", Value::from(1631)),
            ("created_at", Value::from(50)),
        ]),
        ev(&id(3), 1631, root_author(), 50),
    ];
    let got = pick_winning_status(&events, root_author(), Some(repo_owner()))
        .unwrap()
        .expect("a winner exists");
    assert_eq!(got.kind, 1631);
    assert_eq!(got.event.get("id").unwrap().as_str().unwrap(), id(3));
}

#[test]
fn non_status_kinds_are_skipped() {
    let events = vec![
        ev(&id(1), 1630, root_author(), 100),
        ev(&id(2), 1617, root_author(), 999),
    ];
    let got = pick_winning_status(&events, root_author(), Some(repo_owner()))
        .unwrap()
        .expect("a winner exists");
    assert_eq!(got.kind, 1630);
}

#[test]
fn status_word_maps_all_kinds() {
    assert_eq!(status_word(1630), "open");
    assert_eq!(status_word(1631), "merged");
    assert_eq!(status_word(1632), "closed");
    assert_eq!(status_word(1633), "draft");
}

#[test]
fn other_kinds_have_no_word_of_their_own() {
    assert_eq!(status_word(1629), "unknown");
    assert_eq!(status_word(1634), "unknown");
    assert_eq!(status_word(0), "unknown");
}

#[test]
fn kinds_beyond_sixteen_bits_are_skipped() {
    let mut wide = ev(&id(2), 1630, root_author(), 999);
    wide["kind"] = Value::from(65536u64 + 1630);
    let events = vec![ev(&id(1), 1632, root_author(), 100), wide];
    let got = pick_winning_status(&events, root_author(), None)
        .unwrap()
        .expect("a winner exists");
    assert_eq!(got.kind, 1632);
}

#[test]
fn fields_of_another_type_are_missing() {
    let mut text_time = ev(&id(2), 1631, root_author(), 999);
    text_time["created_at"] = Value::from("999");
    let mut negative_time = ev(&id(3), 1631, root_author(), 999);
    negative_time["created_at"] = Value::from(-1);
    let mut fractional_kind = ev(&id(4), 1631, root_author(), 999);
    fractional_kind["kind"] = Value::from(1631.5);
    let mut number_id = ev(&id(5), 1631, root_author(), 999);
    number_id["id"] = Value::from(5);
    let mut null_author = ev(&id(6), 1631, root_author(), 999);
    null_author["pubkey"] = Value::Null;
    let events = vec![
        text_time,
        negative_time,
        fractional_kind,
        number_id,
        null_author,
        Value::from("no object"),
        Value::Array(vec![ev(&id(7), 1631, root_author(), 999)]),
    ];
    assert_eq!(pick_winning_status(&events, root_author(), None), Ok(None));
}

#[test]
fn winner_is_reported_whole() {
    let events = vec![
        ev(&id(1), 1633, root_author(), 7),
        ev(&id(2), 1631, repo_owner(), 9),
    ];
    let got = pick_winning_status(&events, root_author(), Some(repo_owner()))
        .unwrap()
        .expect("a winner exists");
    assert_eq!(got.event, events[1]);
    assert_eq!(got.kind, 1631);
    assert_eq!(got.author, repo_owner());
    assert_eq!(got.created_at, 9);
}

#[test]
fn order_of_events_makes_no_difference() {
    let a = ev(&id(1), 1630, root_author(), 100);
    let b = ev(&id(2), 1631, repo_owner(), 300);
    let c = ev(&id(3), 1632, root_author(), 300);
    let stray = ev(&id(4), 1633, outsider(), 900);
    let histories = vec![
        vec![a.clone(), b.clone(), c.clone()],
        vec![c.clone(), b.clone(), a.clone()],
        vec![b.clone(), stray.clone(), c.clone(), a.clone(), c.clone()],
        vec![stray, c.clone(), a, b],
    ];
    for events in histories {
        let got = pick_winning_status(&events, root_author(), Some(repo_owner()))
            .unwrap()
            .expect("a winner exists");
        assert_eq!(got.event, c);
    }
}

#[test]
fn first_of_two_events_with_one_time_and_id_stays() {
    let events = vec![
        ev(&id(1), 1630, root_author(), 100),
        ev(&id(1), 1632, root_author(), 100),
    ];
    let got = pick_winning_status(&events, root_author(), None)
        .unwrap()
        .expect("a winner exists");
    assert_eq!(got.kind, 1630);
}

fn record<'a>(pubkey: &'a str, created_at: u64, kind: u64, id: &'a str) -> StatusFields<'a> {
    StatusFields {
        pubkey: Some(pubkey),
        created_at: Some(created_at),
        kind: Some(kind),
        id: Some(id),
    }
}

#[test]
fn later_record_takes_over_only_if_it_outranks() {
    let (a, b, c) = (root_author(), repo_owner(), outsider());
    let ids: Vec<String> = (0..5).map(id).collect();
    let history = vec![
        record(a, 5, 1630, &ids[2]),
        record(a, 5, 1630, &ids[1]),
        record(a, 4, 1630, &ids[4]),
    ];
    assert_eq!(select_winner(&history, a, None), Some(0));
    let mut longer = history.clone();
    longer.push(record(a, 5, 1630, &ids[3]));
    assert_eq!(select_winner(&longer, a, None), Some(3));
    longer.push(record(b, 6, 1630, &ids[4]));
    assert_eq!(select_winner(&longer, a, None), Some(3));
    assert_eq!(select_winner(&longer, a, Some(b)), Some(4));
    assert_eq!(select_winner(&longer, c, None), None);
}

#[test]
fn ids_compare_by_bytes() {
    let a = root_author();
    let (nines, upper, lower) = ("9".repeat(64), "A".repeat(64), "a".repeat(64));
    let history = vec![record(a, 5, 1630, &upper), record(a, 5, 1630, &lower)];
    assert_eq!(select_winner(&history, a, None), Some(1));
    let history = vec![record(a, 5, 1630, &upper), record(a, 5, 1630, &nines)];
    assert_eq!(select_winner(&history, a, None), Some(0));
    let (low, high) = (id(0x1f), id(0x20));
    let history = vec![record(a, 5, 1630, &low), record(a, 5, 1630, &high)];
    assert_eq!(select_winner(&history, a, None), Some(1));
}

#[test]
fn eligibility_asks_for_every_field() {
    let (a, b) = (root_author(), repo_owner());
    let event_id = id(7);
    let whole = record(a, 5, 1633, &event_id);
    assert!(eligible(&whole, a, None));
    assert!(eligible(&whole, b, Some(a)));
    assert!(!eligible(&whole, b, None));
    assert!(!eligible(&StatusFields { pubkey: None, ..whole }, a, None));
    assert!(!eligible(&StatusFields { created_at: None, ..whole }, a, None));
    assert!(!eligible(&StatusFields { kind: None, ..whole }, a, None));
    assert!(!eligible(&StatusFields { kind: Some(1634), ..whole }, a, None));
    assert!(!eligible(&StatusFields { id: None, ..whole }, a, None));
}

#[test]
fn events_with_a_short_id_are_skipped() {
    let short = object(vec![
        ("id", Value::from("ab")),
        ("kind", Value::from(1630)),
        ("pubkey", Value::from(root_author())),
        ("created_at", Value::from(100)),
    ]);
    assert_eq!(
        pick_winning_status(&[short.clone()], root_author(), None),
        Ok(None)
    );
    let events = vec![ev(&id(1), 1632, root_author(), 50), short];
    let got = pick_winning_status(&events, root_author(), None)
        .unwrap()
        .expect("a winner exists");
    assert_eq!(got.kind, 1632);
}

#[test]
fn ids_and_authors_are_64_hexadecimal_digits() {
    let good = id(1);
    for bad in [
        "".to_string(),
        "f".repeat(63),
        "f".repeat(65),
        "g".repeat(64),
        format!("{}\u{e9}", "f".repeat(62)),
        format!("{}\u{ff11}", "f".repeat(63)),
    ] {
        let by_id = vec![ev(&bad, 1630, root_author(), 100)];
        assert_eq!(pick_winning_status(&by_id, root_author(), None), Ok(None));
        let by_author = vec![ev(&good, 1630, &bad, 100)];
        assert_eq!(pick_winning_status(&by_author, &bad, Some(&bad)), Ok(None));
    }
    let mixed = "0123456789abcdefABCDEF0123456789abcdefABCDEF01234567890123456789";
    let events = vec![ev(mixed, 1630, mixed, 100)];
    let got = pick_winning_status(&events, mixed, None)
        .unwrap()
        .expect("a winner exists");
    assert_eq!(got.author, mixed);
}

#[test]
fn fields_are_read_from_the_event() {
    let event = ev("x", 1631, "y", 17);
    assert_eq!(status_fields(&event), record("y", 17, 1631, "x"));
    let nothing = StatusFields { pubkey: None, created_at: None, kind: None, id: None };
    assert_eq!(status_fields(&Value::Null), nothing);
}

#[test]
fn repeated_resolution_agrees() {
    let events = vec![
        ev(&id(1), 1630, root_author(), 100),
        ev(&id(2), 1633, repo_owner(), 100),
    ];
    let first = pick_winning_status(&events, root_author(), Some(repo_owner())).unwrap();
    let second = pick_winning_status(&events, root_author(), Some(repo_owner())).unwrap();
    assert_eq!(first, second);
    assert_eq!(first.map(|status| status.kind), Some(1633));
}
