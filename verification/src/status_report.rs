//! The author of a root event, and the report of its status.
use crate::git_status;
use crate::git_status::{status_word, CliError, ResolvedStatus};
use crate::json;
use crate::json::Json;
use crate::text;
use serde_json::Value;
use vstd::prelude::*;

verus! {

/// What the reply to the query for a root event holds.
#[derive(Debug, Clone, PartialEq, Eq)]
pub enum RootLookup {
    /// The reply is no JSON array; the message says why.
    Unreadable(String),
    /// The reply has no event.
    Missing,
    /// The author of the first event of the reply, where the event names one.
    Found(Option<String>),
}

/// The model of [`RootLookup`].
pub enum Lookup {
    Unreadable(Seq<char>),
    Missing,
    Found(Option<Seq<char>>),
}

impl View for RootLookup {
    type V = Lookup;

    open spec fn view(&self) -> Lookup {
        match *self {
            RootLookup::Unreadable(message) => Lookup::Unreadable(message@),
            RootLookup::Missing => Lookup::Missing,
            RootLookup::Found(author) => Lookup::Found(text::optional_string(author)),
        }
    }
}

/// What a parsed reply holds.
pub open spec fn lookup_of(parsed: Result<Seq<Value>, Seq<char>>) -> Lookup {
    match parsed {
        Err(message) => Lookup::Unreadable(message),
        Ok(events) => if events.len() == 0 {
            Lookup::Missing
        } else {
            Lookup::Found(json::text_of(events[0], "pubkey"@))
        },
    }
}

/// The outcome of a command step: a text, or the message of a failure.
pub open spec fn outcome(r: Result<String, CliError>) -> Result<Seq<char>, Seq<char>> {
    match r {
        Ok(t) => Ok(t@),
        Err(e) => Err(e@),
    }
}

/// The author of the root, or the message that says why there is none.
pub open spec fn author_or_message(
    lookup: Lookup,
    root_kind: u16,
    root: Seq<char>,
) -> Result<Seq<char>, Seq<char>> {
    match lookup {
        Lookup::Unreadable(message) => Err("root event parse failed: "@ + message),
        Lookup::Missing => Err(
            "no kind:"@ + text::decimal(root_kind as int) + " root event found with id "@ + root,
        ),
        Lookup::Found(None) => Err("root event missing pubkey"@),
        Lookup::Found(Some(author)) => Ok(author),
    }
}

/// Reads the reply to the query for a root event.
pub fn look_up_root(raw: &str) -> (lookup: RootLookup)
    ensures
        lookup@ == lookup_of(json::parsed_array(raw@)),
{
    match json::parse_array(raw) {
        Err(message) => RootLookup::Unreadable(message),
        Ok(events) => if events.len() == 0 {
            RootLookup::Missing
        } else {
            RootLookup::Found(text::owned(json::text_member(&events[0], "pubkey")))
        },
    }
}

/// The author of the root, out of the reply to the query for it.
pub fn root_author(lookup: RootLookup, root_kind: u16, root: &str) -> (r: Result<String, CliError>)
    ensures
        outcome(r) == author_or_message(lookup@, root_kind, root@),
        r is Ok <==> lookup matches RootLookup::Found(Some(_)),
        lookup matches RootLookup::Found(Some(author)) ==> r->Ok_0@ == author@,
{
    match lookup {
        RootLookup::Unreadable(message) => Err(
            CliError::Other(text::joined("root event parse failed: ", message.as_str())),
        ),
        RootLookup::Missing => {
            let numeral = text::decimal_text(root_kind);
            let head = text::joined("no kind:", numeral.as_str());
            let sentence = text::joined(head.as_str(), " root event found with id ");
            Err(CliError::Other(text::joined(sentence.as_str(), root)))
        },
        RootLookup::Found(None) => Err(CliError::Other("root event missing pubkey".to_owned())),
        RootLookup::Found(Some(author)) => Ok(author),
    }
}

/// The report of the status of a root.
#[derive(Debug, Clone, PartialEq, Eq)]
pub struct StatusReport {
    /// The id of the root.
    pub root: String,
    /// The state: the word of the status in force, or `open` where there is none.
    pub state: &'static str,
    /// Whether the state is the default, for want of a status event.
    pub implicit: bool,
    /// The kind of the status event.
    pub kind: Option<u16>,
    /// The author of the status event.
    pub author: Option<String>,
    /// The time of the status event.
    pub created_at: Option<u64>,
    /// The status event itself.
    pub event: Option<Value>,
}

/// The model of [`StatusReport`].
pub struct Report {
    pub root: Seq<char>,
    pub state: Seq<char>,
    pub implicit: bool,
    pub kind: Option<u16>,
    pub author: Option<Seq<char>>,
    pub created_at: Option<u64>,
    pub event: Option<Value>,
}

impl View for StatusReport {
    type V = Report;

    open spec fn view(&self) -> Report {
        Report {
            root: self.root@,
            state: self.state@,
            implicit: self.implicit,
            kind: self.kind,
            author: text::optional_string(self.author),
            created_at: self.created_at,
            event: self.event,
        }
    }
}

/// The report of `status`. Without a status event the root is open, and the report says that this
/// is the default.
pub open spec fn report_of(root: Seq<char>, status: Option<ResolvedStatus>) -> Report {
    match status {
        Some(resolved) => Report {
            root,
            state: git_status::word_of(resolved.kind),
            implicit: false,
            kind: Some(resolved.kind),
            author: Some(resolved.author@),
            created_at: Some(resolved.created_at),
            event: Some(resolved.event),
        },
        None => Report {
            root,
            state: "open"@,
            implicit: true,
            kind: None,
            author: None,
            created_at: None,
            event: None,
        },
    }
}

/// Reports the status of a root.
pub fn status_report(root: &str, status: Option<ResolvedStatus>) -> (report: StatusReport)
    ensures
        report@ == report_of(root@, status),
        report.root@ == root@,
        report.implicit == (status is None),
        status matches Some(resolved) ==> {
            &&& report.kind == Some(resolved.kind)
            &&& report.author matches Some(author) && author@ == resolved.author@
            &&& report.created_at == Some(resolved.created_at)
            &&& report.event == Some(resolved.event)
        },
{
    match status {
        Some(resolved) => StatusReport {
            root: root.to_owned(),
            state: status_word(resolved.kind),
            implicit: false,
            kind: Some(resolved.kind),
            author: Some(resolved.author),
            created_at: Some(resolved.created_at),
            event: Some(resolved.event),
        },
        None => StatusReport {
            root: root.to_owned(),
            state: "open",
            implicit: true,
            kind: None,
            author: None,
            created_at: None,
            event: None,
        },
    }
}

/// The members of the JSON object for a report. What the report lacks is `null`.
pub open spec fn envelope_of(report: Report) -> Map<Seq<char>, Json> {
    map![
        "root"@ => Json::Text(report.root),
        "state"@ => Json::Text(report.state),
        "implicit"@ => Json::Bool(report.implicit),
        "kind"@ => match report.kind {
            Some(kind) => Json::Natural(kind as u64),
            None => Json::Null,
        },
        "author"@ => match report.author {
            Some(author) => Json::Text(author),
            None => Json::Null,
        },
        "created_at"@ => match report.created_at {
            Some(time) => Json::Natural(time),
            None => Json::Null,
        },
        "event"@ => match report.event {
            Some(event) => json::json_of(event),
            None => Json::Null,
        },
    ]
}

/// The JSON object for a report.
pub fn envelope(report: &StatusReport) -> (object: Value)
    ensures
        json::json_of(object) == Json::Object(envelope_of(report@)),
{
    let kind = match report.kind {
        Some(kind) => json::natural(kind as u64),
        None => json::null(),
    };
    let author = match &report.author {
        Some(author) => json::text(author.as_str()),
        None => json::null(),
    };
    let created_at = match report.created_at {
        Some(time) => json::natural(time),
        None => json::null(),
    };
    let event = match &report.event {
        Some(event) => event.clone(),
        None => json::null(),
    };
    let mut object = json::object();
    json::set_member(&mut object, "root", json::text(report.root.as_str()));
    json::set_member(&mut object, "state", json::text(report.state));
    json::set_member(&mut object, "implicit", json::boolean(report.implicit));
    json::set_member(&mut object, "kind", kind);
    json::set_member(&mut object, "author", author);
    json::set_member(&mut object, "created_at", created_at);
    json::set_member(&mut object, "event", event);
    object
}

/// The text to print, or the message that says why there is none.
pub open spec fn output_or_message(written: Result<Seq<char>, Seq<char>>) -> Result<
    Seq<char>,
    Seq<char>,
> {
    match written {
        Ok(t) => Ok(t),
        Err(message) => Err("envelope serialize failed: "@ + message),
    }
}

/// The text to print, out of the attempt to write an envelope as JSON.
pub fn output_text(written: Result<String, String>) -> (r: Result<String, CliError>)
    ensures
        outcome(r) == output_or_message(json::written_view(written)),
        r is Ok <==> written is Ok,
        written matches Ok(t) ==> r->Ok_0@ == t@,
        written matches Err(message) ==> r->Err_0@ == "envelope serialize failed: "@ + message@,
{
    match written {
        Ok(t) => Ok(t),
        Err(message) => Err(
            CliError::Other(text::joined("envelope serialize failed: ", message.as_str())),
        ),
    }
}

/// `result` is the outcome of printing the report of `status`: an envelope with the members of the
/// report, written as indented JSON.
pub open spec fn is_output_for(
    root: Seq<char>,
    status: Option<ResolvedStatus>,
    result: Result<Seq<char>, Seq<char>>,
) -> bool {
    exists|object: Value| #[trigger]
        json::json_of(object) == Json::Object(envelope_of(report_of(root, status))) && result
            == output_or_message(json::pretty_printed(object))
}

/// The text that reports the status of a root: one JSON object.
pub fn status_output(root: &str, status: Option<ResolvedStatus>) -> (r: Result<String, CliError>)
    ensures
        r is Ok,
        is_output_for(root@, status, outcome(r)),
{
    let object = envelope(&status_report(root, status));
    output_text(json::to_string_pretty(&object))
}

/// The report of a resolved history says `implicit` exactly where no event of the history counts,
/// and the root is then open.
pub proof fn implicit_means_no_status_was_issued(
    events: Seq<Value>,
    root: Seq<char>,
    root_author: Seq<char>,
    repo_owner: Option<Seq<char>>,
    status: Option<ResolvedStatus>,
)
    requires
        git_status::is_status_of(events, root_author, repo_owner, status),
    ensures
        report_of(root, status).implicit <==> git_status::has_no_status(
            git_status::history_of(events),
            root_author,
            repo_owner,
        ),
        report_of(root, status).implicit ==> report_of(root, status).state == "open"@,
{
}

/// A status that was issued never reads like none, not even the status `open`: the envelopes
/// differ, and `implicit` tells which it is.
pub proof fn issued_status_differs_from_none(root: Seq<char>, resolved: ResolvedStatus)
    ensures
        envelope_of(report_of(root, Some(resolved)))["implicit"@] == Json::Bool(false),
        envelope_of(report_of(root, None))["implicit"@] == Json::Bool(true),
        envelope_of(report_of(root, Some(resolved))) != envelope_of(report_of(root, None)),
{
    reveal_strlit("implicit");
    reveal_strlit("kind");
    reveal_strlit("author");
    reveal_strlit("created_at");
    reveal_strlit("event");
    assert("implicit"@.len() == 8 && "kind"@.len() == 4 && "author"@.len() == 6
        && "created_at"@.len() == 10 && "event"@.len() == 5);
}

/// Every envelope has the same seven members.
pub proof fn envelope_has_all_members(report: Report)
    ensures
        envelope_of(report).dom() == set![
            "root"@,
            "state"@,
            "implicit"@,
            "kind"@,
            "author"@,
            "created_at"@,
            "event"@,
        ],
{
    assert(envelope_of(report).dom() =~= set![
        "root"@,
        "state"@,
        "implicit"@,
        "kind"@,
        "author"@,
        "created_at"@,
        "event"@,
    ]);
}

/// The state reported of a resolved history is open, merged, closed or draft.
pub proof fn reported_state_is_known(
    events: Seq<Value>,
    root: Seq<char>,
    root_author: Seq<char>,
    repo_owner: Option<Seq<char>>,
    status: Option<ResolvedStatus>,
)
    requires
        git_status::is_status_of(events, root_author, repo_owner, status),
    ensures
        ({
            let state = report_of(root, status).state;
            state == "open"@ || state == "merged"@ || state == "closed"@ || state == "draft"@
        }),
{
    if let Some(resolved) = status {
        let history = git_status::history_of(events);
        let w = choose|w: int| #[trigger]
            git_status::is_winner(history, root_author, repo_owner, w)
                && git_status::reports_event(resolved, events[w]);
        git_status::winner_has_known_state(history, root_author, repo_owner, w);
        assert(history[w] == git_status::fields_of(events[w]));
    }
}

/// The author of a root is the text `pubkey` of the first event of the reply, whatever follows it. A
/// reply without an event has no author, and neither has an event without that text; a reply that
/// does not parse gives the message of the parser.
pub proof fn author_comes_from_the_first_event(
    events: Seq<Value>,
    members: Map<Seq<char>, Json>,
    author: Seq<char>,
    message: Seq<char>,
)
    ensures
        lookup_of(Ok(Seq::empty())) == Lookup::Missing,
        lookup_of(Err(message)) == Lookup::Unreadable(message),
        events.len() > 0 ==> lookup_of(Ok(events)) == lookup_of(Ok(seq![events[0]])),
        events.len() > 0 ==> lookup_of(Ok(events)) is Found,
        events.len() > 0 && json::json_of(events[0]) !is Object ==> lookup_of(Ok(events))
            == Lookup::Found(None),
        events.len() > 0 && json::json_of(events[0]) == Json::Object(members) ==> {
            &&& lookup_of(Ok(events)) == Lookup::Found(Some(author)) <==> members.contains_key(
                "pubkey"@,
            ) && members["pubkey"@] == Json::Text(author)
        },
        lookup_of(Ok(events)) == Lookup::Missing ==> events.len() == 0,
{
}

/// A root whose author was found gives that author. Every other reply is a failure, and its message
/// names what is wrong: the words of the parser, or the kind and the id that were not found.
pub proof fn lookups_without_an_author_fail(
    lookup: Lookup,
    root_kind: u16,
    root: Seq<char>,
    author: Seq<char>,
    message: Seq<char>,
)
    ensures
        author_or_message(Lookup::Found(Some(author)), root_kind, root) == Ok::<
            Seq<char>,
            Seq<char>,
        >(author),
        author_or_message(lookup, root_kind, root) is Ok ==> lookup is Found && lookup->Found_0
            == Some(author_or_message(lookup, root_kind, root)->Ok_0),
        author_or_message(Lookup::Unreadable(message), root_kind, root) == Err::<
            Seq<char>,
            Seq<char>,
        >("root event parse failed: "@ + message),
        author_or_message(Lookup::Found(None), root_kind, root) == Err::<Seq<char>, Seq<char>>(
            "root event missing pubkey"@,
        ),
        author_or_message(Lookup::Missing, root_kind, root) == Err::<Seq<char>, Seq<char>>(
            "no kind:"@ + text::decimal(root_kind as int) + " root event found with id "@ + root,
        ),
{
}

/// Each member of an envelope carries the value of the report of its name, as a text, a number or a
/// truth value; what the report lacks is `null`, and only that.
pub proof fn envelope_carries_the_report(report: Report)
    ensures
        ({
            let members = envelope_of(report);
            &&& members["root"@] == Json::Text(report.root)
            &&& members["state"@] == Json::Text(report.state)
            &&& members["implicit"@] == Json::Bool(report.implicit)
            &&& report.kind matches Some(kind) ==> members["kind"@] == Json::Natural(kind as u64)
            &&& report.kind is None ==> members["kind"@] == Json::Null
            &&& report.author matches Some(author) ==> members["author"@] == Json::Text(author)
            &&& report.author is None ==> members["author"@] == Json::Null
            &&& report.created_at matches Some(time) ==> members["created_at"@] == Json::Natural(
                time,
            )
            &&& report.created_at is None ==> members["created_at"@] == Json::Null
            &&& report.event matches Some(event) ==> members["event"@] == json::json_of(event)
            &&& report.event is None ==> members["event"@] == Json::Null
        }),
{
    lemma_keys_differ();
}

proof fn lemma_keys_differ()
    ensures
        "root"@ != "state"@,
        "root"@ != "implicit"@,
        "root"@ != "kind"@,
        "root"@ != "author"@,
        "root"@ != "created_at"@,
        "root"@ != "event"@,
        "state"@ != "implicit"@,
        "state"@ != "kind"@,
        "state"@ != "author"@,
        "state"@ != "created_at"@,
        "state"@ != "event"@,
        "implicit"@ != "kind"@,
        "implicit"@ != "author"@,
        "implicit"@ != "created_at"@,
        "implicit"@ != "event"@,
        "kind"@ != "author"@,
        "kind"@ != "created_at"@,
        "kind"@ != "event"@,
        "author"@ != "created_at"@,
        "author"@ != "event"@,
        "created_at"@ != "event"@,
{
    reveal_strlit("root");
    reveal_strlit("state");
    reveal_strlit("implicit");
    reveal_strlit("kind");
    reveal_strlit("author");
    reveal_strlit("created_at");
    reveal_strlit("event");
    assert("root"@[0] == 'r' && "kind"@[0] == 'k' && "state"@[0] == 's' && "event"@[0] == 'e');
    assert("implicit"@.len() == 8 && "author"@.len() == 6 && "created_at"@.len() == 10);
}

/// The envelope of a resolved status carries the status: its kind and the word of that kind, its
/// author, its time, and its event whole.
pub proof fn envelope_carries_the_status(root: Seq<char>, resolved: ResolvedStatus)
    ensures
        ({
            let members = envelope_of(report_of(root, Some(resolved)));
            &&& members["root"@] == Json::Text(root)
            &&& members["state"@] == Json::Text(git_status::word_of(resolved.kind))
            &&& members["implicit"@] == Json::Bool(false)
            &&& members["kind"@] == Json::Natural(resolved.kind as u64)
            &&& members["author"@] == Json::Text(resolved.author@)
            &&& members["created_at"@] == Json::Natural(resolved.created_at)
            &&& members["event"@] == json::json_of(resolved.event)
        }),
{
    lemma_keys_differ();
}

/// The envelope of a root without a status says that it is open by default, and leaves the rest
/// empty.
pub proof fn envelope_without_a_status(root: Seq<char>)
    ensures
        ({
            let members = envelope_of(report_of(root, None));
            &&& members["root"@] == Json::Text(root)
            &&& members["state"@] == Json::Text("open"@)
            &&& members["implicit"@] == Json::Bool(true)
            &&& members["kind"@] == Json::Null
            &&& members["author"@] == Json::Null
            &&& members["created_at"@] == Json::Null
            &&& members["event"@] == Json::Null
        }),
{
    lemma_keys_differ();
}

/// The envelope of a resolved history agrees with the event that it holds: `kind`, `created_at` and
/// `author` are the members `kind`, `created_at` and `pubkey` of `event`.
pub proof fn envelope_agrees_with_its_event(
    events: Seq<Value>,
    root: Seq<char>,
    root_author: Seq<char>,
    repo_owner: Option<Seq<char>>,
    resolved: ResolvedStatus,
)
    requires
        git_status::is_status_of(events, root_author, repo_owner, Some(resolved)),
    ensures
        ({
            let members = envelope_of(report_of(root, Some(resolved)));
            &&& members["event"@] is Object
            &&& members["kind"@] == members["event"@]->Object_0["kind"@]
            &&& members["created_at"@] == members["event"@]->Object_0["created_at"@]
            &&& members["author"@] == members["event"@]->Object_0["pubkey"@]
        }),
{
    lemma_keys_differ();
    git_status::status_mirrors_an_event_of_the_history(
        events,
        root_author,
        repo_owner,
        resolved,
    );
}

/// Envelopes of statuses that differ in kind, author or time differ in that member.
pub proof fn envelopes_tell_statuses_apart(root: Seq<char>, a: ResolvedStatus, b: ResolvedStatus)
    ensures
        ({
            let x = envelope_of(report_of(root, Some(a)));
            let y = envelope_of(report_of(root, Some(b)));
            &&& a.kind != b.kind ==> x["kind"@] != y["kind"@]
            &&& a.author@ != b.author@ ==> x["author"@] != y["author"@]
            &&& a.created_at != b.created_at ==> x["created_at"@] != y["created_at"@]
        }),
{
    lemma_keys_differ();
}

/// The text that is printed is the indented JSON of an object whose members are those of the report.
pub proof fn printed_text_holds_the_status(
    root: Seq<char>,
    status: Option<ResolvedStatus>,
    t: Seq<char>,
)
    requires
        is_output_for(root, status, Ok(t)),
    ensures
        exists|object: Value| #[trigger]
            json::pretty_printed(object) == Ok::<Seq<char>, Seq<char>>(t) && json::json_of(object)
                is Object && {
                let members = json::json_of(object)->Object_0;
                &&& members["root"@] == Json::Text(root)
                &&& members["implicit"@] == Json::Bool(status is None)
                &&& status matches Some(resolved) ==> {
                    &&& members["state"@] == Json::Text(git_status::word_of(resolved.kind))
                    &&& members["kind"@] == Json::Natural(resolved.kind as u64)
                    &&& members["author"@] == Json::Text(resolved.author@)
                    &&& members["created_at"@] == Json::Natural(resolved.created_at)
                    &&& members["event"@] == json::json_of(resolved.event)
                }
                &&& status is None ==> {
                    &&& members["state"@] == Json::Text("open"@)
                    &&& members["kind"@] == Json::Null
                    &&& members["author"@] == Json::Null
                    &&& members["created_at"@] == Json::Null
                    &&& members["event"@] == Json::Null
                }
            },
{
    lemma_keys_differ();
    let object = choose|object: Value| #[trigger]
        json::json_of(object) == Json::Object(envelope_of(report_of(root, status))) && Ok::<
            Seq<char>,
            Seq<char>,
        >(t) == output_or_message(json::pretty_printed(object));
    assert(json::pretty_printed(object) == Ok::<Seq<char>, Seq<char>>(t));
}

/// The models of a report, of a lookup and of an outcome hold every field as it is.
pub proof fn report_fields_are_kept(
    report: StatusReport,
    lookup: RootLookup,
    result: Result<String, CliError>,
)
    ensures
        result matches Ok(t) ==> outcome(result) == Ok::<Seq<char>, Seq<char>>(t@),
        result matches Err(CliError::Other(message)) ==> outcome(result) == Err::<
            Seq<char>,
            Seq<char>,
        >(message@),
        report@.root == report.root@,
        report@.state == report.state@,
        report@.implicit == report.implicit,
        report@.kind == report.kind,
        report@.author is Some <==> report.author is Some,
        report.author matches Some(author) ==> report@.author == Some(author@),
        report@.created_at == report.created_at,
        report@.event == report.event,
        lookup matches RootLookup::Unreadable(message) ==> lookup@ == Lookup::Unreadable(message@),
        lookup is Missing ==> lookup@ == Lookup::Missing,
        lookup matches RootLookup::Found(None) ==> lookup@ == Lookup::Found(None),
        lookup matches RootLookup::Found(Some(author)) ==> lookup@ == Lookup::Found(Some(author@)),
{
}

} // verus!
