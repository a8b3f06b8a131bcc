//! The two commands around the status of a root, as steps between calls to the relay.
//!
//! A step says what is to be done next and holds what resumes the command with the reply. The
//! caller only validates, queries and prints.
use crate::git_status;
use crate::git_status::{pick_winning_status, CliError, ResolvedStatus, GIT_STATUS_KINDS};
use crate::json;
use crate::json::Json;
use crate::status_report;
use crate::status_report::{look_up_root, root_author, status_output};
use crate::text;
use serde_json::Value;
use vstd::prelude::*;

verus! {

/// How many status events are fetched of one root at most.
pub const STATUS_FETCH_LIMIT: u32 = 1000;

/// The members of the filter for the status events of a root.
pub open spec fn status_filter_of(root_id: Seq<char>) -> Map<Seq<char>, Json> {
    map![
        "kinds"@ => Json::Array(
            seq![
                Json::Natural(1630),
                Json::Natural(1631),
                Json::Natural(1632),
                Json::Natural(1633),
            ],
        ),
        "#e"@ => Json::Array(seq![Json::Text(root_id)]),
    ]
}

/// The members of the filter for a root event.
pub open spec fn root_filter_of(root_kind: u16, root: Seq<char>) -> Map<Seq<char>, Json> {
    map![
        "kinds"@ => Json::Array(seq![Json::Natural(root_kind as u64)]),
        "ids"@ => Json::Array(seq![Json::Text(root)]),
    ]
}

/// An array of one value.
fn singleton(item: Value) -> (r: Value)
    ensures
        json::json_of(r) == Json::Array(seq![json::json_of(item)]),
{
    let mut items: Vec<Value> = Vec::new();
    items.push(item);
    assert(json::contents(items@) =~= seq![json::json_of(item)]);
    json::array(items)
}

/// The filter for the status events of a root: every status kind, tagged with the root.
pub fn status_filter(root_id: &str) -> (filter: Value)
    ensures
        json::json_of(filter) == Json::Object(status_filter_of(root_id@)),
{
    let mut kinds: Vec<Value> = Vec::new();
    let mut i: usize = 0;
    while i < 4
        invariant
            i <= 4,
            kinds@.len() == i,
            forall|k: int|
                0 <= k < i ==> json::json_of(#[trigger] kinds@[k]) == Json::Natural(
                    GIT_STATUS_KINDS@[k] as u64,
                ),
        decreases 4 - i,
    {
        kinds.push(json::natural(GIT_STATUS_KINDS[i] as u64));
        i = i + 1;
    }
    assert(json::contents(kinds@) =~= seq![
        Json::Natural(1630),
        Json::Natural(1631),
        Json::Natural(1632),
        Json::Natural(1633),
    ]);
    let mut filter = json::object();
    json::set_member(&mut filter, "kinds", json::array(kinds));
    json::set_member(&mut filter, "#e", singleton(json::text(root_id)));
    filter
}

/// The filter for a root event: its kind and its id.
pub fn root_filter(root_kind: u16, root: &str) -> (filter: Value)
    ensures
        json::json_of(filter) == Json::Object(root_filter_of(root_kind, root@)),
{
    let mut filter = json::object();
    json::set_member(&mut filter, "kinds", singleton(json::natural(root_kind as u64)));
    json::set_member(&mut filter, "ids", singleton(json::text(root)));
    filter
}

/// Whose status is to be resolved, and who may set it.
#[derive(Debug, Clone, PartialEq, Eq)]
pub struct StatusRequest {
    /// The id of the root.
    pub root_id: String,
    /// The author of the root.
    pub root_author: String,
    /// The owner of the repository, where the caller knows it.
    pub repo_owner: Option<String>,
}

/// The model of [`StatusRequest`].
pub struct Request {
    pub root_id: Seq<char>,
    pub root_author: Seq<char>,
    pub repo_owner: Option<Seq<char>>,
}

impl View for StatusRequest {
    type V = Request;

    open spec fn view(&self) -> Request {
        Request {
            root_id: self.root_id@,
            root_author: self.root_author@,
            repo_owner: text::optional_string(self.repo_owner),
        }
    }
}

/// A failure that ends a command. `E` is what the client of the relay fails with.
#[derive(Debug, Clone, PartialEq, Eq)]
pub enum StepError<E> {
    /// A failure of the client, handed on as it came.
    Client(E),
    /// A failure that the command found itself.
    Command(CliError),
}

/// The model of [`StepError`].
pub enum Failure<E> {
    Client(E),
    Message(Seq<char>),
}

impl<E> View for StepError<E> {
    type V = Failure<E>;

    open spec fn view(&self) -> Failure<E> {
        match *self {
            StepError::Client(e) => Failure::Client(e),
            StepError::Command(e) => Failure::Message(e@),
        }
    }
}

/// What is to be done next to resolve a status.
pub enum ResolveStep<E> {
    /// Validate `id` as 64 hexadecimal digits.
    CheckRoot { id: String, check: HistoryRootCheck },
    /// Fetch the events that match `filter`, up to `limit` of them.
    FetchHistory { filter: Value, limit: u32, fetch: HistoryFetch },
    /// The status in force, or `None` where there is none.
    Done(Option<ResolvedStatus>),
    /// The failure that ends the resolution.
    Fail(StepError<E>),
}

/// The model of [`ResolveStep`].
pub enum ResolveNext<E> {
    CheckRoot { id: Seq<char>, request: Request },
    FetchHistory { filter: Json, limit: u32, request: Request },
    Done(Option<ResolvedStatus>),
    Fail(Failure<E>),
}

impl<E> View for ResolveStep<E> {
    type V = ResolveNext<E>;

    open spec fn view(&self) -> ResolveNext<E> {
        match *self {
            ResolveStep::CheckRoot { id, check } => ResolveNext::CheckRoot {
                id: id@,
                request: check.request@,
            },
            ResolveStep::FetchHistory { filter, limit, fetch } => ResolveNext::FetchHistory {
                filter: json::json_of(filter),
                limit,
                request: fetch.request@,
            },
            ResolveStep::Done(status) => ResolveNext::Done(status),
            ResolveStep::Fail(e) => ResolveNext::Fail(e@),
        }
    }
}

/// A resolution that waits for the validation of the root id.
pub struct HistoryRootCheck {
    pub request: StatusRequest,
}

/// A resolution that waits for the status events of the root.
pub struct HistoryFetch {
    pub request: StatusRequest,
}

/// The step after the validation of the root id: the fetch, unless the id was refused.
pub open spec fn after_root_check<E>(request: Request, verdict: Result<(), E>) -> ResolveNext<
    E,
> {
    match verdict {
        Ok(_) => ResolveNext::FetchHistory {
            filter: Json::Object(status_filter_of(request.root_id)),
            limit: STATUS_FETCH_LIMIT,
            request,
        },
        Err(e) => ResolveNext::Fail(Failure::Client(e)),
    }
}

/// Begins to resolve the status of a root. The outcome is the status event in force, or `None`
/// where there is none yet; the root is then open by default.
pub fn resolve_git_status<E>(
    root_id: &str,
    root_author: &str,
    repo_owner: Option<&str>,
) -> (step: ResolveStep<E>)
    ensures
        step@ == (ResolveNext::<E>::CheckRoot {
            id: root_id@,
            request: Request {
                root_id: root_id@,
                root_author: root_author@,
                repo_owner: text::optional_text(repo_owner),
            },
        }),
{
    let request = StatusRequest {
        root_id: root_id.to_owned(),
        root_author: root_author.to_owned(),
        repo_owner: text::owned(repo_owner),
    };
    ResolveStep::CheckRoot { id: root_id.to_owned(), check: HistoryRootCheck { request } }
}

impl HistoryRootCheck {
    /// Goes on with the verdict on the root id.
    pub fn resume<E>(self, verdict: Result<(), E>) -> (step: ResolveStep<E>)
        ensures
            step@ == after_root_check(self.request@, verdict),
    {
        match verdict {
            Ok(_) => ResolveStep::FetchHistory {
                filter: status_filter(self.request.root_id.as_str()),
                limit: STATUS_FETCH_LIMIT,
                fetch: HistoryFetch { request: self.request },
            },
            Err(e) => ResolveStep::Fail(StepError::Client(e)),
        }
    }
}

impl HistoryFetch {
    /// Goes on with the status events of the root.
    pub fn resume<E>(self, reply: Result<Vec<Value>, E>) -> (step: ResolveStep<E>)
        ensures
            reply matches Err(e) ==> step@ == ResolveNext::Fail(Failure::Client(e)),
            reply matches Ok(events) ==> (step@ matches ResolveNext::Done(status)
                && git_status::is_status_of(
                events@,
                self.request@.root_author,
                self.request@.repo_owner,
                status,
            )),
    {
        match reply {
            Ok(events) => {
                let resolved = pick_winning_status(
                    events.as_slice(),
                    self.request.root_author.as_str(),
                    text::borrowed(&self.request.repo_owner),
                );
                match resolved {
                    Ok(status) => ResolveStep::Done(status),
                    Err(e) => ResolveStep::Fail(StepError::Command(e)),
                }
            },
            Err(e) => ResolveStep::Fail(StepError::Client(e)),
        }
    }
}

/// The arguments of the command that reports the status of a root.
#[derive(Debug, Clone, PartialEq, Eq)]
pub struct StatusGet {
    /// The id of the root.
    pub root: String,
    /// The kind of the root.
    pub root_kind: u16,
    /// The owner of the repository, where it was given.
    pub repo_owner: Option<String>,
}

/// The model of [`StatusGet`].
pub struct Command {
    pub root: Seq<char>,
    pub root_kind: u16,
    pub repo_owner: Option<Seq<char>>,
}

impl View for StatusGet {
    type V = Command;

    open spec fn view(&self) -> Command {
        Command {
            root: self.root@,
            root_kind: self.root_kind,
            repo_owner: text::optional_string(self.repo_owner),
        }
    }
}

/// What is to be done next to report the status of a root.
pub enum GetStep<E> {
    /// Validate the id of the root as 64 hexadecimal digits.
    CheckRoot { id: String, check: RootCheck },
    /// Validate the owner as 64 hexadecimal digits.
    CheckOwner { id: String, check: OwnerCheck },
    /// Query for the events that match `filter`.
    QueryRoot { filter: Value, query: RootQuery },
    /// Resolve the status of the root.
    Resolve { request: StatusRequest, pending: PendingReport },
    /// The output of the command, which ends it.
    Print(String),
    /// The failure that ends the command.
    Fail(StepError<E>),
}

/// The model of [`GetStep`].
pub enum GetNext<E> {
    CheckRoot { id: Seq<char>, command: Command },
    CheckOwner { id: Seq<char>, command: Command },
    QueryRoot { filter: Json, command: Command },
    Resolve { request: Request, root: Seq<char> },
    Print(Seq<char>),
    Fail(Failure<E>),
}

impl<E> View for GetStep<E> {
    type V = GetNext<E>;

    open spec fn view(&self) -> GetNext<E> {
        match *self {
            GetStep::CheckRoot { id, check } => GetNext::CheckRoot {
                id: id@,
                command: check.command@,
            },
            GetStep::CheckOwner { id, check } => GetNext::CheckOwner {
                id: id@,
                command: check.command@,
            },
            GetStep::QueryRoot { filter, query } => GetNext::QueryRoot {
                filter: json::json_of(filter),
                command: query.command@,
            },
            GetStep::Resolve { request, pending } => GetNext::Resolve {
                request: request@,
                root: pending.root@,
            },
            GetStep::Print(t) => GetNext::Print(t@),
            GetStep::Fail(e) => GetNext::Fail(e@),
        }
    }
}

/// A command that waits for the validation of the root id.
pub struct RootCheck {
    pub command: StatusGet,
}

/// A command that waits for the validation of the owner.
pub struct OwnerCheck {
    pub command: StatusGet,
}

/// A command that waits for the root event.
pub struct RootQuery {
    pub command: StatusGet,
}

/// A command that waits for the status of the root.
pub struct PendingReport {
    pub root: String,
}

/// The query for the root event of a command.
pub open spec fn root_query_of<E>(command: Command) -> GetNext<E> {
    GetNext::QueryRoot {
        filter: Json::Object(root_filter_of(command.root_kind, command.root)),
        command,
    }
}

/// The step after the verdict on the root id: the owner is next, where one was given.
pub open spec fn after_id_check<E>(command: Command, verdict: Result<(), E>) -> GetNext<E> {
    match (verdict, command.repo_owner) {
        (Err(e), _) => GetNext::Fail(Failure::Client(e)),
        (Ok(_), Some(owner)) => GetNext::CheckOwner { id: owner, command },
        (Ok(_), None) => root_query_of(command),
    }
}

/// The step after the verdict on the owner.
pub open spec fn after_owner_check<E>(command: Command, verdict: Result<(), E>) -> GetNext<E> {
    match verdict {
        Err(e) => GetNext::Fail(Failure::Client(e)),
        Ok(_) => root_query_of(command),
    }
}

/// The step after a reply to the query for the root that holds `lookup`.
pub open spec fn after_lookup<E>(command: Command, lookup: status_report::Lookup) -> GetNext<E> {
    match status_report::author_or_message(lookup, command.root_kind, command.root) {
        Err(message) => GetNext::Fail(Failure::Message(message)),
        Ok(author) => GetNext::Resolve {
            request: Request {
                root_id: command.root,
                root_author: author,
                repo_owner: command.repo_owner,
            },
            root: command.root,
        },
    }
}

/// Begins to report the status of a root.
pub fn cmd_git_status_get<E>(
    root: &str,
    root_kind: u16,
    repo_owner: Option<&str>,
) -> (step: GetStep<E>)
    ensures
        step@ == (GetNext::<E>::CheckRoot {
            id: root@,
            command: Command {
                root: root@,
                root_kind,
                repo_owner: text::optional_text(repo_owner),
            },
        }),
{
    let command = StatusGet {
        root: root.to_owned(),
        root_kind,
        repo_owner: text::owned(repo_owner),
    };
    GetStep::CheckRoot { id: root.to_owned(), check: RootCheck { command } }
}

/// Asks for the root event of a command.
fn query_root<E>(command: StatusGet) -> (step: GetStep<E>)
    ensures
        step@ == root_query_of::<E>(command@),
{
    GetStep::QueryRoot {
        filter: root_filter(command.root_kind, command.root.as_str()),
        query: RootQuery { command },
    }
}

impl RootCheck {
    /// Goes on with the verdict on the root id.
    pub fn resume<E>(self, verdict: Result<(), E>) -> (step: GetStep<E>)
        ensures
            step@ == after_id_check(self.command@, verdict),
    {
        match verdict {
            Err(e) => GetStep::Fail(StepError::Client(e)),
            Ok(_) => match text::owned(text::borrowed(&self.command.repo_owner)) {
                Some(owner) => GetStep::CheckOwner {
                    id: owner,
                    check: OwnerCheck { command: self.command },
                },
                None => query_root(self.command),
            },
        }
    }
}

impl OwnerCheck {
    /// Goes on with the verdict on the owner.
    pub fn resume<E>(self, verdict: Result<(), E>) -> (step: GetStep<E>)
        ensures
            step@ == after_owner_check(self.command@, verdict),
    {
        match verdict {
            Err(e) => GetStep::Fail(StepError::Client(e)),
            Ok(_) => query_root(self.command),
        }
    }
}

impl RootQuery {
    /// Goes on with the reply to the query for the root event.
    pub fn resume<E>(self, reply: Result<String, E>) -> (step: GetStep<E>)
        ensures
            reply matches Err(e) ==> step@ == GetNext::Fail(Failure::Client(e)),
            reply matches Ok(raw) ==> step@ == after_lookup::<E>(
                self.command@,
                status_report::lookup_of(json::parsed_array(raw@)),
            ),
    {
        match reply {
            Err(e) => GetStep::Fail(StepError::Client(e)),
            Ok(raw) => self.found(look_up_root(raw.as_str())),
        }
    }

    /// Goes on with what the reply to the query for the root event holds.
    pub fn found<E>(self, lookup: status_report::RootLookup) -> (step: GetStep<E>)
        ensures
            step@ == after_lookup::<E>(self.command@, lookup@),
            lookup matches status_report::RootLookup::Found(Some(author)) ==> (
            step matches GetStep::Resolve { request, pending } && {
                &&& request.root_id@ == self.command.root@
                &&& request.root_author@ == author@
                &&& text::optional_string(request.repo_owner) == text::optional_string(
                    self.command.repo_owner,
                )
                &&& pending.root@ == self.command.root@
            }),
    {
        let command = self.command;
        match root_author(lookup, command.root_kind, command.root.as_str()) {
            Err(e) => GetStep::Fail(StepError::Command(e)),
            Ok(author) => {
                let root = command.root.as_str().to_owned();
                GetStep::Resolve {
                    request: StatusRequest {
                        root_id: command.root,
                        root_author: author,
                        repo_owner: command.repo_owner,
                    },
                    pending: PendingReport { root },
                }
            },
        }
    }
}

impl PendingReport {
    /// Ends the command with the status of the root: its report is printed, unless the status
    /// could not be resolved.
    pub fn resume<E>(self, reply: Result<Option<ResolvedStatus>, E>) -> (step: GetStep<E>)
        ensures
            reply matches Err(e) ==> step@ == GetNext::Fail(Failure::Client(e)),
            reply matches Ok(status) ==> (step@ matches GetNext::Print(t)
                && status_report::is_output_for(self.root@, status, Ok(t))),
    {
        match reply {
            Err(e) => GetStep::Fail(StepError::Client(e)),
            Ok(status) => match status_output(self.root.as_str(), status) {
                Ok(t) => GetStep::Print(t),
                Err(e) => GetStep::Fail(StepError::Command(e)),
            },
        }
    }
}

/// Nothing is queried before every id that was given has passed its validation, and an id that is
/// refused ends the command with the reason.
pub proof fn ids_are_validated_first<E>(command: Command, verdict: Result<(), E>)
    ensures
        after_id_check(command, verdict) is QueryRoot ==> verdict is Ok && command.repo_owner
            is None,
        after_id_check(command, verdict) is CheckOwner <==> verdict is Ok && command.repo_owner
            is Some,
        after_owner_check(command, verdict) is QueryRoot <==> verdict is Ok,
        verdict matches Err(e) ==> {
            &&& after_id_check(command, verdict) == GetNext::Fail(Failure::Client(e))
            &&& after_owner_check(command, verdict) == GetNext::Fail(Failure::Client(e))
        },
{
}

/// A root that was not found is a failure and never reads as an open root: without an author of
/// the root no status is resolved.
pub proof fn missing_root_is_a_failure<E>(command: Command, lookup: status_report::Lookup)
    ensures
        after_lookup::<E>(command, lookup) is Resolve <==> lookup matches status_report::Lookup::Found(
            Some(_),
        ),
        after_lookup::<E>(command, lookup) is Resolve || after_lookup::<E>(command, lookup) is Fail,
{
}

/// The filter for the status events of a root asks for the events that are tagged with this root and
/// no other, and for the kinds from 1630 to 1633, each of them and nothing else.
pub proof fn status_filter_asks_for_the_statuses_of_the_root(root_id: Seq<char>, item: Json)
    ensures
        ({
            let members = status_filter_of(root_id);
            &&& members.dom() == set!["kinds"@, "#e"@]
            &&& members["#e"@] == Json::Array(seq![Json::Text(root_id)])
            &&& members["kinds"@] is Array
            &&& members["kinds"@]->Array_0.contains(item) <==> (item matches Json::Natural(kind)
                && 1630 <= kind <= 1633)
            &&& members["kinds"@]->Array_0.len() == 4
        }),
{
    reveal_strlit("kinds");
    reveal_strlit("#e");
    assert("kinds"@.len() == 5 && "#e"@.len() == 2);
    let members = status_filter_of(root_id);
    assert(members.dom() =~= set!["kinds"@, "#e"@]);
    let kinds = members["kinds"@]->Array_0;
    assert(kinds[0] == Json::Natural(1630) && kinds[1] == Json::Natural(1631) && kinds[2]
        == Json::Natural(1632) && kinds[3] == Json::Natural(1633));
    if let Json::Natural(kind) = item {
        if 1630 <= kind <= 1633 {
            assert(kinds[kind as int - 1630] == item);
        }
    }
}

/// The filter for a root event asks for one kind and one id: those of the command.
pub proof fn root_filter_asks_for_the_root(root_kind: u16, root: Seq<char>)
    ensures
        ({
            let members = root_filter_of(root_kind, root);
            &&& members.dom() == set!["kinds"@, "ids"@]
            &&& members["kinds"@] == Json::Array(seq![Json::Natural(root_kind as u64)])
            &&& members["ids"@] == Json::Array(seq![Json::Text(root)])
        }),
{
    reveal_strlit("kinds");
    reveal_strlit("ids");
    assert("kinds"@.len() == 5 && "ids"@.len() == 3);
    assert(root_filter_of(root_kind, root).dom() =~= set!["kinds"@, "ids"@]);
}

/// A resolution fetches the history of the root it was asked for, keeps the request, and stops at a
/// refused id.
pub proof fn resolution_fetches_the_history_of_its_root<E>(request: Request, e: E)
    ensures
        after_root_check::<E>(request, Ok(())) == (ResolveNext::<E>::FetchHistory {
            filter: Json::Object(status_filter_of(request.root_id)),
            limit: 1000,
            request,
        }),
        after_root_check(request, Err(e)) == ResolveNext::Fail(Failure::Client(e)),
{
}

/// A command whose ids are valid asks for its own root and keeps its arguments: at once where no
/// owner was given, and else after the owner has been validated too.
pub proof fn command_asks_for_its_own_root<E>(root: Seq<char>, root_kind: u16, owner: Seq<char>)
    ensures
        ({
            let alone = Command { root, root_kind, repo_owner: None };
            let owned = Command { root, root_kind, repo_owner: Some(owner) };
            let filter = Json::Object(root_filter_of(root_kind, root));
            &&& after_id_check::<E>(alone, Ok(())) == (GetNext::<E>::QueryRoot {
                filter,
                command: alone,
            })
            &&& after_id_check::<E>(owned, Ok(())) == (GetNext::<E>::CheckOwner {
                id: owner,
                command: owned,
            })
            &&& after_owner_check::<E>(owned, Ok(())) == (GetNext::<E>::QueryRoot {
                filter,
                command: owned,
            })
        }),
{
}

/// The resolution is for the root that was asked for, with the author that the root event names and
/// the owner that the command was given, or with none where none was given. Without an author the
/// command fails, with the message that says why.
pub proof fn resolution_takes_the_arguments_of_the_command<E>(
    root: Seq<char>,
    root_kind: u16,
    repo_owner: Option<Seq<char>>,
    author: Seq<char>,
    lookup: status_report::Lookup,
)
    ensures
        ({
            let command = Command { root, root_kind, repo_owner };
            let found = status_report::Lookup::Found(Some(author));
            &&& after_lookup::<E>(command, found) matches GetNext::Resolve { request, root: reported }
                && {
                &&& request.root_id == root
                &&& request.root_author == author
                &&& request.repo_owner == repo_owner
                &&& reported == root
            }
            &&& status_report::author_or_message(lookup, root_kind, root) matches Err(message)
                ==> after_lookup::<E>(command, lookup) == GetNext::<E>::Fail(
                Failure::Message(message),
            )
        }),
{
}

/// The status that a command ends with is that of the fetched events under the author whom the first
/// event of the reply names and the owner that the command was given.
pub proof fn command_resolves_under_author_and_owner<E>(
    command: Command,
    reply: Seq<Value>,
    members: Map<Seq<char>, Json>,
    author: Seq<char>,
    events: Seq<Value>,
    status: Option<ResolvedStatus>,
)
    requires
        reply.len() > 0,
        json::json_of(reply[0]) == Json::Object(members),
        members.contains_key("pubkey"@) && members["pubkey"@] == Json::Text(author),
        ({
            let next = after_lookup::<E>(command, status_report::lookup_of(Ok(reply)));
            next matches GetNext::Resolve { request, .. } ==> git_status::is_status_of(
                events,
                request.root_author,
                request.repo_owner,
                status,
            )
        }),
    ensures
        git_status::is_status_of(events, author, command.repo_owner, status),
{
}

/// The models of requests, commands and steps hold every field as it is.
pub proof fn step_fields_are_kept<E>(
    request: StatusRequest,
    command: StatusGet,
    resolve: ResolveStep<E>,
    get: GetStep<E>,
)
    ensures
        request@.root_id == request.root_id@,
        request@.root_author == request.root_author@,
        request.repo_owner is None ==> request@.repo_owner is None,
        request.repo_owner matches Some(owner) ==> request@.repo_owner == Some(owner@),
        command@.root == command.root@,
        command@.root_kind == command.root_kind,
        command.repo_owner is None ==> command@.repo_owner is None,
        command.repo_owner matches Some(owner) ==> command@.repo_owner == Some(owner@),
        resolve matches ResolveStep::CheckRoot { id, check } ==> resolve@ == (
        ResolveNext::<E>::CheckRoot { id: id@, request: check.request@ }),
        resolve matches ResolveStep::FetchHistory { filter, limit, fetch } ==> resolve@ == (
        ResolveNext::<E>::FetchHistory {
            filter: json::json_of(filter),
            limit,
            request: fetch.request@,
        }),
        resolve matches ResolveStep::Done(status) ==> resolve@ == ResolveNext::<E>::Done(status),
        resolve matches ResolveStep::Fail(StepError::Client(e)) ==> resolve@ == ResolveNext::Fail(
            Failure::Client(e),
        ),
        resolve matches ResolveStep::Fail(StepError::Command(CliError::Other(message)))
            ==> resolve@ == ResolveNext::<E>::Fail(Failure::Message(message@)),
        get matches GetStep::CheckRoot { id, check } ==> get@ == (GetNext::<E>::CheckRoot {
            id: id@,
            command: check.command@,
        }),
        get matches GetStep::CheckOwner { id, check } ==> get@ == (GetNext::<E>::CheckOwner {
            id: id@,
            command: check.command@,
        }),
        get matches GetStep::QueryRoot { filter, query } ==> get@ == (GetNext::<E>::QueryRoot {
            filter: json::json_of(filter),
            command: query.command@,
        }),
        get matches GetStep::Resolve { request, pending } ==> get@ == (GetNext::<E>::Resolve {
            request: request@,
            root: pending.root@,
        }),
        get matches GetStep::Print(t) ==> get@ == GetNext::<E>::Print(t@),
        get matches GetStep::Fail(StepError::Client(e)) ==> get@ == GetNext::Fail(
            Failure::Client(e),
        ),
        get matches GetStep::Fail(StepError::Command(CliError::Other(message))) ==> get@
            == GetNext::<E>::Fail(Failure::Message(message@)),
{
}

} // verus!
