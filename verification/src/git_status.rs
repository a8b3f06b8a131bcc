//! The status of a NIP-34 root event: which of its status events is in force.
//!
//! Among the status events of a root (a patch, a pull request or an issue), only those written by
//! the author of the root or by the owner of the repository count. The latest `created_at` wins,
//! and ties go to the lexicographically greatest event id.
use crate::json;
use crate::json::Json;
use crate::text;
use serde_json::Value;
use vstd::prelude::*;

verus! {

/// The event kinds that carry a git status.
pub const GIT_STATUS_KINDS: [u16; 4] = [1630, 1631, 1632, 1633];

/// `kind` is one of [`GIT_STATUS_KINDS`].
pub open spec fn is_status_kind(kind: u64) -> bool {
    1630 <= kind <= 1633
}

/// The word for a status kind; `unknown` for every other kind.
pub open spec fn word_of(kind: u16) -> Seq<char> {
    if kind == 1630 {
        "open"@
    } else if kind == 1631 {
        "merged"@
    } else if kind == 1632 {
        "closed"@
    } else if kind == 1633 {
        "draft"@
    } else {
        "unknown"@
    }
}

/// The word for a status kind. `merged` covers patches and issues alike.
pub fn status_word(kind: u16) -> (word: &'static str)
    ensures
        word@ == word_of(kind),
{
    match kind {
        1630 => "open",
        1631 => "merged",
        1632 => "closed",
        1633 => "draft",
        _ => "unknown",
    }
}

/// A failure of a command.
#[derive(Debug, Clone, PartialEq, Eq)]
pub enum CliError {
    /// A failure that is described by its message.
    Other(String),
}

impl View for CliError {
    type V = Seq<char>;

    open spec fn view(&self) -> Seq<char> {
        match self {
            CliError::Other(message) => message@,
        }
    }
}

/// The fields of an event that decide over its rank, each as far as the event has it in the
/// right type.
#[derive(Debug, Clone, Copy, PartialEq, Eq)]
pub struct StatusFields<'a> {
    /// The author.
    pub pubkey: Option<&'a str>,
    /// The time of the event, in seconds since the Unix epoch.
    pub created_at: Option<u64>,
    /// The kind of the event.
    pub kind: Option<u64>,
    /// The event id.
    pub id: Option<&'a str>,
}

/// The model of [`StatusFields`].
pub struct Fields {
    pub pubkey: Option<Seq<char>>,
    pub created_at: Option<u64>,
    pub kind: Option<u64>,
    pub id: Option<Seq<char>>,
}

impl<'a> View for StatusFields<'a> {
    type V = Fields;

    open spec fn view(&self) -> Fields {
        Fields {
            pubkey: text::optional_text(self.pubkey),
            created_at: self.created_at,
            kind: self.kind,
            id: text::optional_text(self.id),
        }
    }
}

/// The fields of an event, as its JSON has them.
pub open spec fn fields_of(event: Value) -> Fields {
    Fields {
        pubkey: json::text_of(event, "pubkey"@),
        created_at: json::natural_of(event, "created_at"@),
        kind: json::natural_of(event, "kind"@),
        id: json::text_of(event, "id"@),
    }
}

/// The fields of every event of a history.
pub open spec fn history_of(events: Seq<Value>) -> Seq<Fields> {
    events.map_values(|event: Value| fields_of(event))
}

/// The fields of every record of a history.
pub open spec fn records_of(records: Seq<StatusFields>) -> Seq<Fields> {
    records.map_values(|record: StatusFields| record@)
}

/// `author` may set the status: the author of the root, or the owner of the repository where the
/// owner is known.
pub open spec fn is_authority(
    author: Seq<char>,
    root_author: Seq<char>,
    repo_owner: Option<Seq<char>>,
) -> bool {
    author == root_author || repo_owner == Some(author)
}

/// The event counts: it has every field, its id and its author are 64 hexadecimal digits, its
/// author may set the status, and its kind is a status kind.
pub open spec fn is_eligible(
    event: Fields,
    root_author: Seq<char>,
    repo_owner: Option<Seq<char>>,
) -> bool {
    &&& event.pubkey matches Some(author) && text::is_hex64(author) && is_authority(
        author,
        root_author,
        repo_owner,
    )
    &&& event.created_at is Some
    &&& event.kind matches Some(kind) && is_status_kind(kind)
    &&& event.id matches Some(id) && text::is_hex64(id)
}

/// `a` takes precedence over `b`: it is later, or as late and its id is greater.
pub open spec fn outranks(a: Fields, b: Fields) -> bool {
    ||| a.created_at->0 > b.created_at->0
    ||| a.created_at->0 == b.created_at->0 && text::text_precedes(b.id->0, a.id->0)
}

/// No event of the history counts.
pub open spec fn has_no_status(
    history: Seq<Fields>,
    root_author: Seq<char>,
    repo_owner: Option<Seq<char>>,
) -> bool {
    forall|i: int|
        0 <= i < history.len() ==> !is_eligible(#[trigger] history[i], root_author, repo_owner)
}

/// The event at `w` is the one in force: it counts, no other event that counts outranks it, and it
/// outranks every earlier one.
pub open spec fn is_winner(
    history: Seq<Fields>,
    root_author: Seq<char>,
    repo_owner: Option<Seq<char>>,
    w: int,
) -> bool {
    &&& 0 <= w < history.len()
    &&& is_eligible(history[w], root_author, repo_owner)
    &&& forall|j: int|
        0 <= j < history.len() && is_eligible(#[trigger] history[j], root_author, repo_owner) ==> {
            &&& j < w ==> outranks(history[w], history[j])
            &&& w < j ==> !outranks(history[j], history[w])
        }
}

proof fn lemma_outranks_asymmetric(a: Fields, b: Fields)
    ensures
        !(outranks(a, b) && outranks(b, a)),
{
    text::lemma_bytes_asymmetric(vstd::utf8::encode_utf8(a.id->0), vstd::utf8::encode_utf8(b.id->0));
}

proof fn lemma_outranks_transitive(a: Fields, b: Fields, c: Fields)
    requires
        outranks(a, b),
        !outranks(c, b),
    ensures
        outranks(a, c),
{
    let x = vstd::utf8::encode_utf8(a.id->0);
    let y = vstd::utf8::encode_utf8(b.id->0);
    let z = vstd::utf8::encode_utf8(c.id->0);
    text::lemma_bytes_total(y, z);
    if text::text_precedes(b.id->0, a.id->0) && text::text_precedes(c.id->0, b.id->0) {
        text::lemma_bytes_transitive(z, y, x);
    }
}

/// Reads the fields of an event.
pub fn status_fields<'a>(event: &'a Value) -> (r: StatusFields<'a>)
    ensures
        r@ == fields_of(*event),
{
    StatusFields {
        pubkey: json::text_member(event, "pubkey"),
        created_at: json::natural_member(event, "created_at"),
        kind: json::natural_member(event, "kind"),
        id: json::text_member(event, "id"),
    }
}

/// Whether an event counts.
pub fn eligible(event: &StatusFields, root_author: &str, repo_owner: Option<&str>) -> (r: bool)
    ensures
        r == is_eligible(event@, root_author@, text::optional_text(repo_owner)),
{
    let author: &str = match event.pubkey {
        Some(author) => author,
        None => {
            return false;
        },
    };
    let is_repo_owner = match repo_owner {
        Some(owner) => text::same_text(author, owner),
        None => false,
    };
    if !(text::same_text(author, root_author) || is_repo_owner) {
        return false;
    }
    let kind: u64 = match event.kind {
        Some(kind) => kind,
        None => {
            return false;
        },
    };
    let id: &str = match event.id {
        Some(id) => id,
        None => {
            return false;
        },
    };
    event.created_at.is_some() && status_kind(kind) && text::hex64(author) && text::hex64(id)
}

/// Whether `kind` is one of [`GIT_STATUS_KINDS`].
fn status_kind(kind: u64) -> (r: bool)
    ensures
        r == is_status_kind(kind),
{
    let mut i: usize = 0;
    while i < 4
        invariant
            i <= 4,
            forall|k: int| 0 <= k < i ==> GIT_STATUS_KINDS@[k] != kind,
        decreases 4 - i,
    {
        if GIT_STATUS_KINDS[i] as u64 == kind {
            return true;
        }
        i = i + 1;
    }
    assert(GIT_STATUS_KINDS@[0] == 1630 && GIT_STATUS_KINDS@[1] == 1631 && GIT_STATUS_KINDS@[2]
        == 1632 && GIT_STATUS_KINDS@[3] == 1633);
    false
}

/// The index of the event in force, if any event of the history counts.
pub fn select_winner(
    history: &[StatusFields],
    root_author: &str,
    repo_owner: Option<&str>,
) -> (r: Option<usize>)
    ensures
        r is None <==> has_no_status(
            records_of(history@),
            root_author@,
            text::optional_text(repo_owner),
        ),
        r matches Some(w) ==> is_winner(
            records_of(history@),
            root_author@,
            text::optional_text(repo_owner),
            w as int,
        ),
{
    let ghost all = records_of(history@);
    let ghost owner = text::optional_text(repo_owner);
    let mut best: Option<usize> = None;
    let mut i: usize = 0;
    while i < history.len()
        invariant
            i <= history@.len(),
            all == records_of(history@),
            owner == text::optional_text(repo_owner),
            best is None <==> has_no_status(all.take(i as int), root_author@, owner),
            best matches Some(w) ==> is_winner(all.take(i as int), root_author@, owner, w as int),
        decreases history@.len() - i,
    {
        let ghost before = all.take(i as int);
        let ghost after = all.take(i + 1);
        assert(after =~= before.push(all[i as int]));
        assert(forall|j: int| 0 <= j < i ==> after[j] == #[trigger] before[j]);
        if eligible(&history[i], root_author, repo_owner) {
            let replace = match best {
                None => true,
                Some(w) => outranking(&history[i], &history[w]),
            };
            if replace {
                proof {
                    if let Some(w) = best {
                        assert forall|j: int|
                            0 <= j < i && is_eligible(#[trigger] after[j], root_author@, owner) implies outranks(
                            after[i as int],
                            after[j],
                        ) by {
                            assert(before[j] == after[j]);
                            if j != w {
                                lemma_outranks_asymmetric(before[w as int], before[j]);
                                lemma_outranks_transitive(
                                    after[i as int],
                                    before[w as int],
                                    before[j],
                                );
                            }
                        }
                    } else {
                        assert forall|j: int| 0 <= j < i implies !is_eligible(
                            #[trigger] after[j],
                            root_author@,
                            owner,
                        ) by {
                            assert(before[j] == after[j]);
                        }
                    }
                }
                best = Some(i);
                assert(is_eligible(after[i as int], root_author@, owner));
            } else {
                proof {
                    let w = best->0 as int;
                    assert(is_eligible(after[w], root_author@, owner));
                    assert forall|j: int|
                        0 <= j <= i && is_eligible(#[trigger] after[j], root_author@, owner) implies {
                        &&& j < w ==> outranks(after[w], after[j])
                        &&& w < j ==> !outranks(after[j], after[w])
                    } by {
                        if j < i {
                            assert(before[j] == after[j]);
                        }
                    }
                }
            }
        } else {
            proof {
                assert forall|j: int|
                    0 <= j <= i && is_eligible(#[trigger] after[j], root_author@, owner) implies j < i
                    && is_eligible(before[j], root_author@, owner) by {}
                assert forall|j: int|
                    0 <= j < i && is_eligible(#[trigger] before[j], root_author@, owner) implies is_eligible(
                    after[j],
                    root_author@,
                    owner,
                ) by {}
            }
        }
        i = i + 1;
    }
    assert(all.take(i as int) =~= all);
    best
}

/// Whether `a` takes precedence over `b`.
fn outranking(a: &StatusFields, b: &StatusFields) -> (r: bool)
    requires
        a.created_at is Some,
        b.created_at is Some,
        a.id is Some,
        b.id is Some,
    ensures
        r == outranks(a@, b@),
{
    match (a.created_at, b.created_at, a.id, b.id) {
        (Some(a_time), Some(b_time), Some(a_id), Some(b_id)) => {
            a_time > b_time || (a_time == b_time && text::precedes(b_id, a_id))
        },
        _ => false,
    }
}

/// The status in force of a root.
#[derive(Debug, Clone, PartialEq, Eq)]
pub struct ResolvedStatus {
    /// The status event in force, whole, as it came from the relay.
    pub event: Value,
    /// The kind of the event.
    pub kind: u16,
    /// The author of the event.
    pub author: String,
    /// The time of the event, in seconds since the Unix epoch.
    pub created_at: u64,
}

/// `status` is the event itself together with the event's kind, author and time.
pub open spec fn reports_event(status: ResolvedStatus, event: Value) -> bool {
    &&& status.event == event
    &&& fields_of(event).kind == Some(status.kind as u64)
    &&& fields_of(event).pubkey == Some(status.author@)
    &&& fields_of(event).created_at == Some(status.created_at)
}

/// `status` is the status in force among `events`: `None` exactly where no event counts, and else
/// the report of the event in force.
pub open spec fn is_status_of(
    events: Seq<Value>,
    root_author: Seq<char>,
    repo_owner: Option<Seq<char>>,
    status: Option<ResolvedStatus>,
) -> bool {
    match status {
        None => has_no_status(history_of(events), root_author, repo_owner),
        Some(resolved) => exists|w: int| #[trigger]
            is_winner(history_of(events), root_author, repo_owner, w) && reports_event(
                resolved,
                events[w],
            ),
    }
}

/// The status event in force among `events`, or `None` where no event counts.
///
/// The author of an event must be `root_author`, or `repo_owner` where that is known. The latest
/// `created_at` wins, ties go to the lexicographically greatest id, and of two events that have
/// both in common the first stays. Malformed events are skipped: those that lack a field or have
/// it in another type, and those whose id or author is short or otherwise not 64 hexadecimal
/// digits. So are events of other kinds.
pub fn pick_winning_status(
    events: &[Value],
    root_author: &str,
    repo_owner: Option<&str>,
) -> (r: Result<Option<ResolvedStatus>, CliError>)
    ensures
        r is Ok,
        is_status_of(events@, root_author@, text::optional_text(repo_owner), r->Ok_0),
{
    let mut records: Vec<StatusFields> = Vec::new();
    let mut i: usize = 0;
    while i < events.len()
        invariant
            i <= events@.len(),
            records@.len() == i,
            forall|j: int| 0 <= j < i ==> (#[trigger] records@[j])@ == fields_of(events@[j]),
        decreases events@.len() - i,
    {
        records.push(status_fields(&events[i]));
        i = i + 1;
    }
    assert(records_of(records@) =~= history_of(events@));
    match select_winner(records.as_slice(), root_author, repo_owner) {
        None => Ok(None),
        Some(w) => {
            let record: &StatusFields = &records[w];
            assert(history_of(events@)[w as int] == record@);
            match (record.kind, record.pubkey, record.created_at) {
                (Some(kind), Some(author), Some(created_at)) => {
                    let status = ResolvedStatus {
                        event: events[w].clone(),
                        kind: kind as u16,
                        author: author.to_owned(),
                        created_at,
                    };
                    assert(is_winner(
                        history_of(events@),
                        root_author@,
                        text::optional_text(repo_owner),
                        w as int,
                    ));
                    Ok(Some(status))
                },
                _ => Err(CliError::Other("status event missing kind".to_owned())),
            }
        },
    }
}

/// At most one event of a history is in force.
pub proof fn winner_is_unique(
    history: Seq<Fields>,
    root_author: Seq<char>,
    repo_owner: Option<Seq<char>>,
    v: int,
    w: int,
)
    requires
        is_winner(history, root_author, repo_owner, v),
        is_winner(history, root_author, repo_owner, w),
    ensures
        v == w,
{
}

/// The same history has the same status: two resolutions of it agree on whether there is a status,
/// and on everything that is reported of it.
pub proof fn same_history_has_same_status(
    events: Seq<Value>,
    root_author: Seq<char>,
    repo_owner: Option<Seq<char>>,
    a: Option<ResolvedStatus>,
    b: Option<ResolvedStatus>,
)
    requires
        is_status_of(events, root_author, repo_owner, a),
        is_status_of(events, root_author, repo_owner, b),
    ensures
        a is Some <==> b is Some,
        a is Some ==> {
            &&& a->0.event == b->0.event
            &&& a->0.kind == b->0.kind
            &&& a->0.author@ == b->0.author@
            &&& a->0.created_at == b->0.created_at
        },
{
}

/// Which event is in force depends only on which events that count are in the history. Their
/// order, repetitions, and the events that do not count make no difference: two histories with the
/// same events that count either both have no status, or the events in force have the same time
/// and id. They are then the same event, if time and id tell the events that count apart.
pub proof fn winner_depends_on_eligible_events_alone(
    a: Seq<Fields>,
    b: Seq<Fields>,
    root_author: Seq<char>,
    repo_owner: Option<Seq<char>>,
)
    requires
        forall|event: Fields|
            is_eligible(event, root_author, repo_owner) ==> (a.contains(event) <==> b.contains(
                event,
            )),
    ensures
        has_no_status(a, root_author, repo_owner) == has_no_status(b, root_author, repo_owner),
        forall|v: int, w: int|
            #![trigger is_winner(a, root_author, repo_owner, v), is_winner(
                b,
                root_author,
                repo_owner,
                w,
            )]
            is_winner(a, root_author, repo_owner, v) && is_winner(b, root_author, repo_owner, w)
                ==> a[v].created_at == b[w].created_at && a[v].id == b[w].id,
        forall|v: int, w: int|
            #![trigger is_winner(a, root_author, repo_owner, v), is_winner(
                b,
                root_author,
                repo_owner,
                w,
            )]
            is_winner(a, root_author, repo_owner, v) && is_winner(b, root_author, repo_owner, w)
                && tells_apart(a, root_author, repo_owner) ==> a[v] == b[w],
{
    if has_no_status(a, root_author, repo_owner) {
        assert forall|i: int| 0 <= i < b.len() implies !is_eligible(
            #[trigger] b[i],
            root_author,
            repo_owner,
        ) by {
            if is_eligible(b[i], root_author, repo_owner) {
                assert(b.contains(b[i]));
                let k = a.index_of(b[i]);
                assert(a[k] == b[i]);
            }
        }
    }
    if has_no_status(b, root_author, repo_owner) {
        assert forall|i: int| 0 <= i < a.len() implies !is_eligible(
            #[trigger] a[i],
            root_author,
            repo_owner,
        ) by {
            if is_eligible(a[i], root_author, repo_owner) {
                assert(a.contains(a[i]));
                let k = b.index_of(a[i]);
                assert(b[k] == a[i]);
            }
        }
    }
    assert forall|v: int, w: int|
        #![trigger is_winner(a, root_author, repo_owner, v), is_winner(
            b,
            root_author,
            repo_owner,
            w,
        )]
        is_winner(a, root_author, repo_owner, v) && is_winner(
            b,
            root_author,
            repo_owner,
            w,
        ) implies a[v].created_at == b[w].created_at && a[v].id == b[w].id by {
        assert(a.contains(a[v]));
        assert(b.contains(b[w]));
        let k = b.index_of(a[v]);
        let l = a.index_of(b[w]);
        assert(b[k] == a[v]);
        assert(a[l] == b[w]);
        lemma_outranks_asymmetric(a[v], b[w]);
        let x = vstd::utf8::encode_utf8(a[v].id->0);
        let y = vstd::utf8::encode_utf8(b[w].id->0);
        text::lemma_bytes_total(x, y);
        if x == y {
            text::lemma_utf8_injective(a[v].id->0, b[w].id->0);
        }
    }
    assert forall|v: int, w: int|
        #![trigger is_winner(a, root_author, repo_owner, v), is_winner(
            b,
            root_author,
            repo_owner,
            w,
        )]
        is_winner(a, root_author, repo_owner, v) && is_winner(b, root_author, repo_owner, w)
            && tells_apart(a, root_author, repo_owner) implies a[v] == b[w] by {
        assert(b.contains(b[w]));
        let l = a.index_of(b[w]);
        assert(a[l] == b[w]);
    }
}

/// The reported status depends only on which events that count are in the history: two histories
/// with the same events that count, in any order, have the same status, if time and id tell these
/// events apart.
pub proof fn status_depends_on_eligible_events_alone(
    a: Seq<Value>,
    b: Seq<Value>,
    root_author: Seq<char>,
    repo_owner: Option<Seq<char>>,
    s: Option<ResolvedStatus>,
    t: Option<ResolvedStatus>,
)
    requires
        forall|event: Value| #[trigger]
            is_eligible(fields_of(event), root_author, repo_owner) ==> (a.contains(event)
                <==> b.contains(event)),
        forall|i: int, j: int|
            0 <= i < a.len() && 0 <= j < a.len() && is_eligible(
                fields_of(#[trigger] a[i]),
                root_author,
                repo_owner,
            ) && is_eligible(fields_of(#[trigger] a[j]), root_author, repo_owner) && fields_of(
                a[i],
            ).created_at == fields_of(a[j]).created_at && fields_of(a[i]).id == fields_of(a[j]).id
                ==> a[i] == a[j],
        is_status_of(a, root_author, repo_owner, s),
        is_status_of(b, root_author, repo_owner, t),
    ensures
        s is Some <==> t is Some,
        s is Some ==> {
            &&& s->0.event == t->0.event
            &&& s->0.kind == t->0.kind
            &&& s->0.author@ == t->0.author@
            &&& s->0.created_at == t->0.created_at
        },
{
    let ha = history_of(a);
    let hb = history_of(b);
    assert forall|event: Fields| is_eligible(event, root_author, repo_owner) implies (ha.contains(
        event,
    ) <==> hb.contains(event)) by {
        if ha.contains(event) {
            let i = ha.index_of(event);
            assert(fields_of(a[i]) == event && a.contains(a[i]));
            let j = b.index_of(a[i]);
            assert(b[j] == a[i]);
            assert(hb[j] == event);
        }
        if hb.contains(event) {
            let j = hb.index_of(event);
            assert(fields_of(b[j]) == event && b.contains(b[j]));
            let i = a.index_of(b[j]);
            assert(a[i] == b[j]);
            assert(ha[i] == event);
        }
    }
    winner_depends_on_eligible_events_alone(ha, hb, root_author, repo_owner);
    if s is Some && t is Some {
        let v = choose|v: int| #[trigger]
            is_winner(ha, root_author, repo_owner, v) && reports_event(s->0, a[v]);
        let w = choose|w: int| #[trigger]
            is_winner(hb, root_author, repo_owner, w) && reports_event(t->0, b[w]);
        assert(ha[v] == fields_of(a[v]) && hb[w] == fields_of(b[w]));
        assert(b.contains(b[w]));
        let l = a.index_of(b[w]);
        assert(a[l] == b[w]);
        assert(a[v] == a[l]);
    }
}

/// Any two events of the history that count and have the same time and id are the same.
pub open spec fn tells_apart(
    history: Seq<Fields>,
    root_author: Seq<char>,
    repo_owner: Option<Seq<char>>,
) -> bool {
    forall|i: int, j: int|
        0 <= i < history.len() && 0 <= j < history.len() && is_eligible(
            #[trigger] history[i],
            root_author,
            repo_owner,
        ) && is_eligible(#[trigger] history[j], root_author, repo_owner) && history[i].created_at
            == history[j].created_at && history[i].id == history[j].id ==> history[i] == history[j]
}

/// One more event takes over exactly where it counts and outranks the event in force; otherwise
/// the event in force stays.
pub proof fn later_event_takes_over_if_it_outranks(
    history: Seq<Fields>,
    event: Fields,
    root_author: Seq<char>,
    repo_owner: Option<Seq<char>>,
    w: int,
)
    requires
        is_winner(history, root_author, repo_owner, w),
    ensures
        is_winner(
            history.push(event),
            root_author,
            repo_owner,
            if is_eligible(event, root_author, repo_owner) && outranks(event, history[w]) {
                history.len() as int
            } else {
                w
            },
        ),
{
    let longer = history.push(event);
    if is_eligible(event, root_author, repo_owner) && outranks(event, history[w]) {
        assert forall|j: int|
            0 <= j < history.len() && is_eligible(
                #[trigger] longer[j],
                root_author,
                repo_owner,
            ) implies outranks(event, longer[j]) by {
            assert(longer[j] == history[j]);
            if j != w {
                lemma_outranks_asymmetric(history[w], history[j]);
                lemma_outranks_transitive(event, history[w], history[j]);
            }
        }
    } else {
        assert forall|j: int|
            0 <= j < longer.len() && is_eligible(
                #[trigger] longer[j],
                root_author,
                repo_owner,
            ) implies {
            &&& j < w ==> outranks(longer[w], longer[j])
            &&& w < j ==> !outranks(longer[j], longer[w])
        } by {
            if j < history.len() {
                assert(longer[j] == history[j]);
            }
        }
    }
}

/// Without a known owner only the author of the root sets the status. To name that author as the
/// owner changes nothing.
pub proof fn unknown_owner_leaves_root_author(event: Fields, root_author: Seq<char>)
    ensures
        is_eligible(event, root_author, None) ==> event.pubkey == Some(root_author),
        is_eligible(event, root_author, Some(root_author)) == is_eligible(event, root_author, None),
{
}

/// The event in force has a known state: open, merged, closed or draft.
pub proof fn winner_has_known_state(
    history: Seq<Fields>,
    root_author: Seq<char>,
    repo_owner: Option<Seq<char>>,
    w: int,
)
    requires
        is_winner(history, root_author, repo_owner, w),
    ensures
        ({
            let state = word_of(history[w].kind->0 as u16);
            state == "open"@ || state == "merged"@ || state == "closed"@ || state == "draft"@
        }),
{
}

/// A word says which status kind it stands for: only the status kinds have a word of their own,
/// and no two of them share it.
pub proof fn words_tell_kinds_apart(a: u16, b: u16)
    ensures
        is_status_kind(a as u64) <==> word_of(a) != "unknown"@,
        is_status_kind(a as u64) && word_of(a) == word_of(b) ==> a == b,
{
    reveal_strlit("open");
    reveal_strlit("merged");
    reveal_strlit("closed");
    reveal_strlit("draft");
    reveal_strlit("unknown");
    assert("open"@[0] == 'o' && "merged"@[0] == 'm' && "closed"@[0] == 'c' && "draft"@[0] == 'd'
        && "unknown"@[0] == 'u');
}

/// The status in force is an event of the history, and what is reported of it are its own members:
/// the text `pubkey`, and the numbers `created_at` and `kind`. Its kind is a status kind, its id and
/// author are 64 hexadecimal digits, and its author is the author of the root or the known owner.
pub proof fn status_mirrors_an_event_of_the_history(
    events: Seq<Value>,
    root_author: Seq<char>,
    repo_owner: Option<Seq<char>>,
    status: ResolvedStatus,
)
    requires
        is_status_of(events, root_author, repo_owner, Some(status)),
    ensures
        events.contains(status.event),
        json::json_of(status.event) is Object,
        ({
            let members = json::json_of(status.event)->Object_0;
            &&& members.contains_key("pubkey"@) && members["pubkey"@] == Json::Text(status.author@)
            &&& members.contains_key("created_at"@) && members["created_at"@] == Json::Natural(
                status.created_at,
            )
            &&& members.contains_key("kind"@) && members["kind"@] == Json::Natural(
                status.kind as u64,
            )
            &&& members.contains_key("id"@) && members["id"@] is Text && text::is_hex64(
                members["id"@]->Text_0,
            )
        }),
        1630 <= status.kind <= 1633,
        text::is_hex64(status.author@),
        status.author@ == root_author || repo_owner == Some(status.author@),
{
    let history = history_of(events);
    let w = choose|w: int| #[trigger]
        is_winner(history, root_author, repo_owner, w) && reports_event(status, events[w]);
    assert(history[w] == fields_of(events[w]));
    assert(events[w] == status.event);
}

/// Any event of the history that counts makes for a status, and none beats the status in force: none
/// is later, by the number of seconds; of those that are as late none has a greater id, by the first
/// digit in which the ids differ; and none that has the time and the id in common comes before it.
/// An event counts if it is an object whose `pubkey` and `id` are texts of 64 hexadecimal digits and
/// whose `created_at` and `kind` are unsigned numbers, the kind a status kind, and the author the
/// author of the root or the known owner.
pub proof fn no_counting_event_beats_the_status(
    events: Seq<Value>,
    root_author: Seq<char>,
    repo_owner: Option<Seq<char>>,
    status: Option<ResolvedStatus>,
    j: int,
    members: Map<Seq<char>, Json>,
    author: Seq<char>,
    time: u64,
    kind: u64,
    id: Seq<char>,
)
    requires
        is_status_of(events, root_author, repo_owner, status),
        0 <= j < events.len(),
        json::json_of(events[j]) == Json::Object(members),
        members.contains_key("pubkey"@) && members["pubkey"@] == Json::Text(author),
        members.contains_key("created_at"@) && members["created_at"@] == Json::Natural(time),
        members.contains_key("kind"@) && members["kind"@] == Json::Natural(kind),
        members.contains_key("id"@) && members["id"@] == Json::Text(id),
        text::is_hex64(author),
        text::is_hex64(id),
        author == root_author || repo_owner == Some(author),
        1630 <= kind <= 1633,
    ensures
        status is Some,
        time <= status->0.created_at,
        ({
            let best = json::json_of(status->0.event)->Object_0["id"@]->Text_0;
            &&& time == status->0.created_at ==> forall|k: int|
                0 <= k < 64 && (forall|l: int| 0 <= l < k ==> id[l] == best[l]) ==> (
                #[trigger] id[k] as int) <= best[k] as int
            &&& time == status->0.created_at && id == best ==> exists|w: int|
                0 <= w <= j && #[trigger] events[w] == status->0.event
        }),
{
    let history = history_of(events);
    let record = fields_of(events[j]);
    assert(history[j] == record);
    assert(is_eligible(record, root_author, repo_owner));
    let resolved = status->0;
    let w = choose|w: int| #[trigger]
        is_winner(history, root_author, repo_owner, w) && reports_event(resolved, events[w]);
    assert(history[w] == fields_of(events[w]));
    status_mirrors_an_event_of_the_history(events, root_author, repo_owner, resolved);
    let winner = history[w];
    let best = winner.id->0;
    lemma_outranks_asymmetric(winner, record);
    assert(!outranks(record, winner)) by {
        if j == w {
            text::nothing_precedes_itself(vstd::utf8::encode_utf8(best));
        }
    }
    if time == resolved.created_at {
        assert forall|k: int|
            0 <= k < 64 && (forall|l: int| 0 <= l < k ==> id[l] == best[l]) implies (
        #[trigger] id[k] as int) <= best[k] as int by {
            if id[k] != best[k] {
                text::hex_texts_order_by_first_difference(best, id, k);
            }
        }
        if id == best {
            assert(j >= w) by {
                if j < w {
                    assert(outranks(winner, record));
                    text::nothing_precedes_itself(vstd::utf8::encode_utf8(best));
                }
            }
            assert(events[w] == resolved.event);
        }
    }
}

/// The fields of a record are what it holds.
pub proof fn record_fields_are_kept(record: StatusFields)
    ensures
        record@.pubkey is Some <==> record.pubkey is Some,
        record.pubkey matches Some(author) ==> record@.pubkey == Some(author@),
        record@.created_at == record.created_at,
        record@.kind == record.kind,
        record@.id is Some <==> record.id is Some,
        record.id matches Some(id) ==> record@.id == Some(id@),
{
}

} // verus!
