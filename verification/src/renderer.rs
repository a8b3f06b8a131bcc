//! When a crashed renderer is reloaded.
//!
//! A renderer that terminates is reloaded to recover the window, but only a few times within a
//! sliding window, so that a crash on load does not loop. Older reloads age out, and a renderer
//! that crashes rarely is recovered each time.
use vstd::prelude::*;

verus! {

/// How many reloads are permitted within the sliding window.
pub const MAX_RENDERER_AUTO_RELOADS: usize = 3;

/// The length of the sliding window, in seconds.
pub const RENDERER_RELOAD_WINDOW_SECS: u64 = 120;

/// `time` is less than the sliding window before `attempt`. A time after `attempt` counts too.
pub open spec fn is_recent(time: u64, attempt: u64) -> bool {
    attempt - time < RENDERER_RELOAD_WINDOW_SECS
}

/// How many of the times are recent at `attempt`.
pub open spec fn recent_count(times: Seq<u64>, attempt: u64) -> nat {
    times.filter(|time: u64| is_recent(time, attempt)).len()
}

/// How many of the times lie in the window that begins at `start`.
pub open spec fn count_in_window(times: Seq<u64>, start: int) -> nat {
    times.filter(|time: u64| start <= time < start + RENDERER_RELOAD_WINDOW_SECS).len()
}

/// A termination at `attempt` may be answered by a reload, after reloads at `times`.
pub open spec fn may_reload(times: Seq<u64>, attempt: u64) -> bool {
    recent_count(times, attempt) < MAX_RENDERER_AUTO_RELOADS
}

/// The reloads after a termination at `attempt`.
pub open spec fn reloads_after(times: Seq<u64>, attempt: u64) -> Seq<u64> {
    if may_reload(times, attempt) {
        times.push(attempt)
    } else {
        times
    }
}

/// The reloads after a run of terminations, from the first one on.
pub open spec fn reloads_after_all(attempts: Seq<u64>) -> Seq<u64>
    decreases attempts.len(),
{
    if attempts.len() == 0 {
        Seq::empty()
    } else {
        reloads_after(reloads_after_all(attempts.drop_last()), attempts.last())
    }
}

/// How many of the times are recent at `attempt`.
fn count_recent(times: &[u64], attempt: u64) -> (count: usize)
    ensures
        count == recent_count(times@, attempt),
{
    let ghost recent = |time: u64| is_recent(time, attempt);
    let mut count: usize = 0;
    let mut i: usize = 0;
    while i < times.len()
        invariant
            i <= times@.len(),
            recent == (|time: u64| is_recent(time, attempt)),
            count == times@.take(i as int).filter(recent).len(),
            count <= i,
        decreases times@.len() - i,
    {
        proof {
            reveal(Seq::filter);
            assert(times@.take(i + 1).drop_last() =~= times@.take(i as int));
        }
        if attempt.saturating_sub(times[i]) < RENDERER_RELOAD_WINDOW_SECS {
            count = count + 1;
        }
        i = i + 1;
    }
    assert(times@.take(i as int) =~= times@);
    count
}

/// Whether the renderer may be reloaded at `attempt`, given the times of recent crashes. All times
/// are in seconds since one epoch.
pub fn should_auto_reload_renderer(recent_crashes: &[u64], attempt: u64) -> (r: bool)
    ensures
        r == may_reload(recent_crashes@, attempt),
{
    count_recent(recent_crashes, attempt) < MAX_RENDERER_AUTO_RELOADS
}

/// What follows a termination of the renderer.
#[derive(Debug, Clone, Copy, PartialEq, Eq, Structural)]
pub enum TerminationVerdict {
    /// The renderer is reloaded. It is the `recent`-th reload within the sliding window.
    Reload { recent: usize },
    /// The renderer stays down: the sliding window already holds as many reloads as are permitted.
    GiveUp,
}

/// The times at which the renderer was reloaded, oldest first.
pub struct ReloadLog {
    times: Vec<u64>,
}

impl View for ReloadLog {
    type V = Seq<u64>;

    closed spec fn view(&self) -> Seq<u64> {
        self.times@
    }
}

impl ReloadLog {
    /// No window, wherever it begins, holds more reloads than are permitted.
    pub open spec fn well_formed(&self) -> bool {
        forall|start: int| #[trigger] count_in_window(self@, start) <= MAX_RENDERER_AUTO_RELOADS
    }

    /// A log without reloads.
    pub fn new() -> (log: ReloadLog)
        ensures
            log.well_formed(),
            log@ == Seq::<u64>::empty(),
    {
        let log = ReloadLog { times: Vec::new() };
        proof {
            reveal(Seq::filter);
        }
        log
    }

    /// Decides over a termination at `attempt`, in seconds since the epoch of the log, and enters
    /// the reload that it leads to. A termination without a reload leaves no trace.
    pub fn on_terminated(&mut self, attempt: u64) -> (verdict: TerminationVerdict)
        ensures
            old(self).well_formed() ==> final(self).well_formed(),
            final(self)@ == reloads_after(old(self)@, attempt),
            may_reload(old(self)@, attempt) ==> verdict == (TerminationVerdict::Reload {
                recent: (recent_count(old(self)@, attempt) + 1) as usize,
            }),
            !may_reload(old(self)@, attempt) ==> verdict == TerminationVerdict::GiveUp,
    {
        let recent: usize = count_recent(self.times.as_slice(), attempt);
        if recent < MAX_RENDERER_AUTO_RELOADS {
            self.times.push(attempt);
            proof {
                assert forall|start: int| old(self).well_formed() implies #[trigger] count_in_window(
                    self@,
                    start,
                ) <= MAX_RENDERER_AUTO_RELOADS by {
                    assert(count_in_window(old(self)@, start) <= MAX_RENDERER_AUTO_RELOADS);
                    lemma_reload_keeps_limit(old(self)@, attempt, start);
                }
            }
            TerminationVerdict::Reload { recent: recent + 1 }
        } else {
            TerminationVerdict::GiveUp
        }
    }
}

proof fn lemma_filter_push(times: Seq<u64>, time: u64, pred: spec_fn(u64) -> bool)
    ensures
        times.push(time).filter(pred) == if pred(time) {
            times.filter(pred).push(time)
        } else {
            times.filter(pred)
        },
{
    reveal(Seq::filter);
    assert(times.push(time).drop_last() =~= times);
}

proof fn lemma_filter_monotonic(
    times: Seq<u64>,
    narrow: spec_fn(u64) -> bool,
    wide: spec_fn(u64) -> bool,
)
    requires
        forall|time: u64| #[trigger] narrow(time) ==> wide(time),
    ensures
        times.filter(narrow).len() <= times.filter(wide).len(),
    decreases times.len(),
{
    reveal(Seq::filter);
    if times.len() > 0 {
        lemma_filter_monotonic(times.drop_last(), narrow, wide);
    }
}

proof fn lemma_reload_keeps_limit(times: Seq<u64>, attempt: u64, start: int)
    requires
        count_in_window(times, start) <= MAX_RENDERER_AUTO_RELOADS,
        may_reload(times, attempt),
    ensures
        count_in_window(times.push(attempt), start) <= MAX_RENDERER_AUTO_RELOADS,
{
    let inside = |time: u64| start <= time < start + RENDERER_RELOAD_WINDOW_SECS;
    let recent = |time: u64| is_recent(time, attempt);
    lemma_filter_push(times, attempt, inside);
    if inside(attempt) {
        lemma_filter_monotonic(times, inside, recent);
    }
}

/// However the renderer terminates, no window holds more reloads than are permitted: a crash on
/// load does not loop.
pub proof fn reloads_are_rate_limited(attempts: Seq<u64>, start: int)
    ensures
        count_in_window(reloads_after_all(attempts), start) <= MAX_RENDERER_AUTO_RELOADS,
    decreases attempts.len(),
{
    if attempts.len() == 0 {
        reveal(Seq::filter);
    } else {
        reloads_are_rate_limited(attempts.drop_last(), start);
        let times = reloads_after_all(attempts.drop_last());
        if may_reload(times, attempts.last()) {
            lemma_reload_keeps_limit(times, attempts.last(), start);
        }
    }
}

proof fn lemma_reloads_are_among_attempts(attempts: Seq<u64>, pred: spec_fn(u64) -> bool)
    ensures
        reloads_after_all(attempts).filter(pred).len() <= attempts.filter(pred).len(),
    decreases attempts.len(),
{
    if attempts.len() == 0 {
        assert(reloads_after_all(attempts) =~= attempts);
    } else {
        let earlier = attempts.drop_last();
        lemma_reloads_are_among_attempts(earlier, pred);
        assert(earlier.push(attempts.last()) =~= attempts);
        lemma_filter_push(earlier, attempts.last(), pred);
        lemma_filter_push(reloads_after_all(earlier), attempts.last(), pred);
    }
}

/// A rare crash is recovered, whatever came before: a termination with fewer than the permitted
/// number of terminations in the window before it leads to a reload.
pub proof fn rare_crash_is_recovered(earlier: Seq<u64>, attempt: u64)
    requires
        may_reload(earlier, attempt),
    ensures
        may_reload(reloads_after_all(earlier), attempt),
        reloads_after_all(earlier.push(attempt)) == reloads_after_all(earlier).push(attempt),
{
    lemma_reloads_are_among_attempts(earlier, |time: u64| is_recent(time, attempt));
    assert(earlier.push(attempt).drop_last() =~= earlier);
}

/// A renderer that crashes rarely is recovered each time: where each termination has fewer than
/// the permitted number of terminations in the window before it, each one leads to a reload.
pub proof fn rare_crashes_are_all_recovered(attempts: Seq<u64>)
    requires
        forall|i: int|
            0 <= i < attempts.len() ==> may_reload(attempts.take(i), #[trigger] attempts[i]),
    ensures
        reloads_after_all(attempts) == attempts,
    decreases attempts.len(),
{
    if attempts.len() > 0 {
        let earlier = attempts.drop_last();
        assert forall|i: int| 0 <= i < earlier.len() implies may_reload(
            earlier.take(i),
            #[trigger] earlier[i],
        ) by {
            assert(attempts.take(i) =~= earlier.take(i));
            assert(attempts[i] == earlier[i]);
        }
        rare_crashes_are_all_recovered(earlier);
        assert(attempts.take(attempts.len() - 1) =~= earlier);
        assert(attempts[attempts.len() - 1] == attempts.last());
        assert(earlier.push(attempts.last()) =~= attempts);
    }
}

/// Once every reload has aged out of the window, the next termination leads to a reload.
pub proof fn aged_reloads_do_not_count(times: Seq<u64>, attempt: u64)
    requires
        forall|i: int|
            0 <= i < times.len() ==> #[trigger] times[i] + RENDERER_RELOAD_WINDOW_SECS <= attempt,
    ensures
        recent_count(times, attempt) == 0,
        may_reload(times, attempt),
{
    times.lemma_all_neg_filter_empty(|time: u64| is_recent(time, attempt));
}

/// To wait never costs a reload: what may be reloaded now may be reloaded later.
pub proof fn waiting_keeps_reload_permitted(times: Seq<u64>, attempt: u64, later: u64)
    requires
        attempt <= later,
        may_reload(times, attempt),
    ensures
        may_reload(times, later),
{
    lemma_filter_monotonic(
        times,
        |time: u64| is_recent(time, later),
        |time: u64| is_recent(time, attempt),
    );
}

/// Times that have aged out may be dropped: no later decision changes by it.
pub proof fn aged_times_may_be_dropped(times: Seq<u64>, attempt: u64, later: u64)
    requires
        attempt <= later,
    ensures
        recent_count(times.filter(|time: u64| is_recent(time, attempt)), later) == recent_count(
            times,
            later,
        ),
        may_reload(times.filter(|time: u64| is_recent(time, attempt)), later) == may_reload(
            times,
            later,
        ),
    decreases times.len(),
{
    let now = |time: u64| is_recent(time, attempt);
    let afterwards = |time: u64| is_recent(time, later);
    if times.len() == 0 {
        reveal(Seq::filter);
    } else {
        let earlier = times.drop_last();
        aged_times_may_be_dropped(earlier, attempt, later);
        assert(earlier.push(times.last()) =~= times);
        lemma_filter_push(earlier, times.last(), now);
        lemma_filter_push(earlier, times.last(), afterwards);
        lemma_filter_push(earlier.filter(now), times.last(), afterwards);
    }
}

proof fn lemma_hit_adds_one(times: Seq<u64>, pred: spec_fn(u64) -> bool, i: int)
    requires
        0 <= i < times.len(),
        pred(times[i]),
    ensures
        times.take(i).filter(pred).len() < times.filter(pred).len(),
    decreases times.len(),
{
    let earlier = times.drop_last();
    assert(earlier.push(times.last()) =~= times);
    lemma_filter_push(earlier, times.last(), pred);
    if i == times.len() - 1 {
        assert(times.take(i) =~= earlier);
    } else {
        assert(times.take(i) =~= earlier.take(i));
        lemma_hit_adds_one(earlier, pred, i);
    }
}

proof fn lemma_last_hit(times: Seq<u64>, pred: spec_fn(u64) -> bool) -> (i: int)
    requires
        times.filter(pred).len() > 0,
    ensures
        0 <= i < times.len(),
        pred(times[i]),
        times.filter(pred).len() == times.take(i).filter(pred).len() + 1,
    decreases times.len(),
{
    reveal(Seq::filter);
    let earlier = times.drop_last();
    assert(earlier.push(times.last()) =~= times);
    lemma_filter_push(earlier, times.last(), pred);
    if pred(times.last()) {
        assert(times.take(times.len() - 1) =~= earlier);
        times.len() - 1
    } else {
        let i = lemma_last_hit(earlier, pred);
        assert(times.take(i) =~= earlier.take(i));
        i
    }
}

/// Three reloads less than two minutes before a termination rule out another one, whichever they
/// are, and the termination leaves no trace. A reload that is dated after the termination counts
/// as well.
pub proof fn three_recent_reloads_rule_out_another(
    times: Seq<u64>,
    attempt: u64,
    i: int,
    j: int,
    k: int,
)
    requires
        0 <= i < j < k < times.len(),
        attempt - times[i] < 120,
        attempt - times[j] < 120,
        attempt - times[k] < 120,
    ensures
        !may_reload(times, attempt),
        reloads_after(times, attempt) == times,
{
    let recent = |time: u64| is_recent(time, attempt);
    lemma_hit_adds_one(times, recent, k);
    assert(times.take(k).take(j) =~= times.take(j));
    lemma_hit_adds_one(times.take(k), recent, j);
    assert(times.take(j).take(i) =~= times.take(i));
    lemma_hit_adds_one(times.take(j), recent, i);
}

/// Nothing else rules a reload out: where one is refused, or is not entered, three reloads lie less
/// than two minutes before the termination, however many older ones there are.
pub proof fn only_three_recent_reloads_rule_out_another(times: Seq<u64>, attempt: u64)
    requires
        !may_reload(times, attempt) || reloads_after(times, attempt) != times.push(attempt),
    ensures
        exists|i: int, j: int, k: int|
            0 <= i < j < k < times.len() && attempt - #[trigger] times[i] < 120 && attempt
                - #[trigger] times[j] < 120 && attempt - #[trigger] times[k] < 120,
{
    let recent = |time: u64| is_recent(time, attempt);
    let k = lemma_last_hit(times, recent);
    let j = lemma_last_hit(times.take(k), recent);
    assert(times.take(k).take(j) =~= times.take(j));
    let i = lemma_last_hit(times.take(j), recent);
    assert(attempt - times[i] < 120 && attempt - times[j] < 120 && attempt - times[k] < 120);
}

/// The count of recent reloads starts at none, and each reload adds one to it exactly if it lies
/// less than two minutes before the termination.
pub proof fn each_recent_reload_counts_once(times: Seq<u64>, time: u64, attempt: u64)
    ensures
        recent_count(Seq::empty(), attempt) == 0,
        attempt - time < 120 ==> recent_count(times.push(time), attempt) == recent_count(
            times,
            attempt,
        ) + 1,
        attempt - time >= 120 ==> recent_count(times.push(time), attempt) == recent_count(
            times,
            attempt,
        ),
{
    lemma_filter_push(times, time, |t: u64| is_recent(t, attempt));
    reveal(Seq::filter);
}

/// A log that is well formed holds no four reloads within two minutes.
pub proof fn four_reloads_never_share_a_window(
    log: ReloadLog,
    start: int,
    i: int,
    j: int,
    k: int,
    l: int,
)
    requires
        log.well_formed(),
        0 <= i < j < k < l < log@.len(),
    ensures
        !(start <= log@[i] < start + 120 && start <= log@[j] < start + 120 && start <= log@[k]
            < start + 120 && start <= log@[l] < start + 120),
{
    lemma_limit_rules_out_four(log@, start, i, j, k, l);
}

proof fn lemma_limit_rules_out_four(times: Seq<u64>, start: int, i: int, j: int, k: int, l: int)
    requires
        count_in_window(times, start) <= MAX_RENDERER_AUTO_RELOADS,
        0 <= i < j < k < l < times.len(),
    ensures
        !(start <= times[i] < start + 120 && start <= times[j] < start + 120 && start <= times[k]
            < start + 120 && start <= times[l] < start + 120),
{
    let inside = |time: u64| start <= time < start + RENDERER_RELOAD_WINDOW_SECS;
    if inside(times[i]) && inside(times[j]) && inside(times[k]) && inside(times[l]) {
        lemma_hit_adds_one(times, inside, l);
        assert(times.take(l).take(k) =~= times.take(k));
        lemma_hit_adds_one(times.take(l), inside, k);
        assert(times.take(k).take(j) =~= times.take(j));
        lemma_hit_adds_one(times.take(k), inside, j);
        assert(times.take(j).take(i) =~= times.take(i));
        lemma_hit_adds_one(times.take(j), inside, i);
    }
}

/// However the renderer terminates, no four of the reloads that follow lie within two minutes.
pub proof fn crash_loop_gets_three_reloads_at_most(
    attempts: Seq<u64>,
    start: int,
    i: int,
    j: int,
    k: int,
    l: int,
)
    requires
        0 <= i < j < k < l < reloads_after_all(attempts).len(),
    ensures
        ({
            let times = reloads_after_all(attempts);
            !(start <= times[i] < start + 120 && start <= times[j] < start + 120 && start
                <= times[k] < start + 120 && start <= times[l] < start + 120)
        }),
{
    reloads_are_rate_limited(attempts, start);
    lemma_limit_rules_out_four(reloads_after_all(attempts), start, i, j, k, l);
}

/// The terminations of a run are answered one by one: the reloads of a longer run begin with those
/// of the shorter one, and the last termination is answered on their ground alone.
pub proof fn terminations_are_answered_in_turn(earlier: Seq<u64>, attempt: u64)
    ensures
        reloads_after_all(Seq::empty()) == Seq::<u64>::empty(),
        reloads_after_all(earlier.push(attempt)) == reloads_after(
            reloads_after_all(earlier),
            attempt,
        ),
        reloads_after_all(earlier).is_prefix_of(reloads_after_all(earlier.push(attempt))),
{
    assert(earlier.push(attempt).drop_last() =~= earlier);
    let times = reloads_after_all(earlier);
    let next = reloads_after(times, attempt);
    assert(times =~= next.subrange(0, times.len() as int));
}

} // verus!
