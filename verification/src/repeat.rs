//! A worker that issues one request after another.
//!
//! The worker never has more than one request outstanding: it issues the
//! first when it is started and each further one only when told that the
//! previous one succeeded. A failure ends it for good. An optional bound on
//! the number of requests lets it finish; without a bound it goes on for as
//! long as requests succeed.

use vstd::prelude::*;

verus! {

/// Where a worker stands.
#[derive(Clone, Copy, Debug, PartialEq, Eq, Structural)]
pub enum Progress {
    /// Not started yet.
    Idle,
    /// One request has been issued and its outcome is awaited.
    InFlight,
    /// The bound was reached; nothing is outstanding.
    Done,
    /// A request failed; nothing more is issued.
    Failed,
}

/// What a worker is told.
#[derive(Clone, Copy, Debug, PartialEq, Eq, Structural)]
pub enum Signal {
    /// Begin working.
    Start,
    /// The outstanding request succeeded.
    Succeeded,
    /// The outstanding request failed.
    Failed,
}

/// The pacing state of a worker.
#[derive(Clone, Copy, Debug, PartialEq, Eq, Structural)]
pub struct Repeater {
    pub progress: Progress,
    /// Requests still to be issued, or `None` for no bound.
    pub remaining: Option<u64>,
}

/// A worker that has not been started.
pub open spec fn fresh(limit: Option<u64>) -> Repeater {
    Repeater { progress: Progress::Idle, remaining: limit }
}

/// Whether `signal` makes a worker in state `r` issue a request.
pub open spec fn issues(r: Repeater, signal: Signal) -> bool {
    &&& r.remaining != Some(0u64)
    &&& (r.progress == Progress::Idle && signal == Signal::Start) || (r.progress
        == Progress::InFlight && signal == Signal::Succeeded)
}

/// Whether `signal` reports the outcome of the request that `r` has
/// outstanding.
pub open spec fn completes(r: Repeater, signal: Signal) -> bool {
    r.progress == Progress::InFlight && signal != Signal::Start
}

/// The state that follows `r` on `signal`.
pub open spec fn after(r: Repeater, signal: Signal) -> Repeater {
    if issues(r, signal) {
        Repeater {
            progress: Progress::InFlight,
            remaining: match r.remaining {
                Some(n) => Some((n - 1) as u64),
                None => None,
            },
        }
    } else if r.progress == Progress::InFlight && signal == Signal::Failed {
        Repeater { progress: Progress::Failed, remaining: r.remaining }
    } else if (r.progress == Progress::Idle && signal == Signal::Start) || (r.progress
        == Progress::InFlight && signal == Signal::Succeeded) {
        Repeater { progress: Progress::Done, remaining: r.remaining }
    } else {
        r
    }
}

/// The state reached from `r` after all of `signals`, in order.
pub open spec fn after_all(r: Repeater, signals: Seq<Signal>) -> Repeater
    decreases signals.len(),
{
    if signals.len() == 0 {
        r
    } else {
        after_all(after(r, signals[0]), signals.drop_first())
    }
}

/// Number of requests issued from `r` while handling `signals`.
pub open spec fn issued(r: Repeater, signals: Seq<Signal>) -> nat
    decreases signals.len(),
{
    if signals.len() == 0 {
        0
    } else {
        (if issues(r, signals[0]) {
            1nat
        } else {
            0nat
        }) + issued(after(r, signals[0]), signals.drop_first())
    }
}

/// Number of outcomes that were taken for an outstanding request while
/// handling `signals` from `r`.
pub open spec fn completed(r: Repeater, signals: Seq<Signal>) -> nat
    decreases signals.len(),
{
    if signals.len() == 0 {
        0
    } else {
        (if completes(r, signals[0]) {
            1nat
        } else {
            0nat
        }) + completed(after(r, signals[0]), signals.drop_first())
    }
}

/// Number of requests that `r` has outstanding: one or none.
pub open spec fn outstanding(r: Repeater) -> nat {
    if r.progress == Progress::InFlight {
        1
    } else {
        0
    }
}

/// `Start` followed by `n` reports of success.
pub open spec fn start_then_successes(n: nat) -> Seq<Signal> {
    seq![Signal::Start] + Seq::new(n, |i: int| Signal::Succeeded)
}

impl Repeater {
    /// A worker that has not been started, with an optional bound on the
    /// number of requests it will issue.
    pub fn new(limit: Option<u64>) -> (r: Repeater)
        ensures
            r == fresh(limit),
    {
        Repeater { progress: Progress::Idle, remaining: limit }
    }

    /// Handles one signal and says whether a request is to be issued now.
    pub fn step(&mut self, signal: Signal) -> (issue: bool)
        ensures
            issue == issues(*old(self), signal),
            *final(self) == after(*old(self), signal),
    {
        let advancing = match (self.progress, signal) {
            (Progress::Idle, Signal::Start) => true,
            (Progress::InFlight, Signal::Succeeded) => true,
            _ => false,
        };
        if advancing {
            match self.remaining {
                Some(n) => {
                    if n == 0 {
                        self.progress = Progress::Done;
                        false
                    } else {
                        self.progress = Progress::InFlight;
                        self.remaining = Some(n - 1);
                        true
                    }
                },
                None => {
                    self.progress = Progress::InFlight;
                    true
                },
            }
        } else {
            match (self.progress, signal) {
                (Progress::InFlight, Signal::Failed) => {
                    self.progress = Progress::Failed;
                },
                _ => {},
            }
            false
        }
    }

    /// Whether the worker has ended, by reaching its bound or by failing.
    pub fn is_over(&self) -> (over: bool)
        ensures
            over == (self.progress == Progress::Done || self.progress == Progress::Failed),
    {
        match self.progress {
            Progress::Done => true,
            Progress::Failed => true,
            _ => false,
        }
    }
}

/// Requests are issued strictly one after another: whatever signals arrive,
/// every request issued is either answered or the single one outstanding.
pub proof fn lemma_one_at_a_time(r: Repeater, signals: Seq<Signal>)
    ensures
        outstanding(r) + issued(r, signals) == completed(r, signals) + outstanding(
            after_all(r, signals),
        ),
        outstanding(after_all(r, signals)) <= 1,
    decreases signals.len(),
{
    if signals.len() > 0 {
        lemma_one_at_a_time(after(r, signals[0]), signals.drop_first());
    }
}

/// A request is issued only while none is outstanding, or in the same step
/// that takes the answer to the outstanding one.
pub proof fn lemma_issue_needs_free_slot(r: Repeater, signal: Signal)
    requires
        issues(r, signal),
    ensures
        outstanding(r) == 0 || completes(r, signal),
        outstanding(after(r, signal)) == 1,
{
}

/// A bounded worker never issues more requests than its bound.
pub proof fn lemma_bound_respected(r: Repeater, signals: Seq<Signal>)
    requires
        r.remaining is Some,
    ensures
        issued(r, signals) <= r.remaining->0,
        after_all(r, signals).remaining is Some,
        after_all(r, signals).remaining->0 + issued(r, signals) == r.remaining->0,
    decreases signals.len(),
{
    if signals.len() > 0 {
        lemma_bound_respected(after(r, signals[0]), signals.drop_first());
    }
}

/// A worker bounded by `n`, started and told of success `n` times, issues
/// exactly `n` requests and is then done.
pub proof fn lemma_bounded_run(n: u64)
    ensures
        issued(fresh(Some(n)), start_then_successes(n as nat)) == n,
        after_all(fresh(Some(n)), start_then_successes(n as nat)).progress == Progress::Done,
{
    let signals = start_then_successes(n as nat);
    let rest = Seq::new(n as nat, |i: int| Signal::Succeeded);
    assert(signals.drop_first() =~= rest);
    if n == 0 {
        assert(rest.len() == 0);
        assert(issued(after(fresh(Some(n)), Signal::Start), rest) == 0);
        assert(after_all(after(fresh(Some(n)), Signal::Start), rest) == after(
            fresh(Some(n)),
            Signal::Start,
        ));
    } else {
        lemma_successes_drain(after(fresh(Some(n)), Signal::Start), n as nat);
    }
}

/// An unbounded worker that is started and told of success `k` times has
/// issued `k + 1` requests and still has one outstanding: it does not end.
pub proof fn lemma_unbounded_run(k: nat)
    ensures
        issued(fresh(None), start_then_successes(k)) == k + 1,
        after_all(fresh(None), start_then_successes(k)).progress == Progress::InFlight,
{
    let rest = Seq::new(k, |i: int| Signal::Succeeded);
    assert(start_then_successes(k).drop_first() =~= rest);
    lemma_successes_keep_going(after(fresh(None), Signal::Start), k);
}

/// Once a worker has failed or is done, no signal makes it issue anything or
/// leave that state.
pub proof fn lemma_ended_is_final(r: Repeater, signals: Seq<Signal>)
    requires
        r.progress == Progress::Failed || r.progress == Progress::Done,
    ensures
        issued(r, signals) == 0,
        after_all(r, signals) == r,
    decreases signals.len(),
{
    if signals.len() > 0 {
        lemma_ended_is_final(after(r, signals[0]), signals.drop_first());
    }
}

/// A failure reported for the outstanding request ends the worker.
pub proof fn lemma_failure_ends(r: Repeater, signals: Seq<Signal>)
    requires
        r.progress == Progress::InFlight,
    ensures
        after_all(r, seq![Signal::Failed] + signals).progress == Progress::Failed,
        issued(r, seq![Signal::Failed] + signals) == 0,
{
    let all = seq![Signal::Failed] + signals;
    assert(all.drop_first() =~= signals);
    lemma_ended_is_final(after(r, Signal::Failed), signals);
}

proof fn lemma_successes_drain(r: Repeater, k: nat)
    requires
        r.progress == Progress::InFlight,
        r.remaining is Some,
        r.remaining->0 + 1 == k,
    ensures
        issued(r, Seq::new(k, |i: int| Signal::Succeeded)) + 1 == k,
        after_all(r, Seq::new(k, |i: int| Signal::Succeeded)).progress == Progress::Done,
    decreases k,
{
    let signals = Seq::new(k, |i: int| Signal::Succeeded);
    let rest = Seq::new((k - 1) as nat, |i: int| Signal::Succeeded);
    assert(signals.drop_first() =~= rest);
    if k == 1 {
        assert(rest.len() == 0);
        assert(issued(after(r, Signal::Succeeded), rest) == 0);
        assert(after_all(after(r, Signal::Succeeded), rest) == after(r, Signal::Succeeded));
    } else {
        lemma_successes_drain(after(r, Signal::Succeeded), (k - 1) as nat);
    }
}

proof fn lemma_successes_keep_going(r: Repeater, k: nat)
    requires
        r.progress == Progress::InFlight,
        r.remaining is None,
    ensures
        issued(r, Seq::new(k, |i: int| Signal::Succeeded)) == k,
        after_all(r, Seq::new(k, |i: int| Signal::Succeeded)).progress == Progress::InFlight,
    decreases k,
{
    let signals = Seq::new(k, |i: int| Signal::Succeeded);
    if k > 0 {
        let rest = Seq::new((k - 1) as nat, |i: int| Signal::Succeeded);
        assert(signals.drop_first() =~= rest);
        lemma_successes_keep_going(after(r, Signal::Succeeded), (k - 1) as nat);
    }
}

} // verus!
