//! The scheduler's dispatch state: the pause flag and the in-flight
//! task-id set, gated by the singleton rule and the global
//! parallelism cap.
//!
//! The unverified loop wraps one [`SchedulerRunner`] value in a lock
//! and calls `try_begin` before dispatching a due task and
//! `finish_execution` when its execution completes, so check-and-insert
//! and check-and-remove are each atomic. The laws at the bottom show
//! that along any such sequence of steps the in-flight set never holds
//! a task twice and never exceeds the parallelism cap.

use vstd::prelude::*;

use crate::text::str_eq;

verus! {

/// The mathematical content of a [`SchedulerRunner`]: the pause flag,
/// the in-flight task ids, and the parallelism cap.
pub struct RunnerView {
    pub paused: bool,
    pub running: Seq<Seq<char>>,
    pub max_parallel: int,
}

/// The scheduler's dispatch state.
pub struct SchedulerRunner {
    paused: bool,
    running: Vec<String>,
    max_parallel: u8,
}

impl View for SchedulerRunner {
    type V = RunnerView;

    closed spec fn view(&self) -> RunnerView {
        RunnerView {
            paused: self.paused,
            running: self.running.deep_view(),
            max_parallel: self.max_parallel as int,
        }
    }
}

/// The dispatch invariant: no task id is in flight twice, and the
/// in-flight count never exceeds the parallelism cap.
pub open spec fn runner_wf(v: RunnerView) -> bool {
    &&& v.running.no_duplicates()
    &&& v.running.len() <= v.max_parallel
}

/// What the dispatch gates decide for one due task.
#[derive(Clone, Copy, Debug, PartialEq, Eq, Structural)]
pub enum DispatchGate {
    /// All gates passed; the task is now marked in flight.
    Started,
    /// The task is a singleton and already in flight: skipped, with a
    /// logged reason.
    SkippedSingleton,
    /// The parallelism cap is reached: deferred silently and
    /// reconsidered next tick, never dropped.
    Deferred,
}

/// What a begin attempt decides: a singleton id that is already
/// running is skipped; with the cap reached it defers; otherwise it
/// starts.
pub open spec fn spec_gate(v: RunnerView, id: Seq<char>, singleton: bool) -> DispatchGate {
    if singleton && v.running.contains(id) {
        DispatchGate::SkippedSingleton
    } else if v.running.len() >= v.max_parallel {
        DispatchGate::Deferred
    } else {
        DispatchGate::Started
    }
}

/// The state after a begin attempt: unchanged unless the gates
/// passed, in which case the id is in the set (inserted once; a
/// non-singleton id already present stays a single entry).
pub open spec fn spec_after_begin(v: RunnerView, id: Seq<char>, singleton: bool) -> RunnerView {
    if spec_gate(v, id, singleton) is Started {
        if v.running.contains(id) {
            v
        } else {
            RunnerView { running: v.running.push(id), ..v }
        }
    } else {
        v
    }
}

fn contains_id(v: &Vec<String>, id: &String) -> (r: bool)
    ensures
        r == v.deep_view().contains(id@),
{
    let mut i: usize = 0;
    while i < v.len()
        invariant
            i <= v@.len(),
            forall|j: int| 0 <= j < i ==> v.deep_view()[j] != id@,
        decreases v@.len() - i,
    {
        if str_eq(v[i].as_str(), id.as_str()) {
            assert(v.deep_view()[i as int] == id@);
            return true;
        }
        i = i + 1;
    }
    assert(!v.deep_view().contains(id@));
    false
}

impl SchedulerRunner {
    /// A fresh dispatch state: not paused, nothing in flight, with
    /// the given parallelism cap.
    pub fn new(max_parallel: u8) -> (s: Self)
        ensures
            !s@.paused,
            s@.running == Seq::<Seq<char>>::empty(),
            s@.max_parallel == max_parallel as int,
            runner_wf(s@),
    {
        let s = SchedulerRunner { paused: false, running: Vec::new(), max_parallel };
        proof {
            assert(s@.running =~= Seq::<Seq<char>>::empty());
        }
        s
    }

    /// Pauses the scheduler: every tick while paused is a full no-op.
    pub fn pause(&mut self)
        ensures
            final(self)@ == (RunnerView { paused: true, ..old(self)@ }),
    {
        self.paused = true;
    }

    /// Resumes the scheduler.
    pub fn resume(&mut self)
        ensures
            final(self)@ == (RunnerView { paused: false, ..old(self)@ }),
    {
        self.paused = false;
    }

    /// Whether the scheduler is paused.
    pub fn is_paused(&self) -> (r: bool)
        ensures
            r == self@.paused,
    {
        self.paused
    }

    /// Flips the pause flag and returns the new value.
    pub fn toggle_pause(&mut self) -> (r: bool)
        ensures
            final(self)@ == (RunnerView { paused: !old(self)@.paused, ..old(self)@ }),
            r == !old(self)@.paused,
    {
        self.paused = !self.paused;
        self.paused
    }

    /// How many executions are in flight.
    pub fn in_flight_count(&self) -> (n: usize)
        ensures
            n == self@.running.len(),
    {
        self.running.len()
    }

    /// Whether the given id is currently marked running.
    pub fn is_in_flight(&self, task_id: &String) -> (r: bool)
        ensures
            r == self@.running.contains(task_id@),
    {
        contains_id(&self.running, task_id)
    }

    /// The parallelism cap.
    pub fn max_parallel_runs(&self) -> (r: u8)
        ensures
            r as int == self@.max_parallel,
    {
        self.max_parallel
    }

    /// Runs the dispatch gates for one due task and, when they pass,
    /// atomically marks it in flight. The singleton gate refuses a
    /// task already in flight; the concurrency gate defers when the
    /// cap is reached.
    pub fn try_begin(&mut self, task_id: &String, singleton: bool) -> (g: DispatchGate)
        requires
            runner_wf(old(self)@),
        ensures
            g == spec_gate(old(self)@, task_id@, singleton),
            final(self)@ == spec_after_begin(old(self)@, task_id@, singleton),
            runner_wf(final(self)@),
    {
        let present = contains_id(&self.running, task_id);
        if singleton && present {
            return DispatchGate::SkippedSingleton;
        }
        if self.running.len() >= self.max_parallel as usize {
            return DispatchGate::Deferred;
        }
        if !present {
            let ghost prev = self.running.deep_view();
            self.running.push(task_id.clone());
            proof {
                assert(self.running.deep_view() =~= prev.push(task_id@));
                assert forall|i: int, j: int|
                    0 <= i < j < self@.running.len() implies self@.running[i]
                    != self@.running[j] by {
                    if j == prev.len() {
                        assert(prev[i] != task_id@);
                    }
                }
            }
        }
        DispatchGate::Started
    }

    /// Atomically removes a completed execution from the in-flight
    /// set. A task id that is not in flight leaves the state
    /// unchanged; one that is loses exactly its entry, and every
    /// other id stays as it was.
    pub fn finish_execution(&mut self, task_id: &String)
        requires
            runner_wf(old(self)@),
        ensures
            final(self)@.paused == old(self)@.paused,
            final(self)@.max_parallel == old(self)@.max_parallel,
            !old(self)@.running.contains(task_id@) ==> final(self)@ == old(self)@,
            old(self)@.running.contains(task_id@) ==> {
                &&& final(self)@.running.len() == old(self)@.running.len() - 1
                &&& !final(self)@.running.contains(task_id@)
                &&& forall|x: Seq<char>|
                    x != task_id@ ==> (final(self)@.running.contains(x) <==> old(
                        self,
                    )@.running.contains(x))
            },
            runner_wf(final(self)@),
    {
        let ghost prev = self.running.deep_view();
        let mut i: usize = 0;
        while i < self.running.len()
            invariant
                i <= self.running@.len(),
                self.running.deep_view() == prev,
                prev == old(self)@.running,
                self@.paused == old(self)@.paused,
                self@.max_parallel == old(self)@.max_parallel,
                runner_wf(self@),
                forall|j: int| 0 <= j < i ==> prev[j] != task_id@,
            decreases self.running@.len() - i,
        {
            if str_eq(self.running[i].as_str(), task_id.as_str()) {
                assert(prev[i as int] == task_id@);
                assert(prev.contains(task_id@));
                self.running.remove(i);
                proof {
                    let now = self.running.deep_view();
                    assert(now =~= prev.remove(i as int));
                    assert forall|k: int| 0 <= k < now.len() implies now[k] != task_id@ by {
                        if k < i {
                            assert(now[k] == prev[k]);
                        } else {
                            assert(now[k] == prev[k + 1]);
                        }
                    }
                    assert(!now.contains(task_id@));
                    assert forall|x: Seq<char>|
                        x != task_id@ implies (now.contains(x) <==> prev.contains(x)) by {
                        if now.contains(x) {
                            let k = choose|k: int| 0 <= k < now.len() && now[k] == x;
                            if k < i {
                                assert(prev[k] == x);
                            } else {
                                assert(prev[k + 1] == x);
                            }
                        }
                        if prev.contains(x) {
                            let k = choose|k: int| 0 <= k < prev.len() && prev[k] == x;
                            assert(k != i);
                            if k < i {
                                assert(now[k] == x);
                            } else {
                                assert(now[k - 1] == x);
                            }
                        }
                    }
                    assert forall|a: int, b: int|
                        0 <= a < b < now.len() implies now[a] != now[b] by {
                        let pa = if a < i {
                            a
                        } else {
                            a + 1
                        };
                        let pb = if b < i {
                            b
                        } else {
                            b + 1
                        };
                        assert(now[a] == prev[pa]);
                        assert(now[b] == prev[pb]);
                    }
                }
                return ;
            }
            i = i + 1;
        }
        proof {
            assert(!prev.contains(task_id@));
        }
    }
}

/// One step the dispatch state can take: a begin attempt or a
/// completion.
pub open spec fn dispatch_transition(pre: RunnerView, post: RunnerView) -> bool {
    ||| (exists|id: Seq<char>, singleton: bool| post == #[trigger] spec_after_begin(
        pre,
        id,
        singleton,
    ))
    ||| (exists|id: Seq<char>| #[trigger] finish_transition(pre, post, id))
}

/// What a completion of `id` does to the state, as
/// `finish_execution` guarantees it.
pub open spec fn finish_transition(pre: RunnerView, post: RunnerView, id: Seq<char>) -> bool {
    &&& post.paused == pre.paused
    &&& post.max_parallel == pre.max_parallel
    &&& (!pre.running.contains(id) ==> post == pre)
    &&& (pre.running.contains(id) ==> {
        &&& post.running.len() == pre.running.len() - 1
        &&& !post.running.contains(id)
        &&& forall|x: Seq<char>| x != id ==> (post.running.contains(x) <==> pre.running.contains(x))
        &&& post.running.no_duplicates()
    })
}

/// A begin attempt preserves the dispatch invariant: it inserts only
/// an id that is absent, and only below the cap.
pub proof fn lemma_begin_preserves_wf(v: RunnerView, id: Seq<char>, singleton: bool)
    requires
        runner_wf(v),
    ensures
        runner_wf(spec_after_begin(v, id, singleton)),
{
    if spec_gate(v, id, singleton) is Started && !v.running.contains(id) {
        let post = spec_after_begin(v, id, singleton);
        assert(post.running == v.running.push(id));
        assert forall|i: int, j: int|
            0 <= i < j < post.running.len() implies post.running[i] != post.running[j] by {
            if j == v.running.len() {
                assert(v.running[i] != id);
            }
        }
    }
}

/// A completion preserves the dispatch invariant.
pub proof fn lemma_finish_preserves_wf(pre: RunnerView, post: RunnerView, id: Seq<char>)
    requires
        runner_wf(pre),
        finish_transition(pre, post, id),
    ensures
        runner_wf(post),
{
}

/// Law: along any sequence of begin attempts and completions from a
/// well-formed state, every state keeps the dispatch invariant — so
/// the in-flight count never exceeds the parallelism cap (however
/// many tasks fall due at once), and no task id is ever in flight
/// twice.
pub proof fn lemma_dispatch_trace_invariant(trace: Seq<RunnerView>)
    requires
        trace.len() > 0,
        runner_wf(trace.first()),
        forall|i: int| 0 <= i < trace.len() - 1 ==> dispatch_transition(
            #[trigger] trace[i],
            trace[i + 1],
        ),
    ensures
        forall|i: int| 0 <= i < trace.len() ==> runner_wf(#[trigger] trace[i]),
    decreases trace.len(),
{
    if trace.len() > 1 {
        let shorter = trace.drop_last();
        assert(shorter.first() == trace.first());
        assert forall|i: int| 0 <= i < shorter.len() - 1 implies dispatch_transition(
            #[trigger] shorter[i],
            shorter[i + 1],
        ) by {
            assert(shorter[i] == trace[i]);
            assert(shorter[i + 1] == trace[i + 1]);
        }
        lemma_dispatch_trace_invariant(shorter);
        let n = trace.len() - 2;
        assert(shorter[n] == trace[n]);
        assert(runner_wf(trace[n]));
        assert(dispatch_transition(trace[n], trace[n + 1]));
        if exists|id: Seq<char>, singleton: bool| trace[n + 1] == #[trigger] spec_after_begin(
            trace[n],
            id,
            singleton,
        ) {
            let (id, singleton) = choose|id: Seq<char>, singleton: bool|
                trace[n + 1] == #[trigger] spec_after_begin(trace[n], id, singleton);
            lemma_begin_preserves_wf(trace[n], id, singleton);
        } else {
            let id = choose|id: Seq<char>| #[trigger] finish_transition(
                trace[n],
                trace[n + 1],
                id,
            );
            lemma_finish_preserves_wf(trace[n], trace[n + 1], id);
        }
        assert forall|i: int| 0 <= i < trace.len() implies runner_wf(#[trigger] trace[i]) by {
            if i < trace.len() - 1 {
                assert(trace[i] == shorter[i]);
            }
        }
    }
}

/// Law: while an execution of a task is in flight, a singleton begin
/// attempt for that task is refused — a singleton task never has two
/// overlapping executions.
pub proof fn lemma_singleton_never_overlaps(v: RunnerView, id: Seq<char>)
    requires
        runner_wf(v),
        v.running.contains(id),
    ensures
        spec_gate(v, id, true) == DispatchGate::SkippedSingleton,
        spec_after_begin(v, id, true) == v,
{
}

} // verus!
