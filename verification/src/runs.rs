//! The automation helpers that are running, one per run, found by the
//! run's identifier.

use crate::events::{opt_event, AppEvent, AppEventView};
use crate::json::object_members;
use crate::run_output::{
    decode_run_line, is_terminal, publish_run_message, run_app_event, run_message_of, stopped_event,
    stopped_event_of, terminal_message, RunContext,
};
use crate::text::same_text;
use vstd::prelude::*;
use vstd::string::StringExecFns;

verus! {

/// How often a run's helper is asked whether it has exited before its
/// process group is killed.
pub const STOP_RUN_POLL_LIMIT: u32 = 20;

/// One helper that is running.
#[derive(Debug, Clone, PartialEq, Eq)]
pub struct TrackedRun {
    pub run_id: String,
    pub pid: u32,
    /// Whether the helper has reported its result or its failure.
    pub finished: bool,
}

/// What is known of a run that is under way.
pub ghost struct RunRecord {
    pub pid: u32,
    pub finished: bool,
}

pub open spec fn record_of(run: TrackedRun) -> RunRecord {
    RunRecord { pid: run.pid, finished: run.finished }
}

/// Whether a list names the run `id`.
pub open spec fn names(runs: Seq<TrackedRun>, id: Seq<char>) -> bool {
    exists|i: int| 0 <= i < runs.len() && #[trigger] runs[i].run_id@ == id
}

/// A place at which a list names the run `id`.
pub open spec fn place_of(runs: Seq<TrackedRun>, id: Seq<char>) -> int {
    choose|i: int| 0 <= i < runs.len() && #[trigger] runs[i].run_id@ == id
}

/// Whether no run is named twice.
pub open spec fn distinct(runs: Seq<TrackedRun>) -> bool {
    forall|i: int, j: int|
        0 <= i < j < runs.len() ==> #[trigger] runs[i].run_id@ != #[trigger] runs[j].run_id@
}

/// The runs of a list, each under its identifier.
pub open spec fn runs_map(runs: Seq<TrackedRun>) -> Map<Seq<char>, RunRecord> {
    Map::new(|id: Seq<char>| names(runs, id), |id: Seq<char>| record_of(runs[place_of(runs, id)]))
}

proof fn lemma_place(runs: Seq<TrackedRun>, i: int)
    requires
        distinct(runs),
        0 <= i < runs.len(),
    ensures
        names(runs, runs[i].run_id@),
        place_of(runs, runs[i].run_id@) == i,
        runs_map(runs).contains_key(runs[i].run_id@),
        runs_map(runs)[runs[i].run_id@] == record_of(runs[i]),
{
    let id = runs[i].run_id@;
    assert(runs[i].run_id@ == id);
    let p = place_of(runs, id);
    assert(0 <= p < runs.len() && runs[p].run_id@ == id);
    if p < i {
        assert(runs[p].run_id@ != runs[i].run_id@);
    } else if i < p {
        assert(runs[i].run_id@ != runs[p].run_id@);
    }
}

/// What to do to stop a run.
#[derive(Debug, Clone, PartialEq, Eq)]
pub enum StopRunPlan {
    /// Terminate the process group of this helper.
    KillGroup { pid: u32 },
    /// No helper runs for it: close the window of this label, if there is
    /// one.
    CloseWindow { label: String },
}

pub ghost enum StopRunPlanView {
    KillGroup { pid: u32 },
    CloseWindow { label: Seq<char> },
}

impl View for StopRunPlan {
    type V = StopRunPlanView;

    open spec fn view(&self) -> StopRunPlanView {
        match *self {
            StopRunPlan::KillGroup { pid } => StopRunPlanView::KillGroup { pid },
            StopRunPlan::CloseWindow { label } => StopRunPlanView::CloseWindow { label: label@ },
        }
    }
}

/// The label of the window that a run drives when no helper runs for it.
pub open spec fn window_label(run_id: Seq<char>) -> Seq<char> {
    "connector-"@ + run_id
}

pub open spec fn stop_plan(active: Map<Seq<char>, RunRecord>, run_id: Seq<char>) -> StopRunPlanView {
    if active.contains_key(run_id) {
        StopRunPlanView::KillGroup { pid: active[run_id].pid }
    } else {
        StopRunPlanView::CloseWindow { label: window_label(run_id) }
    }
}

/// The active runs after a message of the run `id`: the run is marked as
/// finished by its result or its failure.
pub open spec fn after_message(
    active: Map<Seq<char>, RunRecord>,
    id: Seq<char>,
    terminal: bool,
) -> Map<Seq<char>, RunRecord> {
    if terminal && active.contains_key(id) {
        active.insert(id, RunRecord { pid: active[id].pid, finished: true })
    } else {
        active
    }
}

/// The event for the end of a helper's output: the run is reported as
/// stopped unless its helper had reported how it ended.
pub open spec fn closed_event(
    active: Map<Seq<char>, RunRecord>,
    id: Seq<char>,
    now_ms: u64,
) -> Option<AppEventView> {
    if active.contains_key(id) && active[id].finished {
        None
    } else {
        Some(stopped_event_of(id, now_ms))
    }
}

/// Adds a run to a list, in place of one of the same identifier.
fn insert_run(runs: &mut Vec<TrackedRun>, run_id: String, pid: u32)
    requires
        distinct(old(runs)@),
    ensures
        distinct(final(runs)@),
        runs_map(final(runs)@) == runs_map(old(runs)@).insert(
            run_id@,
            RunRecord { pid, finished: false },
        ),
{
    let ghost before = runs@;
    let ghost id = run_id@;
    let found = find_run(runs, run_id.as_str());
    let entry = TrackedRun { run_id, pid, finished: false };
    match found {
        Some(i) => {
            runs.set(i, entry);
            proof {
                let after = runs@;
                assert(distinct(after)) by {
                    assert forall|a: int, b: int| 0 <= a < b < after.len() implies (
                    #[trigger] after[a].run_id@) != (#[trigger] after[b].run_id@) by {
                        assert(after[a].run_id@ == before[a].run_id@);
                        assert(after[b].run_id@ == before[b].run_id@);
                    }
                }
                assert forall|k: Seq<char>| names(after, k) == names(before, k) by {
                    if names(after, k) {
                        let p = place_of(after, k);
                        assert(before[p].run_id@ == k);
                    }
                    if names(before, k) {
                        let p = place_of(before, k);
                        assert(after[p].run_id@ == k);
                    }
                }
                assert forall|k: Seq<char>| names(after, k) implies #[trigger] runs_map(after)[k]
                    == before_insert(before, id, pid)[k] by {
                    let p = place_of(after, k);
                    lemma_place(after, p);
                    lemma_place(before, p);
                }
                assert(runs_map(after) =~= before_insert(before, id, pid));
            }
        },
        None => {
            runs.push(entry);
            proof {
                let after = runs@;
                assert(distinct(after)) by {
                    assert forall|a: int, b: int| 0 <= a < b < after.len() implies (
                    #[trigger] after[a].run_id@) != (#[trigger] after[b].run_id@) by {
                        if b < before.len() {
                            assert(after[a].run_id@ == before[a].run_id@);
                            assert(after[b].run_id@ == before[b].run_id@);
                        } else {
                            assert(before[a].run_id@ == after[a].run_id@);
                        }
                    }
                }
                assert forall|k: Seq<char>| names(after, k) == (names(before, k) || k == id) by {
                    if names(after, k) {
                        let p = place_of(after, k);
                        if p < before.len() {
                            assert(before[p].run_id@ == k);
                        }
                    }
                    if names(before, k) {
                        let p = place_of(before, k);
                        assert(after[p].run_id@ == k);
                    }
                    if k == id {
                        assert(after[before.len() as int].run_id@ == k);
                    }
                }
                assert forall|k: Seq<char>| names(after, k) implies #[trigger] runs_map(after)[k]
                    == before_insert(before, id, pid)[k] by {
                    let p = place_of(after, k);
                    lemma_place(after, p);
                    if p < before.len() {
                        lemma_place(before, p);
                    }
                }
                assert(runs_map(after) =~= before_insert(before, id, pid));
            }
        },
    }
}

/// Takes a run out of a list.
fn remove_run(runs: &mut Vec<TrackedRun>, run_id: &str) -> (r: Option<TrackedRun>)
    requires
        distinct(old(runs)@),
    ensures
        distinct(final(runs)@),
        runs_map(final(runs)@) == runs_map(old(runs)@).remove(run_id@),
        match r {
            Some(run) => runs_map(old(runs)@).contains_key(run_id@) && run.run_id@ == run_id@
                && record_of(run) == runs_map(old(runs)@)[run_id@],
            None => !runs_map(old(runs)@).contains_key(run_id@),
        },
{
    let ghost before = runs@;
    let ghost id = run_id@;
    match find_run(runs, run_id) {
        Some(i) => {
            let run = runs.remove(i);
            proof {
                let after = runs@;
                lemma_place(before, i as int);
                assert(distinct(after)) by {
                    assert forall|a: int, b: int| 0 <= a < b < after.len() implies (
                    #[trigger] after[a].run_id@) != (#[trigger] after[b].run_id@) by {
                        let a0 = if a < i { a } else { a + 1 };
                        let b0 = if b < i { b } else { b + 1 };
                        assert(after[a] == before[a0]);
                        assert(after[b] == before[b0]);
                        assert(before[a0].run_id@ != before[b0].run_id@);
                    }
                }
                assert forall|k: Seq<char>| names(after, k) == (names(before, k) && k != id) by {
                    if names(after, k) {
                        let p = place_of(after, k);
                        let p0 = if p < i { p } else { p + 1 };
                        assert(after[p] == before[p0]);
                        assert(before[p0].run_id@ == k);
                        if p0 < i {
                            assert(before[p0].run_id@ != before[i as int].run_id@);
                        } else {
                            assert(before[i as int].run_id@ != before[p0].run_id@);
                        }
                    }
                    if names(before, k) && k != id {
                        let p0 = place_of(before, k);
                        let p = if p0 < i { p0 } else { p0 - 1 };
                        assert(after[p] == before[p0]);
                        assert(after[p].run_id@ == k);
                    }
                }
                assert forall|k: Seq<char>| names(after, k) implies #[trigger] runs_map(after)[k]
                    == runs_map(before)[k] by {
                    let p = place_of(after, k);
                    let p0 = if p < i { p } else { p + 1 };
                    assert(after[p] == before[p0]);
                    lemma_place(after, p);
                    lemma_place(before, p0);
                }
                assert(runs_map(after) =~= runs_map(before).remove(id));
            }
            Some(run)
        },
        None => {
            assert(runs_map(before) =~= runs_map(before).remove(id));
            None
        },
    }
}

/// Marks a run of a list as finished.
fn finish_run(runs: &mut Vec<TrackedRun>, run_id: &str)
    requires
        distinct(old(runs)@),
    ensures
        distinct(final(runs)@),
        runs_map(final(runs)@) == after_message(runs_map(old(runs)@), run_id@, true),
{
    let ghost before = runs@;
    let ghost id = run_id@;
    match find_run(runs, run_id) {
        Some(i) => {
            let pid: u32 = runs[i].pid;
            let name = runs[i].run_id.clone();
            runs.set(i, TrackedRun { run_id: name, pid, finished: true });
            proof {
                let after = runs@;
                lemma_place(before, i as int);
                assert(distinct(after)) by {
                    assert forall|a: int, b: int| 0 <= a < b < after.len() implies (
                    #[trigger] after[a].run_id@) != (#[trigger] after[b].run_id@) by {
                        assert(after[a].run_id@ == before[a].run_id@);
                        assert(after[b].run_id@ == before[b].run_id@);
                    }
                }
                assert forall|k: Seq<char>| names(after, k) == names(before, k) by {
                    if names(after, k) {
                        let p = place_of(after, k);
                        assert(before[p].run_id@ == k);
                    }
                    if names(before, k) {
                        let p = place_of(before, k);
                        assert(after[p].run_id@ == k);
                    }
                }
                let expected = after_message(runs_map(before), id, true);
                assert forall|k: Seq<char>| names(after, k) implies #[trigger] runs_map(after)[k]
                    == expected[k] by {
                    let p = place_of(after, k);
                    lemma_place(after, p);
                    lemma_place(before, p);
                }
                assert(runs_map(after) =~= expected);
            }
        },
        None => {},
    }
}

/// The place of a run in a list.
fn find_run(runs: &Vec<TrackedRun>, run_id: &str) -> (r: Option<usize>)
    ensures
        match r {
            Some(i) => i < runs.len() && runs@[i as int].run_id@ == run_id@,
            None => !names(runs@, run_id@),
        },
{
    let mut i: usize = 0;
    while i < runs.len()
        invariant
            i <= runs.len(),
            forall|j: int| 0 <= j < i ==> runs@[j].run_id@ != run_id@,
        decreases runs.len() - i,
    {
        if same_text(runs[i].run_id.as_str(), run_id) {
            return Some(i);
        }
        i = i + 1;
    }
    None
}

/// The helpers that are running, each found by the identifier of its run.
/// No run is held twice.
pub struct RunProcessManager {
    runs: Vec<TrackedRun>,
}

impl RunProcessManager {
    #[verifier::type_invariant]
    spec fn no_run_twice(self) -> bool {
        distinct(self.runs@)
    }

    /// The active runs, each under its identifier.
    pub closed spec fn active(&self) -> Map<Seq<char>, RunRecord> {
        runs_map(self.runs@)
    }

    pub fn new() -> (r: Self)
        ensures
            r.active() == Map::<Seq<char>, RunRecord>::empty(),
    {
        let r = RunProcessManager { runs: Vec::new() };
        assert(r.active() =~= Map::<Seq<char>, RunRecord>::empty());
        r
    }

    /// How many runs are known.
    pub fn len(&self) -> (r: usize)
        ensures
            r == self.active().dom().len(),
            self.active().dom().finite(),
    {
        proof {
            use_type_invariant(self);
            lemma_count(self.runs@);
        }
        self.runs.len()
    }

    /// The process of a run, if the run is known.
    pub fn pid_of(&self, run_id: &str) -> (r: Option<u32>)
        ensures
            r == if self.active().contains_key(run_id@) {
                Some(self.active()[run_id@].pid)
            } else {
                None
            },
    {
        proof {
            use_type_invariant(self);
        }
        match find_run(&self.runs, run_id) {
            Some(i) => {
                proof {
                    lemma_place(self.runs@, i as int);
                }
                Some(self.runs[i].pid)
            },
            None => None,
        }
    }

    /// Tracks the helper of a run. A helper tracked for the same run before
    /// is forgotten.
    pub fn track(&mut self, run_id: String, pid: u32)
        ensures
            final(self).active() == old(self).active().insert(
                run_id@,
                RunRecord { pid, finished: false },
            ),
    {
        proof {
            use_type_invariant(&*self);
        }
        let mut runs: Vec<TrackedRun> = Vec::new();
        core::mem::swap(&mut runs, &mut self.runs);
        insert_run(&mut runs, run_id, pid);
        self.runs = runs;
    }

    /// Stops tracking a run and hands out what was known of it.
    pub fn untrack(&mut self, run_id: &str) -> (r: Option<TrackedRun>)
        ensures
            final(self).active() == old(self).active().remove(run_id@),
            match r {
                Some(run) => old(self).active().contains_key(run_id@) && run.run_id@ == run_id@
                    && record_of(run) == old(self).active()[run_id@],
                None => !old(self).active().contains_key(run_id@),
            },
    {
        proof {
            use_type_invariant(&*self);
        }
        let mut runs: Vec<TrackedRun> = Vec::new();
        core::mem::swap(&mut runs, &mut self.runs);
        let r = remove_run(&mut runs, run_id);
        self.runs = runs;
        r
    }

    /// Takes one line of the output of a run's helper: marks the run as
    /// finished when the line holds its result or its failure, and hands out
    /// the event to publish.
    pub fn on_run_line(&mut self, ctx: &RunContext, line: &str, now_ms: u64) -> (r: Option<AppEvent>)
        ensures
            opt_event(r) == run_app_event(ctx@, run_message_of(object_members(line@)), now_ms),
            final(self).active() == after_message(
                old(self).active(),
                ctx@.run_id,
                is_terminal(run_message_of(object_members(line@))),
            ),
    {
        proof {
            use_type_invariant(&*self);
        }
        let message = decode_run_line(line);
        if terminal_message(&message) {
            let mut runs: Vec<TrackedRun> = Vec::new();
            core::mem::swap(&mut runs, &mut self.runs);
            finish_run(&mut runs, ctx.run_id.as_str());
            self.runs = runs;
        }
        publish_run_message(ctx, &message, now_ms)
    }

    /// Takes note that the output of a run's helper has ended: the run is
    /// no longer active, and is reported as stopped unless its helper had
    /// reported how it ended.
    pub fn on_run_closed(&mut self, run_id: &str, now_ms: u64) -> (r: Option<AppEvent>)
        ensures
            opt_event(r) == closed_event(old(self).active(), run_id@, now_ms),
            final(self).active() == old(self).active().remove(run_id@),
    {
        match self.untrack(run_id) {
            Some(run) => if run.finished {
                None
            } else {
                Some(stopped_event(run_id, now_ms))
            },
            None => Some(stopped_event(run_id, now_ms)),
        }
    }

    /// Plans the stop of a run: the helper that runs for it is handed out
    /// for termination and no longer active; where none runs for it, its
    /// window is to be closed.
    pub fn begin_stop_run(&mut self, run_id: &str) -> (r: StopRunPlan)
        ensures
            r@ == stop_plan(old(self).active(), run_id@),
            final(self).active() == old(self).active().remove(run_id@),
    {
        match self.untrack(run_id) {
            Some(run) => StopRunPlan::KillGroup { pid: run.pid },
            None => {
                let mut label = String::new();
                label.append("connector-");
                label.append(run_id);
                assert(label@ =~= window_label(run_id@));
                StopRunPlan::CloseWindow { label }
            },
        }
    }

    /// Hands out every active helper for termination; none is known
    /// afterwards.
    pub fn drain(&mut self) -> (r: Vec<TrackedRun>)
        ensures
            runs_map(r@) == old(self).active(),
            distinct(r@),
            final(self).active() == Map::<Seq<char>, RunRecord>::empty(),
    {
        proof {
            use_type_invariant(&*self);
        }
        let mut out: Vec<TrackedRun> = Vec::new();
        core::mem::swap(&mut out, &mut self.runs);
        assert(runs_map(self.runs@) =~= Map::<Seq<char>, RunRecord>::empty());
        out
    }
}

/// The map that tracking `id` anew makes of the runs of a list.
pub open spec fn before_insert(before: Seq<TrackedRun>, id: Seq<char>, pid: u32) -> Map<
    Seq<char>,
    RunRecord,
> {
    runs_map(before).insert(id, RunRecord { pid, finished: false })
}

proof fn lemma_count(runs: Seq<TrackedRun>)
    requires
        distinct(runs),
    ensures
        runs_map(runs).dom().finite(),
        runs_map(runs).dom().len() == runs.len(),
    decreases runs.len(),
{
    if runs.len() == 0 {
        assert(runs_map(runs).dom() =~= Set::<Seq<char>>::empty());
    } else {
        let front = runs.drop_last();
        let id = runs.last().run_id@;
        assert(distinct(front)) by {
            assert forall|a: int, b: int| 0 <= a < b < front.len() implies (
            #[trigger] front[a].run_id@) != (#[trigger] front[b].run_id@) by {
                assert(front[a].run_id@ == runs[a].run_id@);
                assert(front[b].run_id@ == runs[b].run_id@);
            }
        }
        lemma_count(front);
        assert(!names(front, id)) by {
            if names(front, id) {
                let p = place_of(front, id);
                assert(runs[p].run_id@ == front[p].run_id@);
                assert(runs[p].run_id@ != runs[runs.len() - 1].run_id@);
            }
        }
        assert(runs_map(runs).dom() =~= runs_map(front).dom().insert(id)) by {
            assert forall|k: Seq<char>| names(runs, k) == (names(front, k) || k == id) by {
                if names(runs, k) {
                    let p = place_of(runs, k);
                    if p < front.len() {
                        assert(front[p].run_id@ == k);
                    }
                }
                if names(front, k) {
                    let p = place_of(front, k);
                    assert(runs[p].run_id@ == k);
                }
                if k == id {
                    assert(runs[runs.len() - 1].run_id@ == k);
                }
            }
        }
    }
}

} // verus!
