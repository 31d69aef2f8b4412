use crate::verdict::Verdict;
use vstd::prelude::*;

verus! {

/// What a run of the translate-compare-build procedure waits for.
#[derive(Clone, Copy, Debug, PartialEq, Eq, Structural)]
pub enum Stage {
    Translating,
    Comparing,
    InitializingRuntime,
    CreatingDeviceContext,
    CreatingTraceContext,
    BuildingProgram,
    Passed,
    Failed,
}

/// What the caller reports back after performing an action.
#[derive(Clone, Copy, Debug, PartialEq, Eq, Structural)]
pub enum Event {
    /// Translation of the entry function finished, successfully or not.
    Translated { ok: bool },
    /// The generated module was compared with its reference; `dump_dir_set`
    /// tells whether a directory for diagnostic dumps is configured.
    Compared { verdict: Verdict, dump_dir_set: bool },
    /// A runtime call returned this status; zero means success.
    Status { code: i64 },
}

/// What the caller performs next.
#[derive(Clone, Copy, Debug, PartialEq, Eq, Structural)]
pub enum Action {
    /// Translate the entry function.
    Translate,
    /// Compare the generated module with its reference.
    Compare,
    /// Write the textual dump under the dump directory, best effort, then
    /// report failure with the dump as its message.
    WriteDumpThenFail,
    /// Report failure with the textual dump as its message; no dump
    /// directory is configured.
    ReportDumpThenFail,
    /// Initialize the device runtime.
    InitRuntime,
    /// Create a device context.
    CreateDeviceContext,
    /// Create a raytracing context, holding the runtime lock.
    CreateTraceContext,
    /// Build the trace program, holding the runtime lock.
    BuildTraceProgram,
    /// Report success.
    Pass,
    /// Report failure.
    Fail,
    /// The run is over; nothing is left to do.
    Stop,
}

/// The transition of one step: next stage and action.
pub open spec fn next(stage: Stage, event: Event) -> (Stage, Action) {
    match (stage, event) {
        (Stage::Passed, _) => (Stage::Passed, Action::Stop),
        (Stage::Failed, _) => (Stage::Failed, Action::Stop),
        (Stage::Translating, Event::Translated { ok: true }) => (Stage::Comparing, Action::Compare),
        (Stage::Comparing, Event::Compared { verdict, dump_dir_set }) => {
            if verdict.spec_is_acceptable() {
                (Stage::InitializingRuntime, Action::InitRuntime)
            } else if dump_dir_set {
                (Stage::Failed, Action::WriteDumpThenFail)
            } else {
                (Stage::Failed, Action::ReportDumpThenFail)
            }
        },
        (Stage::InitializingRuntime, Event::Status { code: 0 }) => (
            Stage::CreatingDeviceContext,
            Action::CreateDeviceContext,
        ),
        (Stage::CreatingDeviceContext, Event::Status { code: 0 }) => (
            Stage::CreatingTraceContext,
            Action::CreateTraceContext,
        ),
        (Stage::CreatingTraceContext, Event::Status { code: 0 }) => (
            Stage::BuildingProgram,
            Action::BuildTraceProgram,
        ),
        (Stage::BuildingProgram, Event::Status { code: 0 }) => (Stage::Passed, Action::Pass),
        _ => (Stage::Failed, Action::Fail),
    }
}

/// The actions issued while the events are fed in order from `stage`.
pub open spec fn run_actions(stage: Stage, events: Seq<Event>) -> Seq<Action>
    decreases events.len(),
{
    if events.len() == 0 {
        Seq::empty()
    } else {
        let (s, a) = next(stage, events[0]);
        seq![a] + run_actions(s, events.drop_first())
    }
}

/// The first stage of a run and the action that opens it.
pub fn start() -> (r: (Stage, Action))
    ensures
        r == (Stage::Translating, Action::Translate),
{
    (Stage::Translating, Action::Translate)
}

/// One step of a run: from the current stage and the outcome of the last
/// action, the next stage and the action to perform. Success moves one stage
/// on; a failed translation, an unacceptable verdict, a non-zero status or an
/// event that does not fit the stage ends the run in failure; a finished run
/// stays finished.
pub fn step(stage: Stage, event: Event) -> (r: (Stage, Action))
    ensures
        r == next(stage, event),
{
    match stage {
        Stage::Passed => (Stage::Passed, Action::Stop),
        Stage::Failed => (Stage::Failed, Action::Stop),
        Stage::Translating => match event {
            Event::Translated { ok: true } => (Stage::Comparing, Action::Compare),
            _ => (Stage::Failed, Action::Fail),
        },
        Stage::Comparing => match event {
            Event::Compared { verdict, dump_dir_set } => {
                if verdict.is_acceptable() {
                    (Stage::InitializingRuntime, Action::InitRuntime)
                } else if dump_dir_set {
                    (Stage::Failed, Action::WriteDumpThenFail)
                } else {
                    (Stage::Failed, Action::ReportDumpThenFail)
                }
            },
            _ => (Stage::Failed, Action::Fail),
        },
        Stage::InitializingRuntime => match event {
            Event::Status { code: 0 } => (Stage::CreatingDeviceContext, Action::CreateDeviceContext),
            _ => (Stage::Failed, Action::Fail),
        },
        Stage::CreatingDeviceContext => match event {
            Event::Status { code: 0 } => (Stage::CreatingTraceContext, Action::CreateTraceContext),
            _ => (Stage::Failed, Action::Fail),
        },
        Stage::CreatingTraceContext => match event {
            Event::Status { code: 0 } => (Stage::BuildingProgram, Action::BuildTraceProgram),
            _ => (Stage::Failed, Action::Fail),
        },
        Stage::BuildingProgram => match event {
            Event::Status { code: 0 } => (Stage::Passed, Action::Pass),
            _ => (Stage::Failed, Action::Fail),
        },
    }
}

/// Once a run has failed, every later step only stops.
pub proof fn lemma_failed_run_only_stops(events: Seq<Event>)
    ensures
        forall|i: int|
            0 <= i < events.len() ==> #[trigger] run_actions(Stage::Failed, events)[i]
                == Action::Stop,
        run_actions(Stage::Failed, events).len() == events.len(),
    decreases events.len(),
{
    if events.len() > 0 {
        lemma_failed_run_only_stops(events.drop_first());
    }
}

/// A run builds the trace program only after the translation succeeded and
/// the comparison with the reference module was acceptable; in particular a
/// failed translation, such as an unknown entry point, never reaches the
/// runtime's build call.
pub proof fn lemma_build_requires_translation_and_match(events: Seq<Event>, i: int)
    requires
        0 <= i < run_actions(Stage::Translating, events).len(),
        run_actions(Stage::Translating, events)[i] == Action::BuildTraceProgram,
    ensures
        events.len() >= 2,
        events[0] == (Event::Translated { ok: true }),
        events[1] is Compared && events[1]->verdict.spec_is_acceptable(),
{
    let rest = events.drop_first();
    if events[0] != (Event::Translated { ok: true }) {
        lemma_failed_run_only_stops(rest);
    } else {
        assert(run_actions(Stage::Translating, events) == seq![Action::Compare] + run_actions(
            Stage::Comparing,
            rest,
        ));
        assert(rest.len() > 0);
        let rest2 = rest.drop_first();
        if !(rest[0] is Compared && rest[0]->verdict.spec_is_acceptable()) {
            lemma_failed_run_only_stops(rest2);
            assert(run_actions(Stage::Comparing, rest) == seq![next(Stage::Comparing, rest[0]).1]
                + run_actions(Stage::Failed, rest2));
        }
    }
}

/// The action that reports a mismatch: it always carries the textual dump,
/// and writes it to disk too when a dump directory is configured.
pub open spec fn mismatch_action(dump_dir_set: bool) -> Action {
    if dump_dir_set {
        Action::WriteDumpThenFail
    } else {
        Action::ReportDumpThenFail
    }
}

/// Every mismatch reports the textual dump, writing it only where a dump
/// directory is configured, fails the run, and nothing else follows.
pub proof fn lemma_mismatch_reports_dump_then_fails(dump_dir_set: bool, rest: Seq<Event>)
    ensures
        ({
            let acts = run_actions(
                Stage::Comparing,
                seq![Event::Compared { verdict: Verdict::Mismatch, dump_dir_set }] + rest,
            );
            &&& acts.len() == rest.len() + 1
            &&& acts[0] == mismatch_action(dump_dir_set)
            &&& forall|i: int| 1 <= i < acts.len() ==> #[trigger] acts[i] == Action::Stop
        }),
{
    let events = seq![Event::Compared { verdict: Verdict::Mismatch, dump_dir_set }] + rest;
    assert(events.drop_first() =~= rest);
    lemma_failed_run_only_stops(rest);
    let acts = run_actions(Stage::Comparing, events);
    assert(acts == seq![mismatch_action(dump_dir_set)] + run_actions(Stage::Failed, rest));
    assert forall|i: int| 1 <= i < acts.len() implies #[trigger] acts[i] == Action::Stop by {
        assert(acts[i] == run_actions(Stage::Failed, rest)[i - 1]);
    }
}

} // verus!
