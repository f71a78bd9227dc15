//! What holds of every run of the pipeline, whatever events it is fed.
//!
//! A run is the pipeline's transition function applied to a sequence of
//! events, one after the other. The lemmas here speak of the steps that a
//! run answers with: which tools are invoked, how often, in which order,
//! and what never happens.

use vstd::prelude::*;

use crate::config::Config;
use crate::discover::{discovered, Candidate};
use crate::pipeline::{
    abnormal_exit_text, failure_view, line_view, EffectView, Event, PhaseView, PipelineView,
    StepView,
};
use crate::report::{missing_text, no_assembly_text};
use crate::tooling::{assemble_view, link_view, BuildErrorView, InvocationView, Stage};
use crate::units::BuildUnitView;

verus! {

/// The run of a pipeline from `start` on `events`: the state it ends in,
/// and the steps it answered with, in order.
pub open spec fn replay(start: PipelineView, events: Seq<Event>) -> (PipelineView, Seq<StepView>)
    decreases events.len(),
{
    if events.len() == 0 {
        (start, Seq::empty())
    } else {
        let (state, steps) = replay(start, events.drop_last());
        let (next, step) = state.step(events.last());
        (next, steps.push(step))
    }
}

/// The invocations that `steps` ask for on behalf of `stage`, in order.
pub open spec fn calls(steps: Seq<StepView>, stage: Stage) -> Seq<InvocationView>
    decreases steps.len(),
{
    if steps.len() == 0 {
        Seq::empty()
    } else {
        let front = calls(steps.drop_last(), stage);
        match steps.last().effect {
            EffectView::Invoke(s, call) => if s == stage {
                front.push(call)
            } else {
                front
            },
            _ => front,
        }
    }
}

/// The assembler's invocations on the first `n` units, in order.
pub open spec fn assembled(units: Seq<BuildUnitView>, n: nat) -> Seq<InvocationView> {
    Seq::new(n, |i: int| assemble_view(units[i]))
}

/// The linker's invocations on the first `n` units, in order.
pub open spec fn linked(units: Seq<BuildUnitView>, n: nat) -> Seq<InvocationView> {
    Seq::new(n, |i: int| link_view(units[i]))
}

/// The steps taken so far fit the state: the assembler was invoked on the
/// first units in order and on nothing else, so was the linker, and how
/// far each has come is what the phase says.
pub open spec fn orderly(state: PipelineView, steps: Seq<StepView>) -> bool {
    let n = state.units.len();
    let a = calls(steps, Stage::Assemble);
    let l = calls(steps, Stage::Link);
    &&& state.wf()
    &&& a.len() <= n
    &&& l.len() <= n
    &&& a == assembled(state.units, a.len())
    &&& l == linked(state.units, l.len())
    &&& match state.phase {
        PhaseView::Idle | PhaseView::Preflight | PhaseView::Probing => n == 0,
        PhaseView::Preparing => a.len() == 0 && l.len() == 0,
        PhaseView::Assembling(i) => a.len() == i + 1 && l.len() == 0,
        PhaseView::Linking(i) => a.len() == n && l.len() == i + 1,
        PhaseView::Locating | PhaseView::Running | PhaseView::CleaningObjects | PhaseView::CleaningBinaries => a.len()
            == n && l.len() == n,
        PhaseView::Finished => (l.len() > 0 ==> a.len() == n) && (state.result is Ok ==> a.len() == n
            && l.len() == n),
    }
}

proof fn lemma_calls_push(steps: Seq<StepView>, step: StepView, stage: Stage)
    ensures
        calls(steps.push(step), stage) == match step.effect {
            EffectView::Invoke(s, call) => if s == stage {
                calls(steps, stage).push(call)
            } else {
                calls(steps, stage)
            },
            _ => calls(steps, stage),
        },
{
    assert(steps.push(step).drop_last() =~= steps);
}

/// One more step keeps a run orderly.
pub proof fn lemma_step_keeps_order(state: PipelineView, steps: Seq<StepView>, event: Event)
    requires
        orderly(state, steps),
    ensures
        orderly(state.step(event).0, steps.push(state.step(event).1)),
{
    let (next, step) = state.step(event);
    lemma_calls_push(steps, step, Stage::Assemble);
    lemma_calls_push(steps, step, Stage::Link);
    let a2 = calls(steps.push(step), Stage::Assemble);
    let l2 = calls(steps.push(step), Stage::Link);
    assert(a2 =~= assembled(next.units, a2.len()));
    assert(l2 =~= linked(next.units, l2.len()));
}

/// Every run from the initial state is orderly.
pub proof fn lemma_run_orderly(config: Config, events: Seq<Event>)
    ensures
        orderly(
            replay(PipelineView::initial(config), events).0,
            replay(PipelineView::initial(config), events).1,
        ),
    decreases events.len(),
{
    let start = PipelineView::initial(config);
    if events.len() == 0 {
        assert(calls(Seq::<StepView>::empty(), Stage::Assemble) =~= assembled(start.units, 0));
        assert(calls(Seq::<StepView>::empty(), Stage::Link) =~= linked(start.units, 0));
    } else {
        lemma_run_orderly(config, events.drop_last());
        let (state, steps) = replay(start, events.drop_last());
        lemma_step_keeps_order(state, steps, events.last());
    }
}

/// One assembler run per unit, one linker run per assembled unit.
///
/// Whatever events a pipeline is fed from its start, the assembler is
/// invoked on the first units in their order and on nothing else, at most
/// once each, and so is the linker. No unit is linked before every unit
/// was assembled. A pipeline that ends well has assembled every unit once
/// and linked every unit once.
pub proof fn lemma_one_run_per_unit(config: Config, events: Seq<Event>)
    ensures
        ({
            let (end, steps) = replay(PipelineView::initial(config), events);
            let a = calls(steps, Stage::Assemble);
            let l = calls(steps, Stage::Link);
            let n = end.units.len();
            &&& a.len() <= n
            &&& l.len() <= n
            &&& forall|i: int| 0 <= i < a.len() ==> a[i] == assemble_view(end.units[i])
            &&& forall|i: int| 0 <= i < l.len() ==> l[i] == link_view(end.units[i])
            &&& l.len() > 0 ==> a.len() == n
            &&& end.phase == PhaseView::Finished && end.result is Ok ==> a.len() == n && l.len() == n
        }),
{
    lemma_run_orderly(config, events);
}

/// How many units were assembled with success in the run from `start` on
/// `events`: the number of successful exits that the pipeline took in
/// while it waited for the assembler.
pub open spec fn assembled_well(start: PipelineView, events: Seq<Event>) -> nat
    decreases events.len(),
{
    if events.len() == 0 {
        0
    } else {
        let front = assembled_well(start, events.drop_last());
        let state = replay(start, events.drop_last()).0;
        if state.phase is Assembling && events.last() == (Event::Exited { success: true }) {
            front + 1
        } else {
            front
        }
    }
}

/// The successes counted so far fit the state: while units are assembled,
/// every unit before the one at hand has succeeded; once linking has
/// begun, every unit has.
pub open spec fn settled(state: PipelineView, steps: Seq<StepView>, well: nat) -> bool {
    let n = state.units.len();
    let a = calls(steps, Stage::Assemble).len();
    let l = calls(steps, Stage::Link).len();
    &&& well <= a
    &&& l <= well
    &&& match state.phase {
        PhaseView::Idle | PhaseView::Preflight | PhaseView::Probing | PhaseView::Preparing => well
            == 0,
        PhaseView::Assembling(i) => well == i,
        PhaseView::Linking(_)
        | PhaseView::Locating
        | PhaseView::Running
        | PhaseView::CleaningObjects
        | PhaseView::CleaningBinaries => well == n,
        PhaseView::Finished => (l > 0 ==> well == n) && (state.result is Ok ==> well == n),
    }
}

proof fn lemma_step_keeps_count(
    state: PipelineView,
    steps: Seq<StepView>,
    well: nat,
    event: Event,
)
    requires
        orderly(state, steps),
        settled(state, steps, well),
    ensures
        settled(
            state.step(event).0,
            steps.push(state.step(event).1),
            if state.phase is Assembling && event == (Event::Exited { success: true }) {
                well + 1
            } else {
                well
            },
        ),
{
    let (next, step) = state.step(event);
    lemma_calls_push(steps, step, Stage::Assemble);
    lemma_calls_push(steps, step, Stage::Link);
    lemma_step_keeps_order(state, steps, event);
}

proof fn lemma_run_settled(config: Config, events: Seq<Event>)
    ensures
        orderly(
            replay(PipelineView::initial(config), events).0,
            replay(PipelineView::initial(config), events).1,
        ),
        settled(
            replay(PipelineView::initial(config), events).0,
            replay(PipelineView::initial(config), events).1,
            assembled_well(PipelineView::initial(config), events),
        ),
    decreases events.len(),
{
    let start = PipelineView::initial(config);
    lemma_run_orderly(config, events);
    if events.len() > 0 {
        let front = events.drop_last();
        lemma_run_settled(config, front);
        let (state, steps) = replay(start, front);
        lemma_step_keeps_count(state, steps, assembled_well(start, front), events.last());
    }
}

/// Only what was assembled with success is linked.
///
/// Whatever events a pipeline is fed from its start, the linker is
/// invoked at most as often as units were assembled with success, and not
/// at all before every unit was. A unit whose assembler exits without
/// success, or cannot be started, is never linked, nor is any other. A
/// pipeline that ends well has assembled every unit with success and
/// linked every unit.
pub proof fn lemma_links_follow_success(config: Config, events: Seq<Event>)
    ensures
        ({
            let start = PipelineView::initial(config);
            let (end, steps) = replay(start, events);
            let well = assembled_well(start, events);
            let a = calls(steps, Stage::Assemble).len();
            let l = calls(steps, Stage::Link).len();
            let n = end.units.len();
            &&& l <= well <= a <= n
            &&& l > 0 ==> well == n
            &&& end.phase == PhaseView::Finished && end.result is Ok ==> well == n && l == n
        }),
{
    lemma_run_settled(config, events);
}

/// An assembler or a linker that exits without success fails its stage:
/// the pipeline stops with a stage failure and asks for nothing more.
pub proof fn lemma_abnormal_exit_stops(state: PipelineView)
    requires
        state.phase is Assembling || state.phase is Linking,
    ensures
        ({
            let (next, step) = state.step(Event::Exited { success: false });
            let stage = if state.phase is Assembling {
                Stage::Assemble
            } else {
                Stage::Link
            };
            &&& next.phase == PhaseView::Finished
            &&& next.result == Err::<(), BuildErrorView>(
                BuildErrorView::StageFailure(stage, abnormal_exit_text()),
            )
            &&& step.effect == EffectView::Stop(next.result)
            &&& step.reports.len() == 0
        }),
{
}

/// The linker is invoked only on a successful exit of the tool before
/// it: of the assembler on the last unit, or of the linker on the unit
/// before.
pub proof fn lemma_link_needs_success(state: PipelineView, event: Event)
    requires
        state.step(event).1.effect matches EffectView::Invoke(Stage::Link, _),
    ensures
        event == (Event::Exited { success: true }),
        state.phase is Assembling || state.phase is Linking,
{
}

/// How the version query and the target exit is of no account: an exit
/// without success is taken like one with success.
pub proof fn lemma_exit_code_ignored(state: PipelineView)
    requires
        state.phase == PhaseView::Preflight || state.phase == PhaseView::Running,
    ensures
        state.step(Event::Exited { success: false }) == state.step(Event::Exited { success: true }),
        !(state.step(Event::Exited { success: false }).1.effect matches EffectView::Stop(Err(_))),
{
}

/// Cleaning is idempotent: a build tree that is already absent counts as
/// removed.
pub proof fn lemma_clean_tolerates_absence(state: PipelineView, reason: String)
    requires
        state.phase == PhaseView::CleaningObjects || state.phase == PhaseView::CleaningBinaries,
    ensures
        state.step(Event::NotFound(reason)) == state.step(Event::Completed),
        !(state.step(Event::NotFound(reason)).1.effect matches EffectView::Stop(Err(_))),
{
}

/// The target is started only on the answer that it exists.
pub proof fn lemma_target_needs_presence(state: PipelineView, event: Event)
    requires
        state.step(event).1.effect matches EffectView::Invoke(Stage::Run, _),
    ensures
        state.phase == PhaseView::Locating,
        event == Event::Exists(true),
{
}

/// A target that is not there is reported and is no failure: the pipeline
/// goes on to the clean stage or ends well, and starts nothing.
pub proof fn lemma_missing_target_is_reported(state: PipelineView)
    requires
        state.phase == PhaseView::Locating,
    ensures
        ({
            let (next, step) = state.step(Event::Exists(false));
            &&& step.reports.len() >= 1
            &&& step.reports[0] == failure_view(missing_text(state.target()))
            &&& !(step.effect is Invoke)
            &&& if state.clean {
                next.phase == PhaseView::CleaningObjects
            } else {
                next.phase == PhaseView::Finished && next.result is Ok && step.effect
                    == EffectView::Stop(Ok(()))
            }
        }),
{
}

/// Without a source the pipeline reports so, ends well and asks for
/// nothing else.
pub proof fn lemma_nothing_found(state: PipelineView, base_exists: bool, entries: Vec<Candidate>)
    requires
        state.phase == PhaseView::Probing,
        discovered(base_exists, entries@).len() == 0,
    ensures
        ({
            let (next, step) = state.step(Event::Probed { base_exists, entries });
            &&& step.reports == seq![failure_view(no_assembly_text(state.base))]
            &&& step.effect == EffectView::Stop(Ok(()))
            &&& next.phase == PhaseView::Finished
            &&& next.result is Ok
        }),
{
}

/// The build trees are asked for only once sources were found.
pub proof fn lemma_trees_need_sources(state: PipelineView, event: Event)
    requires
        state.step(event).1.effect is CreateDirs,
    ensures
        state.phase == PhaseView::Probing,
        event matches Event::Probed { base_exists, entries } && discovered(base_exists, entries@).len()
            > 0,
{
}

/// The first failure ends the pipeline: whatever it was waiting for, a
/// failed effect is answered with a stop that carries an error.
pub proof fn lemma_failure_stops(state: PipelineView, reason: String)
    requires
        state.phase != PhaseView::Idle,
        state.phase != PhaseView::Finished,
    ensures
        ({
            let (next, step) = state.step(Event::Failed(reason));
            &&& next.phase == PhaseView::Finished
            &&& next.result is Err
            &&& step.effect == EffectView::Stop(next.result)
            &&& step.reports.len() == 0
            &&& state.phase == PhaseView::Preflight ==> next.result == Err::<(), BuildErrorView>(
                BuildErrorView::Execution(reason@),
            )
        }),
{
}

/// A stopped pipeline stays stopped and repeats its result.
pub proof fn lemma_stopped_stays_stopped(state: PipelineView, event: Event)
    requires
        state.phase == PhaseView::Finished,
    ensures
        state.step(event).0 == state,
        state.step(event).1.effect == EffectView::Stop(state.result),
        state.step(event).1.reports.len() == 0,
{
}

/// Each unit is named before a tool is run on it: a step that invokes
/// the assembler or the linker ends its reports with the line of the unit
/// that the invocation is for.
pub proof fn lemma_unit_named_before_tool(state: PipelineView, event: Event)
    requires
        state.wf(),
        state.step(event).1.effect matches EffectView::Invoke(stage, _) && (stage == Stage::Assemble
            || stage == Stage::Link),
    ensures
        ({
            let (next, step) = state.step(event);
            &&& step.reports.len() >= 1
            &&& next.phase matches PhaseView::Assembling(i) ==> i < next.units.len() && step.effect
                == EffectView::Invoke(Stage::Assemble, assemble_view(next.units[i as int]))
                && step.reports.last() == line_view(next.units[i as int])
            &&& next.phase matches PhaseView::Linking(i) ==> i < next.units.len() && step.effect
                == EffectView::Invoke(Stage::Link, link_view(next.units[i as int]))
                && step.reports.last() == line_view(next.units[i as int])
            &&& next.phase is Assembling || next.phase is Linking
        }),
{
}

} // verus!
