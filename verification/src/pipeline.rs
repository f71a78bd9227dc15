//! The build pipeline as a state machine.
//!
//! The pipeline never touches the outside world. It is driven by events:
//! each call of [`Pipeline::step`] takes the answer to the last thing the
//! pipeline asked for and returns the next [`Step`]: the lines to report
//! and one [`Effect`] to carry out. Whoever drives the pipeline reports
//! the lines, carries out the effect and comes back with the outcome as
//! the next [`Event`], until the effect is [`Effect::Stop`].
//!
//! The stages run strictly in order: the assembler's version query, the
//! discovery of sources, the creation of the build trees, assembling every
//! unit, linking every unit, running the target if one is configured, and
//! removing the build trees if that is configured. The first failure ends
//! the pipeline. An assembler or a linker that cannot be started, or that
//! exits without success, is such a failure; how the version query and the
//! target exit is of no account.

use vstd::prelude::*;

use crate::config::{text_of, Config};
use crate::discover::{candidate_paths, discovered, read_files, texts, Candidate};
use crate::paths::{join, joined};
use crate::report::{
    cleaning, done, found, found_text, linking, missing, missing_text, no_assembly,
    no_assembly_text, report_views, running, running_text, unit_line, unit_text, Category, Report,
    ReportView,
};
use crate::tooling::{
    assemble, assemble_view, check_tooling, execute, execute_view, link, link_view, result_view,
    version_query, version_query_view, BuildError, BuildErrorView, Invocation, InvocationView,
    Launch, Stage,
};
use crate::units::{copy_text, map_paths, mapped, unit_views, BuildUnit, BuildUnitView};

verus! {

/// What the pipeline is waiting for.
#[derive(Clone, Copy, Debug, PartialEq, Eq, Structural)]
pub enum Phase {
    /// Nothing has been asked yet.
    Idle,
    /// The outcome of the assembler's version query.
    Preflight,
    /// The probed file-system entries.
    Probing,
    /// The creation of the build trees.
    Preparing,
    /// The assembler's run on the unit with this index.
    Assembling(usize),
    /// The linker's run on the unit with this index.
    Linking(usize),
    /// Whether the target to run exists.
    Locating,
    /// The run of the target.
    Running,
    /// The removal of the object tree.
    CleaningObjects,
    /// The removal of the binary tree.
    CleaningBinaries,
    /// Nothing any more: the pipeline has stopped.
    Finished,
}

/// A phase, with the index of the unit at hand as a natural number.
pub enum PhaseView {
    Idle,
    Preflight,
    Probing,
    Preparing,
    Assembling(nat),
    Linking(nat),
    Locating,
    Running,
    CleaningObjects,
    CleaningBinaries,
    Finished,
}

impl View for Phase {
    type V = PhaseView;

    open spec fn view(&self) -> PhaseView {
        match *self {
            Phase::Idle => PhaseView::Idle,
            Phase::Preflight => PhaseView::Preflight,
            Phase::Probing => PhaseView::Probing,
            Phase::Preparing => PhaseView::Preparing,
            Phase::Assembling(i) => PhaseView::Assembling(i as nat),
            Phase::Linking(i) => PhaseView::Linking(i as nat),
            Phase::Locating => PhaseView::Locating,
            Phase::Running => PhaseView::Running,
            Phase::CleaningObjects => PhaseView::CleaningObjects,
            Phase::CleaningBinaries => PhaseView::CleaningBinaries,
            Phase::Finished => PhaseView::Finished,
        }
    }
}

/// The outcome of the effect that the pipeline asked for last.
#[derive(Clone, Debug, PartialEq, Eq)]
pub enum Event {
    /// Begin. The only event that an idle pipeline takes.
    Start,
    /// The effect was carried out: the directories were created, the
    /// directory was removed.
    Completed,
    /// The answer to [`Effect::Invoke`]: the program was started and has
    /// exited, with success or without.
    Exited { success: bool },
    /// The effect came to nothing because its object is not there: no such
    /// program, no such directory.
    NotFound(String),
    /// The effect failed, or a line could not be reported, for the given
    /// reason.
    Failed(String),
    /// The answer to [`Effect::Probe`]: whether the base directory exists,
    /// and what is at each path that was looked at.
    Probed { base_exists: bool, entries: Vec<Candidate> },
    /// The answer to [`Effect::Exists`].
    Exists(bool),
}

/// What the pipeline asks to be done.
#[derive(Debug, PartialEq, Eq)]
pub enum Effect {
    /// Start the program, for the sake of the given stage, and wait until
    /// it exits.
    Invoke(Stage, Invocation),
    /// Look at the file system: at each of the `explicit` paths where they
    /// are given, else at every entry below `base`.
    Probe { base: String, explicit: Option<Vec<String>> },
    /// Create these directories, with their missing ancestors.
    CreateDirs(Vec<String>),
    /// Tell whether anything exists at the path.
    Exists(String),
    /// Remove the directory and all that is in it.
    RemoveDir(String),
    /// Stop, with this result.
    Stop(Result<(), BuildError>),
}

/// An effect, as texts.
pub enum EffectView {
    Invoke(Stage, InvocationView),
    Probe { base: Seq<char>, explicit: Option<Seq<Seq<char>>> },
    CreateDirs(Seq<Seq<char>>),
    Exists(Seq<char>),
    RemoveDir(Seq<char>),
    Stop(Result<(), BuildErrorView>),
}

impl View for Effect {
    type V = EffectView;

    open spec fn view(&self) -> EffectView {
        match *self {
            Effect::Invoke(stage, call) => EffectView::Invoke(stage, call@),
            Effect::Probe { base, explicit } => EffectView::Probe {
                base: base@,
                explicit: match explicit {
                    Some(paths) => Some(texts(paths@)),
                    None => None,
                },
            },
            Effect::CreateDirs(dirs) => EffectView::CreateDirs(texts(dirs@)),
            Effect::Exists(path) => EffectView::Exists(path@),
            Effect::RemoveDir(dir) => EffectView::RemoveDir(dir@),
            Effect::Stop(result) => EffectView::Stop(result_view(result)),
        }
    }
}

/// One move of the pipeline: the lines to report, in order, and then the
/// effect to carry out.
#[derive(Debug, PartialEq, Eq)]
pub struct Step {
    pub reports: Vec<Report>,
    pub effect: Effect,
}

/// A step, as texts.
pub struct StepView {
    pub reports: Seq<ReportView>,
    pub effect: EffectView,
}

impl View for Step {
    type V = StepView;

    open spec fn view(&self) -> StepView {
        StepView { reports: report_views(self.reports@), effect: self.effect@ }
    }
}

/// The state of a pipeline.
pub struct PipelineView {
    /// The base directory.
    pub base: Seq<char>,
    /// The target to run, relative to the binary root.
    pub run: Option<Seq<char>>,
    /// Whether the build trees are removed at the end.
    pub clean: bool,
    /// The explicit list of sources, relative to the base directory.
    pub explicit: Option<Seq<Seq<char>>>,
    /// How many sources were discovered.
    pub listed: nat,
    /// The build units.
    pub units: Seq<BuildUnitView>,
    /// What the pipeline is waiting for.
    pub phase: PhaseView,
    /// The result, once the pipeline has stopped.
    pub result: Result<(), BuildErrorView>,
}

/// The root of the object tree.
pub open spec fn object_root() -> Seq<char> {
    "build/obj"@
}

/// The root of the binary tree.
pub open spec fn binary_root() -> Seq<char> {
    "build/bin"@
}

/// Each of `files` joined onto `base`.
pub open spec fn joined_all(base: Seq<char>, files: Seq<Seq<char>>) -> Seq<Seq<char>> {
    files.map_values(|f: Seq<char>| joined(base, f))
}

/// The reason given when the assembler or the linker exits without
/// success.
pub open spec fn abnormal_exit_text() -> Seq<char> {
    "exited abnormally"@
}

/// The banner that ends a stage well.
pub open spec fn done_view() -> ReportView {
    ReportView { category: Some(Category::Success), text: "\nDone"@ }
}

/// A banner that opens a stage.
pub open spec fn progress_view(text: Seq<char>) -> ReportView {
    ReportView { category: Some(Category::Progress), text }
}

/// A banner that tells of something missing.
pub open spec fn failure_view(text: Seq<char>) -> ReportView {
    ReportView { category: Some(Category::Failure), text }
}

/// The plain line that names a unit.
pub open spec fn line_view(unit: BuildUnitView) -> ReportView {
    ReportView { category: None, text: unit_text(unit.relative) }
}

impl PipelineView {
    /// The state of a pipeline that has not begun.
    pub open spec fn initial(config: Config) -> PipelineView {
        PipelineView {
            base: config.effective_base(),
            run: text_of(config.run),
            clean: config.clean,
            explicit: match config.files {
                Some(files) => Some(texts(files@)),
                None => None,
            },
            listed: 0,
            units: Seq::empty(),
            phase: PhaseView::Idle,
            result: Ok(()),
        }
    }

    /// The state is one that a pipeline can be in: the unit that is being
    /// assembled or linked is one of the units, and a pipeline that asks for
    /// its target has one.
    pub open spec fn wf(self) -> bool {
        &&& self.phase matches PhaseView::Assembling(i) ==> i < self.units.len()
        &&& self.phase matches PhaseView::Linking(i) ==> i < self.units.len()
        &&& self.phase is Locating ==> self.run is Some
    }

    /// The same state in another phase.
    pub open spec fn at(self, phase: PhaseView) -> PipelineView {
        PipelineView { phase, ..self }
    }

    /// The path of the target to run.
    pub open spec fn target(self) -> Seq<char> {
        joined(binary_root(), self.run->0)
    }

    /// Stops with `result`, after `reports`.
    pub open spec fn stop(
        self,
        reports: Seq<ReportView>,
        result: Result<(), BuildErrorView>,
    ) -> (PipelineView, StepView) {
        (
            PipelineView { phase: PhaseView::Finished, result, ..self },
            StepView { reports, effect: EffectView::Stop(result) },
        )
    }

    /// Stops because a step of `stage` failed.
    pub open spec fn fail(self, stage: Stage, reason: Seq<char>) -> (PipelineView, StepView) {
        self.stop(Seq::empty(), Err(BuildErrorView::StageFailure(stage, reason)))
    }

    /// Stops because the event answers nothing that was asked.
    pub open spec fn out_of_turn(self) -> (PipelineView, StepView) {
        self.stop(Seq::empty(), Err(BuildErrorView::OutOfTurn))
    }

    /// Ends well. Where a target was to be run or the trees were to be
    /// removed, a closing banner says so.
    pub open spec fn finish(self, reports: Seq<ReportView>) -> (PipelineView, StepView) {
        if self.clean || self.run is Some {
            self.stop(reports.push(done_view()), Ok(()))
        } else {
            self.stop(reports, Ok(()))
        }
    }

    /// Enters the clean stage: removes the object tree first if cleaning
    /// is configured, else ends.
    pub open spec fn enter_clean(self, reports: Seq<ReportView>) -> (PipelineView, StepView) {
        if self.clean {
            (
                self.at(PhaseView::CleaningObjects),
                StepView {
                    reports: reports.push(progress_view("\ncleaning files..."@)),
                    effect: EffectView::RemoveDir(object_root()),
                },
            )
        } else {
            self.finish(reports)
        }
    }

    /// Enters the run stage: asks whether the target exists if one is
    /// configured, else goes on to the clean stage.
    pub open spec fn enter_run(self, reports: Seq<ReportView>) -> (PipelineView, StepView) {
        if self.run is Some {
            (self.at(PhaseView::Locating), StepView { reports, effect: EffectView::Exists(self.target()) })
        } else {
            self.enter_clean(reports)
        }
    }

    /// Links the unit with index `i`, or, when every unit is linked,
    /// closes the stage and enters the run stage.
    pub open spec fn enter_link(self, i: nat, reports: Seq<ReportView>) -> (
        PipelineView,
        StepView,
    ) {
        if i < self.units.len() {
            (
                self.at(PhaseView::Linking(i)),
                StepView {
                    reports: reports.push(line_view(self.units[i as int])),
                    effect: EffectView::Invoke(Stage::Link, link_view(self.units[i as int])),
                },
            )
        } else {
            self.enter_run(reports.push(done_view()))
        }
    }

    /// Assembles the unit with index `i`, or, when every unit is
    /// assembled, opens the link stage.
    pub open spec fn enter_assemble(self, i: nat, reports: Seq<ReportView>) -> (
        PipelineView,
        StepView,
    ) {
        if i < self.units.len() {
            (
                self.at(PhaseView::Assembling(i)),
                StepView {
                    reports: reports.push(line_view(self.units[i as int])),
                    effect: EffectView::Invoke(Stage::Assemble, assemble_view(self.units[i as int])),
                },
            )
        } else {
            self.enter_link(0, reports.push(progress_view("\nLinking"@)))
        }
    }

    /// Takes in what was probed. Without a source the pipeline says so and
    /// ends well, having created nothing; else it maps the sources to
    /// their units and asks for the build trees.
    pub open spec fn enter_setup(self, base_exists: bool, entries: Seq<Candidate>) -> (
        PipelineView,
        StepView,
    ) {
        let files = discovered(base_exists, entries);
        if files.len() == 0 {
            self.stop(seq![failure_view(no_assembly_text(self.base))], Ok(()))
        } else {
            (
                PipelineView {
                    listed: files.len(),
                    units: mapped(files, self.base, object_root(), binary_root()),
                    phase: PhaseView::Preparing,
                    ..self
                },
                StepView {
                    reports: Seq::empty(),
                    effect: EffectView::CreateDirs(seq![self.base, object_root(), binary_root()]),
                },
            )
        }
    }

    /// The probe that discovery asks for.
    pub open spec fn probe(self) -> EffectView {
        EffectView::Probe {
            base: self.base,
            explicit: match self.explicit {
                Some(files) => Some(joined_all(self.base, files)),
                None => None,
            },
        }
    }

    /// The transition function: the state after `event`, and the step that
    /// the pipeline answers with.
    pub open spec fn step(self, event: Event) -> (PipelineView, StepView) {
        match self.phase {
            PhaseView::Idle => match event {
                Event::Start => (
                    self.at(PhaseView::Preflight),
                    StepView {
                        reports: Seq::empty(),
                        effect: EffectView::Invoke(Stage::Preflight, version_query_view()),
                    },
                ),
                _ => self.out_of_turn(),
            },
            PhaseView::Preflight => match event {
                Event::Exited { .. } => (
                    self.at(PhaseView::Probing),
                    StepView { reports: Seq::empty(), effect: self.probe() },
                ),
                Event::NotFound(_) => self.stop(Seq::empty(), Err(BuildErrorView::ToolingNotFound)),
                Event::Failed(reason) => self.stop(
                    Seq::empty(),
                    Err(BuildErrorView::Execution(reason@)),
                ),
                _ => self.out_of_turn(),
            },
            PhaseView::Probing => match event {
                Event::Probed { base_exists, entries } => self.enter_setup(base_exists, entries@),
                Event::NotFound(reason) => self.fail(Stage::Discover, reason@),
                Event::Failed(reason) => self.fail(Stage::Discover, reason@),
                _ => self.out_of_turn(),
            },
            PhaseView::Preparing => match event {
                Event::Completed => self.enter_assemble(
                    0,
                    seq![progress_view(found_text(self.listed, self.units.len()))],
                ),
                Event::NotFound(reason) => self.fail(Stage::Setup, reason@),
                Event::Failed(reason) => self.fail(Stage::Setup, reason@),
                _ => self.out_of_turn(),
            },
            PhaseView::Assembling(i) => match event {
                Event::Exited { success } => if success {
                    self.enter_assemble(i + 1, Seq::empty())
                } else {
                    self.fail(Stage::Assemble, abnormal_exit_text())
                },
                Event::NotFound(reason) => self.fail(Stage::Assemble, reason@),
                Event::Failed(reason) => self.fail(Stage::Assemble, reason@),
                _ => self.out_of_turn(),
            },
            PhaseView::Linking(i) => match event {
                Event::Exited { success } => if success {
                    self.enter_link(i + 1, Seq::empty())
                } else {
                    self.fail(Stage::Link, abnormal_exit_text())
                },
                Event::NotFound(reason) => self.fail(Stage::Link, reason@),
                Event::Failed(reason) => self.fail(Stage::Link, reason@),
                _ => self.out_of_turn(),
            },
            PhaseView::Locating => match event {
                Event::Exists(true) => (
                    self.at(PhaseView::Running),
                    StepView {
                        reports: seq![progress_view(running_text(self.target()))],
                        effect: EffectView::Invoke(Stage::Run, execute_view(self.target())),
                    },
                ),
                Event::Exists(false) => self.enter_clean(
                    seq![failure_view(missing_text(self.target()))],
                ),
                Event::NotFound(reason) => self.fail(Stage::Run, reason@),
                Event::Failed(reason) => self.fail(Stage::Run, reason@),
                _ => self.out_of_turn(),
            },
            PhaseView::Running => match event {
                Event::Exited { .. } => self.enter_clean(Seq::empty()),
                Event::NotFound(reason) => self.fail(Stage::Run, reason@),
                Event::Failed(reason) => self.fail(Stage::Run, reason@),
                _ => self.out_of_turn(),
            },
            PhaseView::CleaningObjects => match event {
                Event::Completed | Event::NotFound(_) => (
                    self.at(PhaseView::CleaningBinaries),
                    StepView {
                        reports: Seq::empty(),
                        effect: EffectView::RemoveDir(binary_root()),
                    },
                ),
                Event::Failed(reason) => self.fail(Stage::Clean, reason@),
                _ => self.out_of_turn(),
            },
            PhaseView::CleaningBinaries => match event {
                Event::Completed | Event::NotFound(_) => self.finish(Seq::empty()),
                Event::Failed(reason) => self.fail(Stage::Clean, reason@),
                _ => self.out_of_turn(),
            },
            PhaseView::Finished => (
                self,
                StepView { reports: Seq::empty(), effect: EffectView::Stop(self.result) },
            ),
        }
    }
}

/// The root of the object tree, `build/obj`.
pub fn object_dir() -> (dir: &'static str)
    ensures
        dir@ == object_root(),
{
    "build/obj"
}

/// The root of the binary tree, `build/bin`.
pub fn binary_dir() -> (dir: &'static str)
    ensures
        dir@ == binary_root(),
{
    "build/bin"
}

/// The build pipeline of one invocation.
#[derive(Debug)]
pub struct Pipeline {
    base: String,
    run: Option<String>,
    clean: bool,
    explicit: Option<Vec<String>>,
    listed: usize,
    units: Vec<BuildUnit>,
    phase: Phase,
    result: Result<(), BuildError>,
}

impl View for Pipeline {
    type V = PipelineView;

    closed spec fn view(&self) -> PipelineView {
        PipelineView {
            base: self.base@,
            run: text_of(self.run),
            clean: self.clean,
            explicit: match self.explicit {
                Some(files) => Some(texts(files@)),
                None => None,
            },
            listed: self.listed as nat,
            units: unit_views(self.units@),
            phase: self.phase@,
            result: result_view(self.result),
        }
    }
}

/// A list of reports that holds nothing yet.
fn no_reports() -> (reports: Vec<Report>)
    ensures
        report_views(reports@) == Seq::<ReportView>::empty(),
{
    let reports: Vec<Report> = Vec::new();
    assert(report_views(reports@) =~= Seq::<ReportView>::empty());
    reports
}

/// Adds a report at the end of the list.
fn add_report(reports: Vec<Report>, report: Report) -> (longer: Vec<Report>)
    ensures
        report_views(longer@) == report_views(reports@).push(report@),
{
    let mut longer = reports;
    longer.push(report);
    assert(report_views(longer@) =~= report_views(reports@).push(report@));
    longer
}

impl Pipeline {
    /// A pipeline for the given configuration, ready to start.
    pub fn new(config: Config) -> (pipeline: Pipeline)
        ensures
            pipeline@ == PipelineView::initial(config),
            pipeline@.wf(),
    {
        let base = config.base_dir();
        let pipeline = Pipeline {
            base,
            run: config.run,
            clean: config.clean,
            explicit: config.files,
            listed: 0,
            units: Vec::new(),
            phase: Phase::Idle,
            result: Ok(()),
        };
        assert(pipeline@.units =~= Seq::<BuildUnitView>::empty());
        pipeline
    }

    /// What the pipeline is waiting for.
    pub fn phase(&self) -> (phase: Phase)
        ensures
            phase@ == self@.phase,
    {
        self.phase
    }

    /// Whether the pipeline has stopped.
    pub fn finished(&self) -> (stopped: bool)
        ensures
            stopped == (self@.phase == PhaseView::Finished),
    {
        match self.phase {
            Phase::Finished => true,
            _ => false,
        }
    }

    /// How many sources were discovered.
    pub fn listed(&self) -> (n: usize)
        ensures
            n == self@.listed,
    {
        self.listed
    }

    /// How many build units there are.
    pub fn unit_count(&self) -> (n: usize)
        ensures
            n == self@.units.len(),
    {
        self.units.len()
    }

    fn stop(&mut self, reports: Vec<Report>, result: Result<(), BuildError>) -> (step: Step)
        requires
            old(self)@.wf(),
        ensures
            (final(self)@, step@) == old(self)@.stop(report_views(reports@), result_view(result)),
            final(self)@.wf(),
    {
        let copy = match &result {
            Ok(()) => Ok(()),
            Err(e) => Err(e.duplicate()),
        };
        self.phase = Phase::Finished;
        self.result = result;
        Step { reports, effect: Effect::Stop(copy) }
    }

    fn fail(&mut self, stage: Stage, reason: String) -> (step: Step)
        requires
            old(self)@.wf(),
        ensures
            (final(self)@, step@) == old(self)@.fail(stage, reason@),
            final(self)@.wf(),
    {
        self.stop(no_reports(), Err(BuildError::StageFailure(stage, reason)))
    }

    fn out_of_turn(&mut self) -> (step: Step)
        requires
            old(self)@.wf(),
        ensures
            (final(self)@, step@) == old(self)@.out_of_turn(),
            final(self)@.wf(),
    {
        self.stop(no_reports(), Err(BuildError::OutOfTurn))
    }

    fn finish(&mut self, reports: Vec<Report>) -> (step: Step)
        requires
            old(self)@.wf(),
        ensures
            (final(self)@, step@) == old(self)@.finish(report_views(reports@)),
            final(self)@.wf(),
    {
        if self.clean || self.run.is_some() {
            self.stop(add_report(reports, done()), Ok(()))
        } else {
            self.stop(reports, Ok(()))
        }
    }

    fn enter_clean(&mut self, reports: Vec<Report>) -> (step: Step)
        requires
            old(self)@.wf(),
        ensures
            (final(self)@, step@) == old(self)@.enter_clean(report_views(reports@)),
            final(self)@.wf(),
    {
        if self.clean {
            self.phase = Phase::CleaningObjects;
            Step {
                reports: add_report(reports, cleaning()),
                effect: Effect::RemoveDir(copy_text(object_dir())),
            }
        } else {
            self.finish(reports)
        }
    }

    /// The path of the target to run.
    fn target(&self) -> (path: String)
        requires
            self@.run is Some,
        ensures
            path@ == self@.target(),
    {
        match &self.run {
            Some(name) => join(binary_dir(), name.as_str()),
            None => String::new(),
        }
    }

    fn enter_run(&mut self, reports: Vec<Report>) -> (step: Step)
        requires
            old(self)@.wf(),
        ensures
            (final(self)@, step@) == old(self)@.enter_run(report_views(reports@)),
            final(self)@.wf(),
    {
        if self.run.is_some() {
            let path = self.target();
            self.phase = Phase::Locating;
            Step { reports, effect: Effect::Exists(path) }
        } else {
            self.enter_clean(reports)
        }
    }

    fn enter_link(&mut self, i: usize, reports: Vec<Report>) -> (step: Step)
        requires
            old(self)@.wf(),
        ensures
            (final(self)@, step@) == old(self)@.enter_link(i as nat, report_views(reports@)),
            final(self)@.wf(),
    {
        if i < self.units.len() {
            let line = unit_line(self.units[i].relative.as_str());
            let call = link(&self.units[i]);
            self.phase = Phase::Linking(i);
            Step { reports: add_report(reports, line), effect: Effect::Invoke(Stage::Link, call) }
        } else {
            self.enter_run(add_report(reports, done()))
        }
    }

    fn enter_assemble(&mut self, i: usize, reports: Vec<Report>) -> (step: Step)
        requires
            old(self)@.wf(),
        ensures
            (final(self)@, step@) == old(self)@.enter_assemble(i as nat, report_views(reports@)),
            final(self)@.wf(),
    {
        if i < self.units.len() {
            let line = unit_line(self.units[i].relative.as_str());
            let call = assemble(&self.units[i]);
            self.phase = Phase::Assembling(i);
            Step {
                reports: add_report(reports, line),
                effect: Effect::Invoke(Stage::Assemble, call),
            }
        } else {
            self.enter_link(0, add_report(reports, linking()))
        }
    }

    fn enter_setup(&mut self, base_exists: bool, entries: Vec<Candidate>) -> (step: Step)
        requires
            old(self)@.wf(),
        ensures
            (final(self)@, step@) == old(self)@.enter_setup(base_exists, entries@),
            final(self)@.wf(),
    {
        let files = read_files(base_exists, &entries);
        assert(texts(files@).len() == files.len());
        if files.len() == 0 {
            let report = no_assembly(self.base.as_str());
            self.stop(add_report(no_reports(), report), Ok(()))
        } else {
            let units = map_paths(&files, self.base.as_str(), object_dir(), binary_dir());
            let mut dirs: Vec<String> = Vec::new();
            dirs.push(copy_text(self.base.as_str()));
            dirs.push(copy_text(object_dir()));
            dirs.push(copy_text(binary_dir()));
            assert(texts(dirs@) =~= seq![self.base@, object_root(), binary_root()]);
            self.listed = files.len();
            self.units = units;
            self.phase = Phase::Preparing;
            Step { reports: no_reports(), effect: Effect::CreateDirs(dirs) }
        }
    }

    fn ask_probe(&mut self) -> (step: Step)
        requires
            old(self)@.wf(),
        ensures
            final(self)@ == old(self)@.at(PhaseView::Probing),
            step@ == (StepView { reports: Seq::empty(), effect: old(self)@.probe() }),
            final(self)@.wf(),
    {
        let explicit = match &self.explicit {
            Some(files) => {
                let paths = candidate_paths(files, self.base.as_str());
                assert(texts(paths@) =~= joined_all(self.base@, texts(files@)));
                Some(paths)
            },
            None => None,
        };
        let base = copy_text(self.base.as_str());
        self.phase = Phase::Probing;
        Step { reports: no_reports(), effect: Effect::Probe { base, explicit } }
    }

    /// Takes the outcome of the last effect and answers with the next
    /// step. An event that answers nothing that was asked stops the
    /// pipeline with [`BuildError::OutOfTurn`]; a stopped pipeline stays
    /// stopped and repeats its result.
    pub fn step(&mut self, event: Event) -> (step: Step)
        requires
            old(self)@.wf(),
        ensures
            (final(self)@, step@) == old(self)@.step(event),
            final(self)@.wf(),
    {
        let phase = self.phase;
        match phase {
            Phase::Idle => match event {
                Event::Start => {
                    self.phase = Phase::Preflight;
                    Step { reports: no_reports(), effect: Effect::Invoke(Stage::Preflight, version_query()) }
                },
                _ => self.out_of_turn(),
            },
            Phase::Preflight => {
                let launch = match event {
                    Event::Exited { .. } => Launch::Completed,
                    Event::NotFound(_) => Launch::NotFound,
                    Event::Failed(reason) => Launch::Failed(reason),
                    _ => {
                        return self.out_of_turn();
                    },
                };
                match check_tooling(launch) {
                    Ok(()) => self.ask_probe(),
                    Err(e) => self.stop(no_reports(), Err(e)),
                }
            },
            Phase::Probing => match event {
                Event::Probed { base_exists, entries } => self.enter_setup(base_exists, entries),
                Event::NotFound(reason) => self.fail(Stage::Discover, reason),
                Event::Failed(reason) => self.fail(Stage::Discover, reason),
                _ => self.out_of_turn(),
            },
            Phase::Preparing => match event {
                Event::Completed => {
                    let banner = found(self.listed, self.units.len());
                    self.enter_assemble(0, add_report(no_reports(), banner))
                },
                Event::NotFound(reason) => self.fail(Stage::Setup, reason),
                Event::Failed(reason) => self.fail(Stage::Setup, reason),
                _ => self.out_of_turn(),
            },
            Phase::Assembling(i) => match event {
                Event::Exited { success } => {
                    if success {
                        assert(i < self.units.len());
                        self.enter_assemble(i + 1, no_reports())
                    } else {
                        self.fail(Stage::Assemble, copy_text("exited abnormally"))
                    }
                },
                Event::NotFound(reason) => self.fail(Stage::Assemble, reason),
                Event::Failed(reason) => self.fail(Stage::Assemble, reason),
                _ => self.out_of_turn(),
            },
            Phase::Linking(i) => match event {
                Event::Exited { success } => {
                    if success {
                        assert(i < self.units.len());
                        self.enter_link(i + 1, no_reports())
                    } else {
                        self.fail(Stage::Link, copy_text("exited abnormally"))
                    }
                },
                Event::NotFound(reason) => self.fail(Stage::Link, reason),
                Event::Failed(reason) => self.fail(Stage::Link, reason),
                _ => self.out_of_turn(),
            },
            Phase::Locating => match event {
                Event::Exists(there) => {
                    let path = self.target();
                    if there {
                        let banner = running(path.as_str());
                        let call = execute(path.as_str());
                        self.phase = Phase::Running;
                        Step {
                            reports: add_report(no_reports(), banner),
                            effect: Effect::Invoke(Stage::Run, call),
                        }
                    } else {
                        let banner = missing(path.as_str());
                        self.enter_clean(add_report(no_reports(), banner))
                    }
                },
                Event::NotFound(reason) => self.fail(Stage::Run, reason),
                Event::Failed(reason) => self.fail(Stage::Run, reason),
                _ => self.out_of_turn(),
            },
            Phase::Running => match event {
                Event::Exited { .. } => self.enter_clean(no_reports()),
                Event::NotFound(reason) => self.fail(Stage::Run, reason),
                Event::Failed(reason) => self.fail(Stage::Run, reason),
                _ => self.out_of_turn(),
            },
            Phase::CleaningObjects => match event {
                Event::Completed | Event::NotFound(_) => {
                    self.phase = Phase::CleaningBinaries;
                    Step {
                        reports: no_reports(),
                        effect: Effect::RemoveDir(copy_text(binary_dir())),
                    }
                },
                Event::Failed(reason) => self.fail(Stage::Clean, reason),
                _ => self.out_of_turn(),
            },
            Phase::CleaningBinaries => match event {
                Event::Completed | Event::NotFound(_) => self.finish(no_reports()),
                Event::Failed(reason) => self.fail(Stage::Clean, reason),
                _ => self.out_of_turn(),
            },
            Phase::Finished => {
                let copy = match &self.result {
                    Ok(()) => Ok(()),
                    Err(e) => Err(e.duplicate()),
                };
                Step { reports: no_reports(), effect: Effect::Stop(copy) }
            },
        }
    }
}

} // verus!
