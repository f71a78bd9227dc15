//! The external tools: how each is invoked, and what it means when the
//! assembler cannot be started.

use vstd::prelude::*;

use crate::units::{copy_text, BuildUnit, BuildUnitView};

verus! {

/// A program to start, with its arguments in order.
#[derive(Clone, Debug, PartialEq, Eq)]
pub struct Invocation {
    pub program: String,
    pub args: Vec<String>,
}

/// An invocation, as texts.
pub struct InvocationView {
    pub program: Seq<char>,
    pub args: Seq<Seq<char>>,
}

impl View for Invocation {
    type V = InvocationView;

    open spec fn view(&self) -> InvocationView {
        InvocationView { program: self.program@, args: self.args@.map_values(|a: String| a@) }
    }
}

/// `nasm --version`: asks the assembler for its version.
pub open spec fn version_query_view() -> InvocationView {
    InvocationView { program: "nasm"@, args: seq!["--version"@] }
}

/// `nasm -f elf64 <source> -o <object>`: assembles one unit.
pub open spec fn assemble_view(unit: BuildUnitView) -> InvocationView {
    InvocationView {
        program: "nasm"@,
        args: seq!["-f"@, "elf64"@, unit.source, "-o"@, unit.object],
    }
}

/// `ld <object> -o <binary>`: links one unit.
pub open spec fn link_view(unit: BuildUnitView) -> InvocationView {
    InvocationView { program: "ld"@, args: seq![unit.object, "-o"@, unit.binary] }
}

/// The built binary itself, without arguments.
pub open spec fn execute_view(target: Seq<char>) -> InvocationView {
    InvocationView { program: target, args: Seq::empty() }
}

/// The invocation that asks the assembler for its version.
pub fn version_query() -> (call: Invocation)
    ensures
        call@ == version_query_view(),
{
    let mut args: Vec<String> = Vec::new();
    args.push(copy_text("--version"));
    let call = Invocation { program: copy_text("nasm"), args };
    assert(call@.args =~= version_query_view().args);
    call
}

/// The invocation that assembles `unit`.
pub fn assemble(unit: &BuildUnit) -> (call: Invocation)
    ensures
        call@ == assemble_view(unit@),
{
    let mut args: Vec<String> = Vec::new();
    args.push(copy_text("-f"));
    args.push(copy_text("elf64"));
    args.push(copy_text(unit.source.as_str()));
    args.push(copy_text("-o"));
    args.push(copy_text(unit.object.as_str()));
    let call = Invocation { program: copy_text("nasm"), args };
    assert(call@.args =~= assemble_view(unit@).args);
    call
}

/// The invocation that links `unit`.
pub fn link(unit: &BuildUnit) -> (call: Invocation)
    ensures
        call@ == link_view(unit@),
{
    let mut args: Vec<String> = Vec::new();
    args.push(copy_text(unit.object.as_str()));
    args.push(copy_text("-o"));
    args.push(copy_text(unit.binary.as_str()));
    let call = Invocation { program: copy_text("ld"), args };
    assert(call@.args =~= link_view(unit@).args);
    call
}

/// The invocation that runs the binary at `target`.
pub fn execute(target: &str) -> (call: Invocation)
    ensures
        call@ == execute_view(target@),
{
    let call = Invocation { program: copy_text(target), args: Vec::new() };
    assert(call@.args =~= execute_view(target@).args);
    call
}

/// A stage of the pipeline.
#[derive(Clone, Copy, Debug, PartialEq, Eq, Structural)]
pub enum Stage {
    /// Asking the assembler for its version.
    Preflight,
    /// Looking for sources.
    Discover,
    /// Creating the build trees.
    Setup,
    /// Assembling the units.
    Assemble,
    /// Linking the units.
    Link,
    /// Running the target.
    Run,
    /// Removing the build trees.
    Clean,
}

/// Why an invocation ended without success.
#[derive(Clone, Debug, PartialEq, Eq)]
pub enum BuildError {
    /// The assembler is not on the search path.
    ToolingNotFound,
    /// The assembler could not be asked for its version, for the given
    /// reason.
    Execution(String),
    /// A step of the given stage failed, for the given reason.
    StageFailure(Stage, String),
    /// The pipeline was handed an answer to a question it had not asked.
    OutOfTurn,
}

/// A build error, with its reason as a sequence of characters.
pub enum BuildErrorView {
    ToolingNotFound,
    Execution(Seq<char>),
    StageFailure(Stage, Seq<char>),
    OutOfTurn,
}

impl View for BuildError {
    type V = BuildErrorView;

    open spec fn view(&self) -> BuildErrorView {
        match *self {
            BuildError::ToolingNotFound => BuildErrorView::ToolingNotFound,
            BuildError::Execution(reason) => BuildErrorView::Execution(reason@),
            BuildError::StageFailure(stage, reason) => BuildErrorView::StageFailure(stage, reason@),
            BuildError::OutOfTurn => BuildErrorView::OutOfTurn,
        }
    }
}

/// The message of a build error.
pub open spec fn message_text(error: BuildErrorView) -> Seq<char> {
    match error {
        BuildErrorView::ToolingNotFound => "nasm not found"@,
        BuildErrorView::Execution(reason) => reason,
        BuildErrorView::StageFailure(_, reason) => reason,
        BuildErrorView::OutOfTurn => "unexpected event"@,
    }
}

impl BuildError {
    /// The message to show for this error.
    pub fn message(&self) -> (text: String)
        ensures
            text@ == message_text(self@),
    {
        match self {
            BuildError::ToolingNotFound => copy_text("nasm not found"),
            BuildError::Execution(reason) => copy_text(reason.as_str()),
            BuildError::StageFailure(_, reason) => copy_text(reason.as_str()),
            BuildError::OutOfTurn => copy_text("unexpected event"),
        }
    }

    /// A copy of this error.
    pub fn duplicate(&self) -> (copy: BuildError)
        ensures
            copy@ == self@,
    {
        match self {
            BuildError::ToolingNotFound => BuildError::ToolingNotFound,
            BuildError::Execution(reason) => BuildError::Execution(copy_text(reason.as_str())),
            BuildError::StageFailure(stage, reason) => BuildError::StageFailure(
                *stage,
                copy_text(reason.as_str()),
            ),
            BuildError::OutOfTurn => BuildError::OutOfTurn,
        }
    }
}

/// How an attempt to run a program ended.
#[derive(Clone, Debug, PartialEq, Eq)]
pub enum Launch {
    /// The program was started and has exited, with whatever exit code.
    Completed,
    /// No such program was found.
    NotFound,
    /// The program could not be started, or could not be waited for, for
    /// the given reason.
    Failed(String),
}

/// What the version query says about the tooling.
pub open spec fn tooling_state(outcome: Launch) -> Result<(), BuildErrorView> {
    match outcome {
        Launch::Completed => Ok(()),
        Launch::NotFound => Err(BuildErrorView::ToolingNotFound),
        Launch::Failed(reason) => Err(BuildErrorView::Execution(reason@)),
    }
}

/// The view of a result.
pub open spec fn result_view(result: Result<(), BuildError>) -> Result<(), BuildErrorView> {
    match result {
        Ok(()) => Ok(()),
        Err(e) => Err(e@),
    }
}

/// Judges the tooling by the outcome of the assembler's version query:
/// fine if the assembler ran, whatever it exited with; `ToolingNotFound`
/// if there is no assembler; an execution failure with the reason given
/// otherwise.
pub fn check_tooling(outcome: Launch) -> (state: Result<(), BuildError>)
    ensures
        result_view(state) == tooling_state(outcome),
{
    match outcome {
        Launch::Completed => Ok(()),
        Launch::NotFound => Err(BuildError::ToolingNotFound),
        Launch::Failed(reason) => Err(BuildError::Execution(reason)),
    }
}

} // verus!
