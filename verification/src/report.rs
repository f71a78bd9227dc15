//! Console reporting: what is said, in which colour, and what of it
//! reaches the output when the invocation is quiet.
//!
//! Nothing here writes. A [`ColorWriter`] turns each request into the
//! operations to carry out on the output stream, in order; the caller
//! carries them out. A quiet reporter asks for none: neither text nor
//! colour reaches the stream.

use vstd::prelude::*;
use vstd::string::StringExecFns;

use crate::config::ColorMode;
use crate::text::{decimal, decimal_text};
use crate::units::copy_text;

verus! {

/// A foreground or background colour of the terminal.
#[derive(Clone, Copy, Debug, PartialEq, Eq, Structural)]
pub enum Color {
    Black,
    Blue,
    Green,
    Red,
    Cyan,
    Magenta,
    Yellow,
    White,
}

/// What kind of news a banner brings; it decides the banner's colour.
#[derive(Clone, Copy, Debug, PartialEq, Eq, Structural)]
pub enum Category {
    /// A stage begins.
    Progress,
    /// A stage ended well.
    Success,
    /// Something is missing or went wrong.
    Failure,
}

/// The colour of a category: blue for progress, green for success, red
/// for failure.
pub open spec fn category_color(category: Category) -> Color {
    match category {
        Category::Progress => Color::Blue,
        Category::Success => Color::Green,
        Category::Failure => Color::Red,
    }
}

/// The colour in which banners of a category are written.
pub fn color_of(category: Category) -> (color: Color)
    ensures
        color == category_color(category),
{
    match category {
        Category::Progress => Color::Blue,
        Category::Success => Color::Green,
        Category::Failure => Color::Red,
    }
}

/// One line of output: a banner in the colour of its category, or a plain
/// line.
#[derive(Clone, Debug, PartialEq, Eq)]
pub struct Report {
    /// The category of a banner; `None` for a plain line.
    pub category: Option<Category>,
    /// The text, without the line break that ends it.
    pub text: String,
}

/// A report, with its text as a sequence of characters.
pub struct ReportView {
    pub category: Option<Category>,
    pub text: Seq<char>,
}

impl View for Report {
    type V = ReportView;

    open spec fn view(&self) -> ReportView {
        ReportView { category: self.category, text: self.text@ }
    }
}

/// The views of a sequence of reports.
pub open spec fn report_views(reports: Seq<Report>) -> Seq<ReportView> {
    reports.map_values(|r: Report| r@)
}

/// One operation on the output stream.
#[derive(Clone, Debug, PartialEq, Eq)]
pub enum SinkOp {
    /// Set the foreground colour, or clear it.
    SetForeground(Option<Color>),
    /// Set the background colour, or clear it.
    SetBackground(Option<Color>),
    /// Put the stream back to its plain state.
    Reset,
    /// Write the text and a line break.
    WriteLine(String),
    /// Flush what was written.
    Flush,
}

/// A sink operation, with its text as a sequence of characters.
pub enum SinkOpView {
    SetForeground(Option<Color>),
    SetBackground(Option<Color>),
    Reset,
    WriteLine(Seq<char>),
    Flush,
}

impl View for SinkOp {
    type V = SinkOpView;

    open spec fn view(&self) -> SinkOpView {
        match *self {
            SinkOp::SetForeground(c) => SinkOpView::SetForeground(c),
            SinkOp::SetBackground(c) => SinkOpView::SetBackground(c),
            SinkOp::Reset => SinkOpView::Reset,
            SinkOp::WriteLine(t) => SinkOpView::WriteLine(t@),
            SinkOp::Flush => SinkOpView::Flush,
        }
    }
}

/// The views of a sequence of sink operations.
pub open spec fn op_views(ops: Seq<SinkOp>) -> Seq<SinkOpView> {
    ops.map_values(|op: SinkOp| op@)
}

/// The colour mode to work with, given the mode asked for and whether the
/// output is attached to a terminal: `Auto` away from a terminal comes
/// down to `Never`; everything else stands as asked.
pub open spec fn resolved_mode(asked: ColorMode, terminal: bool) -> ColorMode {
    if asked == ColorMode::Auto && !terminal {
        ColorMode::Never
    } else {
        asked
    }
}

/// What an operation comes to: itself, and nothing at all when quiet. A
/// quiet reporter hands nothing on to the stream, colour no more than text.
pub open spec fn passed(quiet: bool, op: SinkOpView) -> Seq<SinkOpView> {
    if quiet {
        Seq::empty()
    } else {
        seq![op]
    }
}

/// What writing a line comes to: the line itself, and nothing when quiet.
pub open spec fn line_ops(quiet: bool, text: Seq<char>) -> Seq<SinkOpView> {
    passed(quiet, SinkOpView::WriteLine(text))
}

/// What resetting the colour comes to: the reset, and a flush right after
/// it; nothing when quiet.
pub open spec fn reset_ops(quiet: bool) -> Seq<SinkOpView> {
    if quiet {
        Seq::empty()
    } else {
        seq![SinkOpView::Reset, SinkOpView::Flush]
    }
}

/// What a report comes to. A banner sets its colour, writes its line and
/// resets; a plain line is only written. When quiet a report comes to
/// nothing, whatever its category.
pub open spec fn report_ops(quiet: bool, report: ReportView) -> Seq<SinkOpView> {
    match report.category {
        Some(category) => passed(
            quiet,
            SinkOpView::SetForeground(Some(category_color(category))),
        ) + line_ops(quiet, report.text) + reset_ops(quiet),
        None => line_ops(quiet, report.text),
    }
}

/// The reporter of one invocation. Its quiet flag and its colour mode are
/// fixed when it is made.
#[derive(Debug)]
pub struct ColorWriter {
    q: bool,
    mode: ColorMode,
}

impl ColorWriter {
    /// Whether lines are discarded.
    pub closed spec fn is_quiet(&self) -> bool {
        self.q
    }

    /// The colour mode that was settled on.
    pub closed spec fn color_mode(&self) -> ColorMode {
        self.mode
    }

    /// Makes the reporter. `terminal` tells whether the output is attached
    /// to a terminal; it is looked at once, here.
    pub fn new(color: ColorMode, quiet: bool, terminal: bool) -> (writer: ColorWriter)
        ensures
            writer.is_quiet() == quiet,
            writer.color_mode() == resolved_mode(color, terminal),
    {
        let mode = match color {
            ColorMode::Auto => if terminal {
                ColorMode::Auto
            } else {
                ColorMode::Never
            },
            other => other,
        };
        ColorWriter { q: quiet, mode }
    }

    /// Whether lines are discarded.
    pub fn quiet(&self) -> (q: bool)
        ensures
            q == self.is_quiet(),
    {
        self.q
    }

    /// The colour mode to open the output stream with.
    pub fn mode(&self) -> (mode: ColorMode)
        ensures
            mode == self.color_mode(),
    {
        self.mode
    }

    /// Hands one operation on, unless quiet.
    fn pass(&self, op: SinkOp) -> (ops: Vec<SinkOp>)
        ensures
            op_views(ops@) == passed(self.is_quiet(), op@),
    {
        let mut ops: Vec<SinkOp> = Vec::new();
        if !self.q {
            ops.push(op);
        }
        assert(op_views(ops@) =~= passed(self.is_quiet(), op@));
        ops
    }

    /// Resets the colour and flushes right after; nothing when quiet.
    pub fn reset(&self) -> (ops: Vec<SinkOp>)
        ensures
            op_views(ops@) == reset_ops(self.is_quiet()),
    {
        let mut ops: Vec<SinkOp> = Vec::new();
        if !self.q {
            ops.push(SinkOp::Reset);
            ops.push(SinkOp::Flush);
        }
        assert(op_views(ops@) =~= reset_ops(self.is_quiet()));
        ops
    }

    /// Sets the foreground colour; nothing when quiet.
    pub fn fg(&self, color: Option<Color>) -> (ops: Vec<SinkOp>)
        ensures
            op_views(ops@) == passed(self.is_quiet(), SinkOpView::SetForeground(color)),
    {
        self.pass(SinkOp::SetForeground(color))
    }

    /// Sets the background colour; nothing when quiet.
    pub fn bg(&self, color: Option<Color>) -> (ops: Vec<SinkOp>)
        ensures
            op_views(ops@) == passed(self.is_quiet(), SinkOpView::SetBackground(color)),
    {
        self.pass(SinkOp::SetBackground(color))
    }

    /// Flushes what reached the stream so far. A flush puts nothing of its
    /// own on the stream, so it is asked for quiet or not.
    pub fn flush(&self) -> (op: SinkOp)
        ensures
            op@ == SinkOpView::Flush,
    {
        SinkOp::Flush
    }

    /// Writes a line, unless quiet: then the line is discarded and nothing
    /// is handed on.
    pub fn write(&self, text: &str) -> (ops: Vec<SinkOp>)
        ensures
            op_views(ops@) == line_ops(self.is_quiet(), text@),
    {
        self.pass(SinkOp::WriteLine(copy_text(text)))
    }

    /// Says one report: the operations to carry out for it, in order. A
    /// quiet reporter says nothing, a failure no more than anything else.
    pub fn say(&self, report: &Report) -> (ops: Vec<SinkOp>)
        ensures
            op_views(ops@) == report_ops(self.is_quiet(), report@),
    {
        match report.category {
            Some(category) => {
                let mut ops = self.fg(Some(color_of(category)));
                let ghost colour = op_views(ops@);
                let mut line = self.write(report.text.as_str());
                let ghost line_view = op_views(line@);
                ops.append(&mut line);
                assert(op_views(ops@) =~= colour + line_view);
                let mut reset = self.reset();
                let ghost reset_view = op_views(reset@);
                ops.append(&mut reset);
                assert(op_views(ops@) =~= colour + line_view + reset_view);
                ops
            },
            None => self.write(report.text.as_str()),
        }
    }
}

/// A quiet reporter hands nothing on: for every report, banner or plain
/// line, progress or failure, there is no operation to carry out. A
/// reporter that is not quiet hands on the whole of it: for a banner the
/// colour, the line, the reset and the flush, in this order; for a plain
/// line the line.
pub proof fn lemma_quiet_says_nothing(report: ReportView)
    ensures
        report_ops(true, report) == Seq::<SinkOpView>::empty(),
        report.category matches Some(category) ==> report_ops(false, report) == seq![
            SinkOpView::SetForeground(Some(category_color(category))),
            SinkOpView::WriteLine(report.text),
            SinkOpView::Reset,
            SinkOpView::Flush,
        ],
        report.category is None ==> report_ops(false, report) == seq![
            SinkOpView::WriteLine(report.text),
        ],
{
    assert(report_ops(true, report) =~= Seq::<SinkOpView>::empty());
    match report.category {
        Some(category) => {
            assert(report_ops(false, report) =~= seq![
                SinkOpView::SetForeground(Some(category_color(category))),
                SinkOpView::WriteLine(report.text),
                SinkOpView::Reset,
                SinkOpView::Flush,
            ]);
        },
        None => {},
    }
}

/// The banner for a base directory that holds no assembly source.
pub open spec fn no_assembly_text(base: Seq<char>) -> Seq<char> {
    "No assembly found in path: "@ + base
}

/// The banner that opens the assemble stage.
pub open spec fn found_text(files: nat, valid: nat) -> Seq<char> {
    decimal(files) + " files found, "@ + decimal(valid) + " paths valid\nCompiling"@
}

/// The line for one unit, before a tool is run on it.
pub open spec fn unit_text(relative: Seq<char>) -> Seq<char> {
    "- "@ + relative
}

/// The banner before the target is run.
pub open spec fn running_text(target: Seq<char>) -> Seq<char> {
    "running "@ + target + ":\n"@
}

/// The banner for a target that is not there.
pub open spec fn missing_text(target: Seq<char>) -> Seq<char> {
    "\nfile not found: "@ + target + ":\n"@
}

/// Reports that `base` holds no assembly source.
pub fn no_assembly(base: &str) -> (report: Report)
    ensures
        report@ == (ReportView {
            category: Some(Category::Failure),
            text: no_assembly_text(base@),
        }),
{
    let mut text = copy_text("No assembly found in path: ");
    text.append(base);
    Report { category: Some(Category::Failure), text }
}

/// Reports how many files were found and how many of them have valid
/// paths, and that compiling begins.
pub fn found(files: usize, valid: usize) -> (report: Report)
    ensures
        report@ == (ReportView {
            category: Some(Category::Progress),
            text: found_text(files as nat, valid as nat),
        }),
{
    let mut text = decimal_text(files);
    text.append(" files found, ");
    text.append(decimal_text(valid).as_str());
    text.append(" paths valid\nCompiling");
    Report { category: Some(Category::Progress), text }
}

/// The plain line that names a unit.
pub fn unit_line(relative: &str) -> (report: Report)
    ensures
        report@ == (ReportView { category: None, text: unit_text(relative@) }),
{
    let mut text = copy_text("- ");
    text.append(relative);
    Report { category: None, text }
}

/// Reports that linking begins.
pub fn linking() -> (report: Report)
    ensures
        report@ == (ReportView { category: Some(Category::Progress), text: "\nLinking"@ }),
{
    Report { category: Some(Category::Progress), text: copy_text("\nLinking") }
}

/// Reports that a part of the work is done.
pub fn done() -> (report: Report)
    ensures
        report@ == (ReportView { category: Some(Category::Success), text: "\nDone"@ }),
{
    Report { category: Some(Category::Success), text: copy_text("\nDone") }
}

/// Reports that the target is about to run.
pub fn running(target: &str) -> (report: Report)
    ensures
        report@ == (ReportView {
            category: Some(Category::Progress),
            text: running_text(target@),
        }),
{
    let mut text = copy_text("running ");
    text.append(target);
    text.append(":\n");
    Report { category: Some(Category::Progress), text }
}

/// Reports that the target to run does not exist.
pub fn missing(target: &str) -> (report: Report)
    ensures
        report@ == (ReportView {
            category: Some(Category::Failure),
            text: missing_text(target@),
        }),
{
    let mut text = copy_text("\nfile not found: ");
    text.append(target);
    text.append(":\n");
    Report { category: Some(Category::Failure), text }
}

/// Reports that the build trees are being removed.
pub fn cleaning() -> (report: Report)
    ensures
        report@ == (ReportView {
            category: Some(Category::Progress),
            text: "\ncleaning files..."@,
        }),
{
    Report { category: Some(Category::Progress), text: copy_text("\ncleaning files...") }
}

} // verus!
