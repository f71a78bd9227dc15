use rasm::config::Config;
use rasm::discover::Candidate;
use rasm::pipeline::{binary_dir, object_dir, Effect, Event, Phase, Pipeline, Step};
use rasm::report::{cleaning, done, found, linking, missing, no_assembly, running, unit_line};
use rasm::tooling::{BuildError, Invocation, Stage};

fn text(s: &str) -> String {
    s.to_string()
}

fn texts(items: &[&str]) -> Vec<String> {
    items.iter().map(|s| s.to_string()).collect()
}

fn source(path: &str) -> Candidate {
    Candidate { path: text(path), exists: true, is_file: true, is_symlink: false }
}

/// A tool that ran and exited with success.
fn well() -> Event {
    Event::Exited { success: true }
}

/// A tool that ran and exited without success.
fn badly() -> Event {
    Event::Exited { success: false }
}

fn tree() -> Event {
    Event::Probed {
        base_exists: true,
        entries: vec![source("src/sub/c.s"), source("src/b.txt"), source("src/a.asm")],
    }
}

fn nasm(source: &str, object: &str) -> Effect {
    Effect::Invoke(
        Stage::Assemble,
        Invocation { program: text("nasm"), args: texts(&["-f", "elf64", source, "-o", object]) },
    )
}

fn ld(object: &str, binary: &str) -> Effect {
    Effect::Invoke(
        Stage::Link,
        Invocation { program: text("ld"), args: texts(&[object, "-o", binary]) },
    )
}

fn stage_failure(stage: Stage, reason: &str) -> Effect {
    Effect::Stop(Err(BuildError::StageFailure(stage, text(reason))))
}

/// Feeds the events one by one and collects the answers.
fn drive(pipeline: &mut Pipeline, events: Vec<Event>) -> Vec<Step> {
    events.into_iter().map(|e| pipeline.step(e)).collect()
}

/// A pipeline on the sample tree of two sources, taken through preflight,
/// discovery, the creation of the build trees, and the assembling and
/// linking of both units.
fn built(config: Config) -> (Pipeline, Vec<Step>) {
    let mut p = Pipeline::new(config);
    let steps = drive(
        &mut p,
        vec![Event::Start, well(), tree(), Event::Completed, well(), well(), well(), well()],
    );
    (p, steps)
}

/// The same pipeline, taken only as far as the request for the build
/// trees.
fn set_up(config: Config) -> Pipeline {
    let mut p = Pipeline::new(config);
    drive(&mut p, vec![Event::Start, well(), tree()]);
    p
}

fn count(steps: &[Step], stage: Stage) -> usize {
    steps.iter().filter(|s| matches!(&s.effect, Effect::Invoke(t, _) if *t == stage)).count()
}

#[test]
fn the_build_roots_are_fixed() {
    assert_eq!(object_dir(), "build/obj");
    assert_eq!(binary_dir(), "build/bin");
}

#[test]
fn a_new_pipeline_is_idle() {
    let p = Pipeline::new(Config::default());
    assert_eq!(p.phase(), Phase::Idle);
    assert!(!p.finished());
    assert_eq!(p.listed(), 0);
    assert_eq!(p.unit_count(), 0);
}

#[test]
fn the_pipeline_opens_with_the_version_query() {
    let mut p = Pipeline::new(Config::default());
    let step = p.step(Event::Start);
    assert_eq!(
        step,
        Step {
            reports: vec![],
            effect: Effect::Invoke(
                Stage::Preflight,
                Invocation { program: text("nasm"), args: texts(&["--version"]) },
            ),
        }
    );
    assert_eq!(p.phase(), Phase::Preflight);
}

#[test]
fn a_missing_assembler_ends_the_pipeline_before_any_work() {
    let mut p = Pipeline::new(Config::default());
    let steps = drive(&mut p, vec![Event::Start, Event::NotFound(text("no such file"))]);
    assert_eq!(
        steps[1],
        Step { reports: vec![], effect: Effect::Stop(Err(BuildError::ToolingNotFound)) }
    );
    assert!(p.finished());
}

#[test]
fn another_preflight_failure_is_an_execution_failure() {
    let mut p = Pipeline::new(Config::default());
    let steps = drive(&mut p, vec![Event::Start, Event::Failed(text("permission denied"))]);
    assert_eq!(
        steps[1].effect,
        Effect::Stop(Err(BuildError::Execution(text("permission denied"))))
    );
}

#[test]
fn the_exit_code_of_the_version_query_is_of_no_account() {
    let mut p = Pipeline::new(Config::default());
    let steps = drive(&mut p, vec![Event::Start, badly()]);
    assert_eq!(steps[1].effect, Effect::Probe { base: text("src"), explicit: None });
    assert_eq!(p.phase(), Phase::Probing);
}

#[test]
fn discovery_walks_the_base_when_no_files_are_given() {
    let mut p = Pipeline::new(Config::default());
    let steps = drive(&mut p, vec![Event::Start, well()]);
    assert_eq!(
        steps[1],
        Step { reports: vec![], effect: Effect::Probe { base: text("src"), explicit: None } }
    );
    assert_eq!(p.phase(), Phase::Probing);
}

#[test]
fn discovery_probes_the_explicit_files_joined_onto_the_base() {
    let config = Config {
        base: Some(text("asm")),
        files: Some(texts(&["a.asm", "sub/c.s"])),
        ..Config::default()
    };
    let mut p = Pipeline::new(config);
    let steps = drive(&mut p, vec![Event::Start, well()]);
    assert_eq!(
        steps[1].effect,
        Effect::Probe { base: text("asm"), explicit: Some(texts(&["asm/a.asm", "asm/sub/c.s"])) }
    );
}

#[test]
fn a_full_build_runs_the_stages_in_order() {
    let (p, steps) = built(Config::default());
    assert_eq!(
        steps[2],
        Step {
            reports: vec![],
            effect: Effect::CreateDirs(texts(&["src", "build/obj", "build/bin"])),
        }
    );
    assert_eq!(
        steps[3],
        Step {
            reports: vec![found(2, 2), unit_line("a.asm")],
            effect: nasm("src/a.asm", "build/obj/a.o"),
        }
    );
    assert_eq!(
        steps[4],
        Step {
            reports: vec![unit_line("sub/c.s")],
            effect: nasm("src/sub/c.s", "build/obj/sub/c.o"),
        }
    );
    assert_eq!(
        steps[5],
        Step {
            reports: vec![linking(), unit_line("a.asm")],
            effect: ld("build/obj/a.o", "build/bin/a"),
        }
    );
    assert_eq!(
        steps[6],
        Step {
            reports: vec![unit_line("sub/c.s")],
            effect: ld("build/obj/sub/c.o", "build/bin/sub/c"),
        }
    );
    assert_eq!(steps[7], Step { reports: vec![done()], effect: Effect::Stop(Ok(())) });
    assert!(p.finished());
    assert_eq!(p.listed(), 2);
    assert_eq!(p.unit_count(), 2);
}

#[test]
fn every_unit_is_assembled_once_and_linked_once() {
    let entries: Vec<Candidate> =
        ["src/e.s", "src/d.s", "src/c.s", "src/b.s", "src/a.s"].into_iter().map(source).collect();
    let mut p = Pipeline::new(Config::default());
    let mut steps = drive(
        &mut p,
        vec![
            Event::Start,
            well(),
            Event::Probed { base_exists: true, entries },
            Event::Completed,
        ],
    );
    while !p.finished() {
        steps.push(p.step(well()));
    }
    assert_eq!(p.unit_count(), 5);
    assert_eq!(count(&steps, Stage::Assemble), 5);
    assert_eq!(count(&steps, Stage::Link), 5);
    assert_eq!(count(&steps, Stage::Run), 0);
    let last_assemble =
        steps.iter().rposition(|s| matches!(s.effect, Effect::Invoke(Stage::Assemble, _))).unwrap();
    let first_link =
        steps.iter().position(|s| matches!(s.effect, Effect::Invoke(Stage::Link, _))).unwrap();
    assert!(last_assemble < first_link);
    assert_eq!(steps.last().unwrap().effect, Effect::Stop(Ok(())));
}

#[test]
fn an_assembler_that_cannot_be_started_stops_the_stage() {
    let mut p = set_up(Config::default());
    let steps =
        drive(&mut p, vec![Event::Completed, Event::Failed(text("broken pipe")), well()]);
    assert_eq!(count(&steps, Stage::Assemble), 1);
    assert_eq!(count(&steps, Stage::Link), 0);
    assert_eq!(
        steps[1],
        Step { reports: vec![], effect: stage_failure(Stage::Assemble, "broken pipe") }
    );
    // stopped for good: the same result again
    assert_eq!(
        steps[2],
        Step { reports: vec![], effect: stage_failure(Stage::Assemble, "broken pipe") }
    );
    assert!(p.finished());
}

#[test]
fn an_assembler_that_exits_abnormally_stops_the_stage_and_nothing_is_linked() {
    let mut p = set_up(Config::default());
    let mut steps = drive(&mut p, vec![Event::Completed, well(), badly()]);
    assert_eq!(
        steps[2],
        Step { reports: vec![], effect: stage_failure(Stage::Assemble, "exited abnormally") }
    );
    assert!(p.finished());
    steps.push(p.step(well()));
    assert_eq!(count(&steps, Stage::Assemble), 2);
    assert_eq!(count(&steps, Stage::Link), 0);
}

#[test]
fn the_first_abnormal_exit_leaves_the_other_units_alone() {
    let mut p = set_up(Config::default());
    let steps = drive(&mut p, vec![Event::Completed, badly()]);
    assert_eq!(steps[1].effect, stage_failure(Stage::Assemble, "exited abnormally"));
    assert_eq!(count(&steps, Stage::Assemble), 1);
    assert_eq!(count(&steps, Stage::Link), 0);
}

#[test]
fn a_linker_that_exits_abnormally_stops_the_pipeline() {
    let mut p = set_up(Config::default());
    let steps = drive(&mut p, vec![Event::Completed, well(), well(), badly()]);
    assert_eq!(count(&steps, Stage::Assemble), 2);
    assert_eq!(count(&steps, Stage::Link), 1);
    assert_eq!(
        steps[3],
        Step { reports: vec![], effect: stage_failure(Stage::Link, "exited abnormally") }
    );
    assert!(p.finished());
}

#[test]
fn a_linker_that_is_not_there_stops_the_pipeline() {
    let mut p = set_up(Config::default());
    let steps = drive(
        &mut p,
        vec![Event::Completed, well(), well(), Event::NotFound(text("ld: not found"))],
    );
    assert_eq!(count(&steps, Stage::Assemble), 2);
    assert_eq!(count(&steps, Stage::Link), 1);
    assert_eq!(steps[3].effect, stage_failure(Stage::Link, "ld: not found"));
}

#[test]
fn a_failure_to_create_the_trees_stops_the_pipeline() {
    let mut p = set_up(Config::default());
    let step = p.step(Event::Failed(text("read-only file system")));
    assert_eq!(step.effect, stage_failure(Stage::Setup, "read-only file system"));
}

#[test]
fn a_failed_probe_stops_the_pipeline() {
    let mut p = Pipeline::new(Config::default());
    let steps =
        drive(&mut p, vec![Event::Start, well(), Event::Failed(text("input/output error"))]);
    assert_eq!(steps[2].effect, stage_failure(Stage::Discover, "input/output error"));
}

#[test]
fn an_empty_source_directory_is_reported_and_is_no_error() {
    let mut p = Pipeline::new(Config::default());
    let steps = drive(
        &mut p,
        vec![Event::Start, well(), Event::Probed { base_exists: true, entries: vec![] }],
    );
    assert_eq!(steps[2], Step { reports: vec![no_assembly("src")], effect: Effect::Stop(Ok(())) });
    assert!(p.finished());
    assert!(steps.iter().all(|s| !matches!(s.effect, Effect::CreateDirs(_))));
}

#[test]
fn a_missing_base_directory_is_reported_and_is_no_error() {
    let config = Config { base: Some(text("nowhere")), ..Config::default() };
    let mut p = Pipeline::new(config);
    let steps = drive(
        &mut p,
        vec![Event::Start, well(), Event::Probed { base_exists: false, entries: vec![] }],
    );
    assert_eq!(
        steps[2],
        Step { reports: vec![no_assembly("nowhere")], effect: Effect::Stop(Ok(())) }
    );
}

#[test]
fn an_explicit_file_outside_the_base_is_dropped() {
    let config = Config { files: Some(texts(&["a.asm", "/tmp/x.asm"])), ..Config::default() };
    let mut p = Pipeline::new(config);
    let steps = drive(&mut p, vec![Event::Start, well()]);
    assert_eq!(
        steps[1].effect,
        Effect::Probe { base: text("src"), explicit: Some(texts(&["src/a.asm", "/tmp/x.asm"])) }
    );
    let probed = Event::Probed {
        base_exists: true,
        entries: vec![source("src/a.asm"), source("/tmp/x.asm")],
    };
    let steps = drive(&mut p, vec![probed, Event::Completed, well(), well()]);
    assert_eq!(p.listed(), 2);
    assert_eq!(p.unit_count(), 1);
    assert_eq!(
        steps[1],
        Step {
            reports: vec![found(2, 1), unit_line("a.asm")],
            effect: nasm("src/a.asm", "build/obj/a.o"),
        }
    );
    assert_eq!(
        steps[2],
        Step {
            reports: vec![linking(), unit_line("a.asm")],
            effect: ld("build/obj/a.o", "build/bin/a"),
        }
    );
    assert_eq!(steps[3], Step { reports: vec![done()], effect: Effect::Stop(Ok(())) });
}

#[test]
fn sources_without_a_valid_path_build_nothing() {
    let config = Config { files: Some(texts(&["/tmp/x.asm"])), ..Config::default() };
    let mut p = Pipeline::new(config);
    drive(&mut p, vec![Event::Start, well()]);
    let probed = Event::Probed { base_exists: true, entries: vec![source("/tmp/x.asm")] };
    let steps = drive(&mut p, vec![probed, Event::Completed]);
    assert_eq!(
        steps[1],
        Step { reports: vec![found(1, 0), linking(), done()], effect: Effect::Stop(Ok(())) }
    );
}

#[test]
fn a_missing_run_target_is_reported_and_nothing_is_started() {
    let config = Config { run: Some(text("a")), ..Config::default() };
    let (mut p, mut steps) = built(config);
    assert_eq!(steps[7], Step { reports: vec![done()], effect: Effect::Exists(text("build/bin/a")) });
    steps.push(p.step(Event::Exists(false)));
    assert_eq!(
        steps[8],
        Step { reports: vec![missing("build/bin/a"), done()], effect: Effect::Stop(Ok(())) }
    );
    assert_eq!(count(&steps, Stage::Run), 0);
    assert!(p.finished());
}

#[test]
fn a_run_target_that_exists_is_started() {
    let config = Config { run: Some(text("sub/c")), ..Config::default() };
    let (mut p, steps) = built(config);
    assert_eq!(steps[7].effect, Effect::Exists(text("build/bin/sub/c")));
    let steps = drive(&mut p, vec![Event::Exists(true), well()]);
    assert_eq!(
        steps[0],
        Step {
            reports: vec![running("build/bin/sub/c")],
            effect: Effect::Invoke(
                Stage::Run,
                Invocation { program: text("build/bin/sub/c"), args: vec![] },
            ),
        }
    );
    assert_eq!(steps[1], Step { reports: vec![done()], effect: Effect::Stop(Ok(())) });
}

#[test]
fn the_exit_code_of_the_target_is_of_no_account() {
    let config = Config { run: Some(text("a")), ..Config::default() };
    let (mut p, _) = built(config);
    let steps = drive(&mut p, vec![Event::Exists(true), badly()]);
    assert_eq!(steps[1], Step { reports: vec![done()], effect: Effect::Stop(Ok(())) });
}

#[test]
fn a_target_that_cannot_be_started_fails_the_pipeline() {
    let config = Config { run: Some(text("a")), ..Config::default() };
    let (mut p, _) = built(config);
    let steps = drive(&mut p, vec![Event::Exists(true), Event::Failed(text("exec format error"))]);
    assert_eq!(steps[1].effect, stage_failure(Stage::Run, "exec format error"));
}

#[test]
fn cleaning_removes_both_trees() {
    let config = Config { clean: true, ..Config::default() };
    let (mut p, steps) = built(config);
    assert_eq!(
        steps[7],
        Step { reports: vec![done(), cleaning()], effect: Effect::RemoveDir(text("build/obj")) }
    );
    let steps = drive(&mut p, vec![Event::Completed, Event::Completed]);
    assert_eq!(steps[0], Step { reports: vec![], effect: Effect::RemoveDir(text("build/bin")) });
    assert_eq!(steps[1], Step { reports: vec![done()], effect: Effect::Stop(Ok(())) });
}

#[test]
fn cleaning_an_absent_tree_is_no_error() {
    let config = Config { clean: true, ..Config::default() };
    let (mut p, _) = built(config);
    let steps = drive(
        &mut p,
        vec![
            Event::NotFound(text("no such directory")),
            Event::NotFound(text("no such directory")),
        ],
    );
    assert_eq!(steps[0], Step { reports: vec![], effect: Effect::RemoveDir(text("build/bin")) });
    assert_eq!(steps[1], Step { reports: vec![done()], effect: Effect::Stop(Ok(())) });
    assert!(p.finished());
}

#[test]
fn a_failed_removal_fails_the_pipeline() {
    let config = Config { clean: true, ..Config::default() };
    let (mut p, _) = built(config);
    let step = p.step(Event::Failed(text("directory not empty")));
    assert_eq!(step.effect, stage_failure(Stage::Clean, "directory not empty"));
}

#[test]
fn running_and_cleaning_come_after_the_build_in_that_order() {
    let config = Config { run: Some(text("a")), clean: true, ..Config::default() };
    let (mut p, _) = built(config);
    let steps = drive(&mut p, vec![Event::Exists(false), Event::Completed, Event::Completed]);
    assert_eq!(
        steps[0],
        Step {
            reports: vec![missing("build/bin/a"), cleaning()],
            effect: Effect::RemoveDir(text("build/obj")),
        }
    );
    assert_eq!(steps[1].effect, Effect::RemoveDir(text("build/bin")));
    assert_eq!(steps[2], Step { reports: vec![done()], effect: Effect::Stop(Ok(())) });
}

#[test]
fn an_event_out_of_turn_stops_the_pipeline() {
    let mut p = Pipeline::new(Config::default());
    let step = p.step(Event::Completed);
    assert_eq!(step, Step { reports: vec![], effect: Effect::Stop(Err(BuildError::OutOfTurn)) });
    assert!(p.finished());

    let mut p = set_up(Config::default());
    let step = p.step(Event::Exists(true));
    assert_eq!(step.effect, Effect::Stop(Err(BuildError::OutOfTurn)));
}

#[test]
fn a_tool_is_not_answered_like_a_directory() {
    // the assembler was asked for; "the directory is made" is no answer
    let mut p = set_up(Config::default());
    let steps = drive(&mut p, vec![Event::Completed, Event::Completed]);
    assert_eq!(steps[1].effect, Effect::Stop(Err(BuildError::OutOfTurn)));

    // the build trees were asked for; "the tool exited" is no answer
    let mut p = set_up(Config::default());
    let step = p.step(well());
    assert_eq!(step.effect, Effect::Stop(Err(BuildError::OutOfTurn)));
}

#[test]
fn a_stopped_pipeline_repeats_its_result() {
    let mut p = Pipeline::new(Config::default());
    drive(
        &mut p,
        vec![Event::Start, well(), Event::Probed { base_exists: true, entries: vec![] }],
    );
    assert!(p.finished());
    assert_eq!(p.step(Event::Start), Step { reports: vec![], effect: Effect::Stop(Ok(())) });
    assert_eq!(p.step(tree()), Step { reports: vec![], effect: Effect::Stop(Ok(())) });
    assert_eq!(p.phase(), Phase::Finished);
}
