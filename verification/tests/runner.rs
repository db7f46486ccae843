use integration_tests::command::{Command, Invocation, Location, Subcommand};
use integration_tests::failure::{Category, Failure};
use integration_tests::http::{ContentKind, Response};
use integration_tests::judge::{action, compare, judge, ready, vet, Action, Event, Judgement};
use integration_tests::outcome::{Expect, ProcessOutcome};
use integration_tests::plan::{plan, served};
use integration_tests::runner::{Phase, Report, Runner};
use integration_tests::scenario::{Body, Scenario, Step};
use integration_tests::target::Target;

fn exited(code: i32) -> Event {
    Event::Exited(ProcessOutcome { code: Some(code), stdout: Vec::new(), stderr: Vec::new() })
}

fn reply(elapsed_ms: u64, status: u16, content_type: Option<&str>, body: &[u8]) -> Event {
    Event::Reply {
        elapsed_ms,
        response: Some(Response {
            status,
            content_type: content_type.map(|value| value.to_string()),
            body: body.to_vec(),
        }),
    }
}

fn silence(elapsed_ms: u64) -> Event {
    Event::Reply { elapsed_ms, response: None }
}

fn build(expect: Expect) -> Step {
    Step::tool(Invocation::new(Subcommand::Build), expect)
}

fn one(name: &'static str, steps: Vec<Step>) -> Vec<Scenario> {
    vec![Scenario { name, steps }]
}

/// Feeds the events to the run, one for each pending action, and hands back
/// the actions that were pending, the last one after the last event.
fn drive(plan: Vec<Scenario>, events: Vec<Event>) -> (Runner, Vec<Action>) {
    let mut runner = Runner::start(plan);
    let mut actions = vec![runner.pending()];
    for event in events {
        runner = runner.advance(event);
        actions.push(runner.pending());
    }
    (runner, actions)
}

/// A world in which everything is as the run expects it.
fn obliging(runner: &Runner, action: &Action, touched: bool) -> Event {
    let hash: &[u8] = if touched { b"hash-2" } else { b"hash-1" };
    match action {
        Action::Enter { .. } | Action::Spawn(_) | Action::Touch(_) => Event::Done,
        Action::Kill | Action::Leave => Event::Done,
        Action::Stop => unreachable!(),
        Action::Run(_) => match runner.current() {
            Some(Step::Run { expect: Expect::Success, .. }) => exited(0),
            _ => exited(1),
        },
        Action::Probe(_) => Event::Found(matches!(runner.current(), Some(Step::Exists { .. }))),
        Action::Read(_) => match runner.current() {
            Some(Step::Contains { needle, .. }) => {
                Event::Content(Some(format!("(function() {{ {} }})", needle).into_bytes()))
            }
            _ => Event::Content(runner.held.clone()),
        },
        Action::Get { .. } => match runner.current() {
            Some(Step::Await { kind, .. }) => {
                reply(300, 200, kind.map(|kind| kind.mime()), b"<html></html>")
            }
            Some(Step::Fetch { kind, body, .. }) => {
                let kind = kind.map(|kind| kind.mime());
                match body {
                    Body::Text(text) => reply(0, 200, kind, text.as_bytes()),
                    Body::File(_) => reply(0, 200, kind, b"console.log(1);"),
                    _ => reply(0, 200, kind, hash),
                }
            }
            _ => reply(200, 200, None, hash),
        },
    }
}

fn run_obligingly(plan: Vec<Scenario>) -> (Runner, Vec<Action>) {
    let mut runner = Runner::start(plan);
    let mut actions = Vec::new();
    let mut touched = false;
    loop {
        let action = runner.pending();
        actions.push(action);
        if action == Action::Stop {
            return (runner, actions);
        }
        assert!(actions.len() < 10_000);
        if let Action::Touch(_) = action {
            touched = true;
        }
        let event = obliging(&runner, &action, touched);
        runner = runner.advance(event);
    }
}

#[test]
fn an_empty_run_is_over_at_once() {
    let runner = Runner::start(Vec::new());
    assert_eq!(runner.pending(), Action::Stop);
    assert!(runner.is_finished());
    assert!(runner.passed());
    assert_eq!(runner.current(), None);
}

#[test]
fn a_scenario_is_entered_carried_out_and_left() {
    let (runner, actions) =
        drive(one("rlib", vec![build(Expect::Success)]), vec![Event::Done, exited(0), Event::Done]);
    assert_eq!(
        actions,
        vec![
            Action::Enter { fixture: "rlib" },
            Action::Run(Command::Tool(Invocation::new(Subcommand::Build))),
            Action::Leave,
            Action::Stop,
        ]
    );
    assert!(runner.passed());
    assert_eq!(runner.failure, None);
    assert_eq!(runner.scenario, 1);
}

#[test]
fn a_scenario_without_steps_is_entered_and_left() {
    let (runner, actions) = drive(one("empty", Vec::new()), vec![Event::Done, Event::Done]);
    assert_eq!(actions, vec![Action::Enter { fixture: "empty" }, Action::Leave, Action::Stop]);
    assert!(runner.passed());
}

#[test]
fn a_run_that_has_started_awaits_the_first_directory() {
    let runner = Runner::start(one("rlib", vec![build(Expect::Success)]));
    assert_eq!(runner.phase, Phase::Entering);
    assert!(!runner.is_finished());
    assert!(!runner.passed());
    assert_eq!(runner.current(), Some(build(Expect::Success)));
}

#[test]
fn the_first_failure_ends_the_run() {
    let scenarios = vec![
        Scenario { name: "first", steps: vec![build(Expect::Success), build(Expect::Success)] },
        Scenario { name: "second", steps: vec![build(Expect::Success)] },
    ];
    let (runner, actions) = drive(scenarios, vec![Event::Done, exited(1), Event::Done]);
    assert_eq!(
        actions,
        vec![
            Action::Enter { fixture: "first" },
            Action::Run(Command::Tool(Invocation::new(Subcommand::Build))),
            Action::Leave,
            Action::Stop,
        ]
    );
    assert!(runner.is_finished());
    assert!(!runner.passed());
    assert_eq!(
        runner.failure,
        Some(Failure::ShouldSucceed(ProcessOutcome {
            code: Some(1),
            stdout: Vec::new(),
            stderr: Vec::new()
        }))
    );
    assert_eq!((runner.scenario, runner.step), (0, 0));
}

#[test]
fn a_build_that_should_fail_must_not_succeed() {
    let (runner, actions) =
        drive(one("broken", vec![build(Expect::Failure)]), vec![Event::Done, exited(0), Event::Done]);
    assert_eq!(actions[2], Action::Leave);
    assert_eq!(
        runner.failure,
        Some(Failure::ShouldFail(ProcessOutcome {
            code: Some(0),
            stdout: Vec::new(),
            stderr: Vec::new()
        }))
    );
}

#[test]
fn a_build_that_should_fail_may_fail_in_any_way() {
    let killed =
        Event::Exited(ProcessOutcome { code: None, stdout: Vec::new(), stderr: Vec::new() });
    let (runner, _) = drive(
        one("broken", vec![build(Expect::Failure), build(Expect::Failure)]),
        vec![Event::Done, exited(101), killed, Event::Done],
    );
    assert!(runner.passed());
}

#[test]
fn scenarios_follow_each_other() {
    let scenarios = vec![
        Scenario { name: "first", steps: vec![build(Expect::Success)] },
        Scenario { name: "second", steps: vec![build(Expect::Failure)] },
    ];
    let (runner, actions) = drive(
        scenarios,
        vec![Event::Done, exited(0), Event::Done, Event::Done, exited(1), Event::Done],
    );
    assert_eq!(
        actions,
        vec![
            Action::Enter { fixture: "first" },
            Action::Run(Command::Tool(Invocation::new(Subcommand::Build))),
            Action::Leave,
            Action::Enter { fixture: "second" },
            Action::Run(Command::Tool(Invocation::new(Subcommand::Build))),
            Action::Leave,
            Action::Stop,
        ]
    );
    assert!(runner.passed());
    assert_eq!(runner.scenario, 2);
}

#[test]
fn a_missing_executable_is_an_environment_failure() {
    let (runner, actions) = drive(
        one("rlib", vec![build(Expect::Failure)]),
        vec![Event::Done, Event::Unavailable, Event::Done],
    );
    assert_eq!(actions[2], Action::Leave);
    assert_eq!(runner.failure, Some(Failure::Environment));
}

#[test]
fn a_directory_that_cannot_be_entered_ends_the_run_at_once() {
    let (runner, actions) =
        drive(one("gone", vec![build(Expect::Success)]), vec![Event::Unavailable]);
    assert_eq!(actions, vec![Action::Enter { fixture: "gone" }, Action::Stop]);
    assert_eq!(runner.failure, Some(Failure::Environment));
    assert!(runner.is_finished());
}

#[test]
fn a_directory_that_cannot_be_restored_fails_the_run() {
    let (runner, actions) = drive(
        one("rlib", vec![build(Expect::Success)]),
        vec![Event::Done, exited(0), Event::Unavailable],
    );
    assert_eq!(actions[3], Action::Stop);
    assert_eq!(runner.failure, Some(Failure::Environment));
    assert!(!runner.passed());
}

#[test]
fn an_event_of_the_wrong_kind_is_a_usage_failure() {
    let (runner, _) = drive(
        one("rlib", vec![build(Expect::Success)]),
        vec![Event::Done, Event::Found(true), Event::Done],
    );
    assert_eq!(runner.failure, Some(Failure::Usage));
    let (runner, _) = drive(one("rlib", vec![build(Expect::Success)]), vec![exited(0)]);
    assert_eq!(runner.failure, Some(Failure::Usage));
    assert!(runner.is_finished());
}

#[test]
fn an_absolute_path_is_refused_before_it_is_used() {
    let steps = vec![Step::Exists { file: Location::Literal("/etc/passwd") }];
    let (runner, actions) = drive(one("escape", steps), vec![Event::Done, Event::Done]);
    assert_eq!(actions, vec![Action::Enter { fixture: "escape" }, Action::Leave, Action::Stop]);
    assert_eq!(runner.failure, Some(Failure::Usage));
    assert!(!ready(&Step::Touch { file: Location::Literal("/x") }, false, false));
    assert!(ready(&Step::Touch { file: Location::Literal("x") }, false, false));
}

#[test]
fn files_are_probed_and_read() {
    let steps = vec![
        Step::Exists { file: Location::Literal("target/deploy") },
        Step::Missing { file: Location::Literal("child/target/deploy") },
        Step::Contains { file: Location::Literal("out.js"), needle: "needle" },
        Step::Touch { file: Location::Literal("src/main.rs") },
    ];
    let (runner, actions) = drive(
        one("files", steps),
        vec![
            Event::Done,
            Event::Found(true),
            Event::Found(false),
            Event::Content(Some(b"hay needle hay".to_vec())),
            Event::Done,
            Event::Done,
        ],
    );
    assert_eq!(
        actions,
        vec![
            Action::Enter { fixture: "files" },
            Action::Probe(Location::Literal("target/deploy")),
            Action::Probe(Location::Literal("child/target/deploy")),
            Action::Read(Location::Literal("out.js")),
            Action::Touch(Location::Literal("src/main.rs")),
            Action::Leave,
            Action::Stop,
        ]
    );
    assert!(runner.passed());
}

#[test]
fn file_checks_fail_with_their_own_failures() {
    let exists = Step::Exists { file: Location::Literal("a") };
    let missing = Step::Missing { file: Location::Literal("a") };
    let contains = Step::Contains { file: Location::Literal("a"), needle: "needle" };
    assert_eq!(judge(&exists, Event::Found(false), &None), Judgement::Fail(Failure::FileMissing));
    assert_eq!(judge(&exists, Event::Found(true), &None), Judgement::Pass);
    assert_eq!(judge(&missing, Event::Found(true), &None), Judgement::Fail(Failure::FilePresent));
    assert_eq!(judge(&missing, Event::Found(false), &None), Judgement::Pass);
    assert_eq!(
        judge(&contains, Event::Content(None), &None),
        Judgement::Fail(Failure::FileMissing)
    );
    assert_eq!(
        judge(&contains, Event::Content(Some(b"needl".to_vec())), &None),
        Judgement::Fail(Failure::ContentMismatch)
    );
    assert_eq!(
        judge(&contains, Event::Content(Some(b"a needle".to_vec())), &None),
        Judgement::Pass
    );
    assert_eq!(
        judge(&contains, Event::Unavailable, &None),
        Judgement::Fail(Failure::Environment)
    );
    assert_eq!(judge(&contains, Event::Done, &None), Judgement::Fail(Failure::Usage));
}

#[test]
fn steps_ask_for_their_actions() {
    let file = Location::Literal("a");
    let command = Command::Tool(Invocation::new(Subcommand::Start));
    assert_eq!(action(&Step::Serve { command }, false), Action::Spawn(command));
    assert_eq!(action(&Step::Exists { file }, false), Action::Probe(file));
    assert_eq!(action(&Step::Missing { file }, false), Action::Probe(file));
    assert_eq!(action(&Step::Contains { file, needle: "x" }, false), Action::Read(file));
    assert_eq!(action(&Step::Touch { file }, false), Action::Touch(file));
    assert_eq!(
        action(&Step::Await { url: "u", timeout_ms: 5, kind: None }, false),
        Action::Get { url: "u", pause_ms: 100, restart: true }
    );
    assert_eq!(
        action(&Step::AwaitChange { url: "u", timeout_ms: 5 }, true),
        Action::Get { url: "u", pause_ms: 100, restart: false }
    );
    assert_eq!(
        action(&Step::Fetch { url: "u", kind: None, body: Body::Any }, true),
        Action::Get { url: "u", pause_ms: 0, restart: true }
    );
}

#[test]
fn the_server_is_waited_for_until_it_answers() {
    let steps = vec![
        Step::Serve { command: Command::Tool(Invocation::new(Subcommand::Start)) },
        Step::Await { url: "http://localhost:8000", timeout_ms: 10_000, kind: Some(ContentKind::Html) },
    ];
    let (runner, actions) = drive(
        one("static-files", steps),
        vec![
            Event::Done,
            Event::Done,
            silence(100),
            silence(9_999),
            reply(10_400, 200, Some("text/html"), b"<html>"),
            Event::Done,
            Event::Done,
        ],
    );
    let first = Action::Get { url: "http://localhost:8000", pause_ms: 100, restart: true };
    let again = Action::Get { url: "http://localhost:8000", pause_ms: 100, restart: false };
    assert_eq!(
        actions,
        vec![
            Action::Enter { fixture: "static-files" },
            Action::Spawn(Command::Tool(Invocation::new(Subcommand::Start))),
            first,
            again,
            again,
            Action::Kill,
            Action::Leave,
            Action::Stop,
        ]
    );
    assert!(runner.passed());
    assert!(!runner.serving);
}

#[test]
fn a_server_that_never_comes_up_is_killed_all_the_same() {
    let steps = vec![
        Step::Serve { command: Command::Tool(Invocation::new(Subcommand::Start)) },
        Step::Await { url: "http://localhost:8000", timeout_ms: 10_000, kind: None },
        build(Expect::Success),
    ];
    let (runner, actions) = drive(
        one("static-files", steps),
        vec![Event::Done, Event::Done, silence(5_000), silence(10_000), Event::Done, Event::Done],
    );
    assert_eq!(actions[4..].to_vec(), vec![Action::Kill, Action::Leave, Action::Stop]);
    assert_eq!(runner.failure, Some(Failure::NeverCameUp));
    assert_eq!((runner.scenario, runner.step), (0, 1));
    assert!(!runner.serving);
}

#[test]
fn a_server_that_answers_with_an_error_is_told_from_one_that_is_down() {
    let step = Step::Await { url: "u", timeout_ms: 10_000, kind: Some(ContentKind::Html) };
    assert_eq!(
        judge(&step, reply(100, 500, Some("text/html"), b""), &None),
        Judgement::Fail(Failure::Status(500))
    );
    assert_eq!(judge(&step, silence(10_000), &None), Judgement::Fail(Failure::NeverCameUp));
    assert_eq!(judge(&step, silence(9_999), &None), Judgement::Retry);
    assert_eq!(
        judge(&step, reply(100, 200, Some("text/plain"), b""), &None),
        Judgement::Fail(Failure::ContentType(Some("text/plain".to_string())))
    );
    assert_eq!(
        judge(&step, reply(100, 200, None, b""), &None),
        Judgement::Fail(Failure::ContentType(None))
    );
    assert_eq!(judge(&step, reply(20_000, 200, Some("text/html"), b""), &None), Judgement::Pass);
}

#[test]
fn a_second_server_is_refused() {
    let serve = Step::Serve { command: Command::Tool(Invocation::new(Subcommand::Start)) };
    let (runner, actions) =
        drive(one("twice", vec![serve, serve]), vec![Event::Done, Event::Done, Event::Done, Event::Done]);
    assert_eq!(
        actions,
        vec![
            Action::Enter { fixture: "twice" },
            Action::Spawn(Command::Tool(Invocation::new(Subcommand::Start))),
            Action::Kill,
            Action::Leave,
            Action::Stop,
        ]
    );
    assert_eq!(runner.failure, Some(Failure::Usage));
}

#[test]
fn a_server_that_cannot_be_started_is_not_killed() {
    let serve = Step::Serve { command: Command::Tool(Invocation::new(Subcommand::Start)) };
    let (runner, actions) =
        drive(one("down", vec![serve]), vec![Event::Done, Event::Unavailable, Event::Done]);
    assert_eq!(actions[2..].to_vec(), vec![Action::Leave, Action::Stop]);
    assert_eq!(runner.failure, Some(Failure::Environment));
}

#[test]
fn responses_are_vetted_status_first() {
    let html = Some(ContentKind::Html);
    let response = |status: u16, kind: Option<&str>, body: &[u8]| Response {
        status,
        content_type: kind.map(|kind| kind.to_string()),
        body: body.to_vec(),
    };
    assert_eq!(
        vet(response(404, Some("text/plain"), b"no"), html, Body::Text("yes"), &None),
        Judgement::Fail(Failure::Status(404))
    );
    assert_eq!(
        vet(response(200, Some("text/plain"), b"no"), html, Body::Text("yes"), &None),
        Judgement::Fail(Failure::ContentType(Some("text/plain".to_string())))
    );
    assert_eq!(
        vet(response(200, Some("text/html"), b"no"), html, Body::Text("yes"), &None),
        Judgement::Fail(Failure::Body(b"no".to_vec()))
    );
    assert_eq!(
        vet(response(200, Some("text/html"), b"yes"), html, Body::Text("yes"), &None),
        Judgement::Pass
    );
    assert_eq!(vet(response(200, None, b"x"), None, Body::Any, &None), Judgement::Pass);
    assert_eq!(
        vet(response(200, None, b"x"), None, Body::Remember, &None),
        Judgement::Remember(b"x".to_vec())
    );
    assert_eq!(
        vet(response(200, None, b"x"), None, Body::File(Location::Literal("f")), &None),
        Judgement::Compare(b"x".to_vec())
    );
    assert_eq!(
        vet(response(200, None, b"x"), None, Body::Remembered, &None),
        Judgement::Fail(Failure::Usage)
    );
    assert_eq!(
        vet(response(200, None, b"x"), None, Body::Remembered, &Some(b"x".to_vec())),
        Judgement::Pass
    );
    assert_eq!(
        vet(response(200, None, b"y"), None, Body::Remembered, &Some(b"x".to_vec())),
        Judgement::Fail(Failure::Body(b"y".to_vec()))
    );
}

#[test]
fn a_single_request_is_not_made_again() {
    let step = Step::Fetch { url: "u", kind: None, body: Body::Any };
    assert_eq!(judge(&step, silence(0), &None), Judgement::Fail(Failure::Unreachable));
    assert_eq!(judge(&step, reply(0, 200, None, b""), &None), Judgement::Pass);
}

#[test]
fn a_served_file_is_held_against_the_file_on_disk() {
    let file = Location::artifact(Target::AsmjsEmscripten, "static-files");
    let steps = vec![Step::Fetch {
        url: "http://localhost:8000/static-files.js",
        kind: Some(ContentKind::JavaScript),
        body: Body::File(file),
    }];
    let events = |content: Event| {
        vec![
            Event::Done,
            reply(0, 200, Some("application/javascript"), b"var x;"),
            content,
            Event::Done,
        ]
    };
    let (runner, actions) =
        drive(one("static-files", steps.clone()), events(Event::Content(Some(b"var x;".to_vec()))));
    assert_eq!(
        actions,
        vec![
            Action::Enter { fixture: "static-files" },
            Action::Get { url: "http://localhost:8000/static-files.js", pause_ms: 0, restart: true },
            Action::Read(file),
            Action::Leave,
            Action::Stop,
        ]
    );
    assert!(runner.passed());
    let (runner, _) =
        drive(one("static-files", steps.clone()), events(Event::Content(Some(b"var y;".to_vec()))));
    assert_eq!(runner.failure, Some(Failure::ContentMismatch));
    let (runner, _) = drive(one("static-files", steps), events(Event::Content(None)));
    assert_eq!(runner.failure, Some(Failure::FileMissing));
}

#[test]
fn compare_holds_the_file_against_the_body() {
    let held = Some(b"abc".to_vec());
    assert_eq!(compare(&held, Event::Content(Some(b"abc".to_vec()))), Judgement::Pass);
    assert_eq!(
        compare(&held, Event::Content(Some(b"abd".to_vec()))),
        Judgement::Fail(Failure::ContentMismatch)
    );
    assert_eq!(compare(&held, Event::Content(None)), Judgement::Fail(Failure::FileMissing));
    assert_eq!(compare(&held, Event::Unavailable), Judgement::Fail(Failure::Environment));
    assert_eq!(compare(&held, Event::Done), Judgement::Fail(Failure::Usage));
    assert_eq!(
        compare(&None, Event::Content(Some(Vec::new()))),
        Judgement::Fail(Failure::Usage)
    );
}

#[test]
fn the_build_hash_stays_until_a_file_is_touched() {
    let hash = "http://localhost:8000/__build_hash__";
    let steps = vec![
        Step::Fetch { url: hash, kind: None, body: Body::Remember },
        Step::Fetch { url: hash, kind: None, body: Body::Remembered },
        Step::Touch { file: Location::Literal("src/main.rs") },
        Step::AwaitChange { url: hash, timeout_ms: 10_000 },
    ];
    let (runner, actions) = drive(
        one("static-files", steps),
        vec![
            Event::Done,
            reply(0, 200, None, b"hash-1"),
            reply(0, 200, None, b"hash-1"),
            Event::Done,
            reply(150, 200, None, b"hash-1"),
            reply(300, 200, None, b"hash-1"),
            reply(450, 200, None, b"hash-2"),
            Event::Done,
        ],
    );
    assert_eq!(actions[4], Action::Get { url: hash, pause_ms: 100, restart: true });
    assert_eq!(actions[5], Action::Get { url: hash, pause_ms: 100, restart: false });
    assert_eq!(actions[6], Action::Get { url: hash, pause_ms: 100, restart: false });
    assert_eq!(actions[7], Action::Leave);
    assert!(runner.passed());
}

#[test]
fn a_build_hash_that_changes_by_itself_fails() {
    let hash = "http://localhost:8000/__build_hash__";
    let steps = vec![
        Step::Fetch { url: hash, kind: None, body: Body::Remember },
        Step::Fetch { url: hash, kind: None, body: Body::Remembered },
    ];
    let (runner, _) = drive(
        one("static-files", steps),
        vec![Event::Done, reply(0, 200, None, b"hash-1"), reply(0, 200, None, b"hash-2"), Event::Done],
    );
    assert_eq!(runner.failure, Some(Failure::Body(b"hash-2".to_vec())));
}

#[test]
fn a_build_hash_that_never_changes_times_out() {
    let step = Step::AwaitChange { url: "u", timeout_ms: 10_000 };
    let token = Some(b"hash-1".to_vec());
    assert_eq!(judge(&step, reply(9_999, 200, None, b"hash-1"), &token), Judgement::Retry);
    assert_eq!(
        judge(&step, reply(10_000, 200, None, b"hash-1"), &token),
        Judgement::Fail(Failure::Unchanged)
    );
    assert_eq!(judge(&step, reply(10_000, 200, None, b"hash-2"), &token), Judgement::Pass);
    assert_eq!(
        judge(&step, reply(0, 500, None, b"hash-2"), &token),
        Judgement::Fail(Failure::Status(500))
    );
    assert_eq!(judge(&step, silence(0), &token), Judgement::Fail(Failure::Unreachable));
    assert_eq!(judge(&step, reply(0, 200, None, b"x"), &None), Judgement::Fail(Failure::Usage));
}

#[test]
fn what_was_remembered_does_not_outlive_its_scenario() {
    let scenarios = vec![
        Scenario {
            name: "first",
            steps: vec![Step::Fetch { url: "u", kind: None, body: Body::Remember }],
        },
        Scenario {
            name: "second",
            steps: vec![Step::Fetch { url: "u", kind: None, body: Body::Remembered }],
        },
    ];
    let (runner, actions) = drive(
        scenarios,
        vec![Event::Done, reply(0, 200, None, b"hash"), Event::Done, Event::Done, Event::Done],
    );
    assert_eq!(
        actions[3..].to_vec(),
        vec![Action::Enter { fixture: "second" }, Action::Leave, Action::Stop]
    );
    assert_eq!(runner.failure, Some(Failure::Usage));
    assert_eq!(runner.scenario, 1);
}

#[test]
fn a_finished_run_stays_finished() {
    let (runner, _) =
        drive(one("rlib", vec![build(Expect::Success)]), vec![Event::Done, exited(0), Event::Done]);
    let runner = runner.advance(exited(1));
    assert!(runner.passed());
    assert_eq!(runner.pending(), Action::Stop);
}

#[test]
fn the_server_scenario_passes_in_an_obliging_world() {
    let (runner, actions) = run_obligingly(vec![served("static-files")]);
    assert!(runner.passed(), "{:?}", runner.failure);
    let hash = "http://localhost:8000/__build_hash__";
    assert_eq!(
        actions,
        vec![
            Action::Enter { fixture: "static-files" },
            Action::Run(Command::Tool(Invocation::new(Subcommand::Build))),
            Action::Spawn(Command::Tool(Invocation::new(Subcommand::Start))),
            Action::Get { url: "http://localhost:8000", pause_ms: 100, restart: true },
            Action::Get {
                url: "http://localhost:8000/subdirectory/dummy.json",
                pause_ms: 0,
                restart: true
            },
            Action::Get { url: "http://localhost:8000/static-files.js", pause_ms: 0, restart: true },
            Action::Read(Location::artifact(Target::AsmjsEmscripten, "static-files")),
            Action::Get { url: hash, pause_ms: 0, restart: true },
            Action::Get { url: hash, pause_ms: 0, restart: true },
            Action::Touch(Location::Literal("src/main.rs")),
            Action::Get { url: hash, pause_ms: 100, restart: true },
            Action::Kill,
            Action::Leave,
            Action::Stop,
        ]
    );
}

#[test]
fn the_whole_run_passes_in_an_obliging_world() {
    for (nightly, count) in [(false, 33), (true, 38)] {
        let (runner, actions) = run_obligingly(plan(nightly));
        assert!(runner.passed(), "{:?} at {} {}", runner.failure, runner.scenario, runner.step);
        assert_eq!(runner.scenario, count);
        let entered = actions.iter().filter(|action| matches!(action, Action::Enter { .. })).count();
        let left = actions.iter().filter(|action| matches!(action, Action::Leave)).count();
        let killed = actions.iter().filter(|action| matches!(action, Action::Kill)).count();
        assert_eq!((entered, left, killed), (count, count, 1));
        assert_eq!(actions.last(), Some(&Action::Stop));
    }
}

#[test]
fn the_run_never_starts_a_native_build_without_nightly() {
    let (_, actions) = run_obligingly(plan(false));
    let mut commands = 0;
    for action in &actions {
        if let Action::Run(command) | Action::Spawn(command) = action {
            commands += 1;
            assert!(!command.argv().iter().any(|arg| arg.contains("wasm32-unknown-unknown")));
        }
    }
    assert_eq!(commands, 81);
}

#[test]
fn every_directory_entered_is_left_before_the_next() {
    let (_, actions) = run_obligingly(plan(true));
    let mut inside = false;
    let mut serving = false;
    for action in &actions {
        match action {
            Action::Enter { .. } => {
                assert!(!inside && !serving);
                inside = true;
            }
            Action::Leave => {
                assert!(inside && !serving);
                inside = false;
            }
            Action::Spawn(_) => {
                assert!(inside && !serving);
                serving = true;
            }
            Action::Kill => {
                assert!(serving);
                serving = false;
            }
            Action::Stop => assert!(!inside && !serving),
            _ => assert!(inside),
        }
    }
}

#[test]
fn a_run_that_has_not_failed_has_nothing_to_tell() {
    let runner = Runner::start(one("rlib", vec![build(Expect::Success)]));
    assert_eq!(runner.report(), None);
    let (runner, _) =
        drive(one("rlib", vec![build(Expect::Success)]), vec![Event::Done, exited(0), Event::Done]);
    assert_eq!(runner.report(), None);
}

#[test]
fn a_failed_run_tells_where_and_why() {
    let step = Step::tool(
        Invocation::new(Subcommand::Build).on(Target::Wasm32Emscripten),
        Expect::Success,
    );
    let scenarios = vec![
        Scenario { name: "first", steps: vec![build(Expect::Success)] },
        Scenario { name: "second", steps: vec![build(Expect::Success), step] },
    ];
    let (runner, _) = drive(
        scenarios,
        vec![Event::Done, exited(0), Event::Done, Event::Done, exited(0), exited(2), Event::Done],
    );
    assert_eq!(
        runner.report(),
        Some(Report {
            scenario: Some("second"),
            step: Some(step),
            target: Some(Target::Wasm32Emscripten),
            category: Category::Outcome,
            summary: "the process failed but should have succeeded",
        })
    );
}

#[test]
fn a_liveness_failure_is_told_as_one() {
    let steps = vec![Step::Await { url: "u", timeout_ms: 10, kind: None }];
    let (runner, _) = drive(one("down", steps.clone()), vec![Event::Done, silence(10), Event::Done]);
    assert_eq!(
        runner.report(),
        Some(Report {
            scenario: Some("down"),
            step: Some(steps[0]),
            target: None,
            category: Category::Liveness,
            summary: "the server never came up",
        })
    );
}

#[test]
fn steps_know_their_target() {
    let artifact = Location::artifact(Target::Wasm32Unknown, "cdylib");
    assert_eq!(build(Expect::Success).target(), None);
    assert_eq!(
        Step::tool(Invocation::new(Subcommand::Test).on(Target::AsmjsEmscripten), Expect::Failure)
            .target(),
        Some(Target::AsmjsEmscripten)
    );
    assert_eq!(Step::script(artifact).target(), Some(Target::Wasm32Unknown));
    assert_eq!(Step::script(Location::Literal("run.js")).target(), None);
    assert_eq!(Step::Exists { file: artifact }.target(), Some(Target::Wasm32Unknown));
    assert_eq!(Step::Contains { file: artifact, needle: "x" }.target(), Some(Target::Wasm32Unknown));
    assert_eq!(Step::Touch { file: Location::Literal("src/main.rs") }.target(), None);
    assert_eq!(
        Step::Fetch { url: "u", kind: None, body: Body::File(artifact) }.target(),
        Some(Target::Wasm32Unknown)
    );
    assert_eq!(Step::Fetch { url: "u", kind: None, body: Body::Any }.target(), None);
    assert_eq!(Step::AwaitChange { url: "u", timeout_ms: 1 }.target(), None);
}

#[test]
fn a_server_that_cannot_be_killed_fails_the_run() {
    let serve = Step::Serve { command: Command::Tool(Invocation::new(Subcommand::Start)) };
    let scenarios = vec![
        Scenario { name: "first", steps: vec![serve] },
        Scenario { name: "second", steps: vec![build(Expect::Success)] },
    ];
    let (runner, actions) =
        drive(scenarios, vec![Event::Done, Event::Done, Event::Unavailable, Event::Done]);
    assert_eq!(
        actions,
        vec![
            Action::Enter { fixture: "first" },
            Action::Spawn(Command::Tool(Invocation::new(Subcommand::Start))),
            Action::Kill,
            Action::Leave,
            Action::Stop,
        ]
    );
    assert_eq!(runner.failure, Some(Failure::Environment));
    assert!(!runner.passed());
}

#[test]
fn the_first_failure_is_the_one_that_is_kept() {
    let serve = Step::Serve { command: Command::Tool(Invocation::new(Subcommand::Start)) };
    let (runner, _) = drive(
        one("first", vec![serve, build(Expect::Success)]),
        vec![Event::Done, Event::Done, exited(3), Event::Unavailable, Event::Unavailable],
    );
    assert!(runner.is_finished());
    assert_eq!(
        runner.failure,
        Some(Failure::ShouldSucceed(ProcessOutcome {
            code: Some(3),
            stdout: Vec::new(),
            stderr: Vec::new()
        }))
    );
}
