//! The run itself: the fixed list of scenarios, in the order they are
//! carried out.

use crate::command::{Command, Invocation, Location, Subcommand};
use crate::http::{ContentKind, LIVENESS_TIMEOUT_MS};
use crate::outcome::Expect;
use crate::scenario::{views, Body, Scenario, ScenarioView, Step};
use crate::target::{each_target, targets_spec, Target};
use vstd::prelude::*;

verus! {

/// The steps of `body` for each target of the matrix, target after target.
pub open spec fn per_target(nightly: bool, body: spec_fn(Target) -> Seq<Step>) -> Seq<Step> {
    targets_spec(nightly).flat_map(body)
}

fn push_scenario(plan: &mut Vec<Scenario>, scenario: Scenario)
    ensures
        views(final(plan)@) == views(old(plan)@).push(scenario@),
{
    plan.push(scenario);
    assert(views(plan@) =~= views(old(plan)@).push(scenario@));
}

/// A scenario that carries out `body` once for each target of the matrix.
/// `model` says which steps `body` gives for a target.
fn matrix<F: Fn(Target) -> Vec<Step>>(
    name: &'static str,
    nightly: bool,
    body: F,
    Ghost(model): Ghost<spec_fn(Target) -> Seq<Step>>,
) -> (scenario: Scenario)
    requires
        forall|target: Target| call_requires(body, (target,)),
        forall|target: Target, steps: Vec<Step>|
            call_ensures(body, (target,), steps) ==> steps@ == model(target),
    ensures
        scenario@ == (ScenarioView { name, steps: per_target(nightly, model) }),
{
    let groups = each_target(nightly, body);
    let ghost matrix = targets_spec(nightly);
    let mut steps: Vec<Step> = Vec::new();
    let mut i: usize = 0;
    assert(matrix.take(0).flat_map(model) =~= Seq::<Step>::empty()) by {
        assert(matrix.take(0).map_values(model) =~= Seq::<Seq<Step>>::empty());
    }
    while i < groups.len()
        invariant
            matrix == targets_spec(nightly),
            groups@.len() == matrix.len(),
            i <= groups@.len(),
            forall|k: int| 0 <= k < matrix.len() ==> (#[trigger] groups@[k])@ == model(matrix[k]),
            steps@ == matrix.take(i as int).flat_map(model),
        decreases groups@.len() - i,
    {
        let group = &groups[i];
        let ghost before = steps@;
        let mut j: usize = 0;
        while j < group.len()
            invariant
                j <= group@.len(),
                steps@ == before + group@.take(j as int),
            decreases group@.len() - j,
        {
            steps.push(group[j]);
            assert(group@.take(j + 1) =~= group@.take(j as int).push(group@[j as int]));
            j += 1;
            assert(steps@ =~= before + group@.take(j as int));
        }
        proof {
            assert(group@.take(j as int) =~= group@);
            matrix.lemma_flat_map_take_append(model, i as int);
        }
        i += 1;
    }
    assert(matrix.take(i as int) =~= matrix);
    Scenario { name, steps }
}

/// One build for the target.
pub open spec fn build_body(expect: Expect) -> spec_fn(Target) -> Seq<Step> {
    |target: Target| seq![Step::tool(Invocation::new(Subcommand::Build).on(target), expect)]
}

/// A fixture that is built for every target of the matrix, each build ending
/// as expected.
pub open spec fn built_spec(name: &'static str, nightly: bool, expect: Expect) -> ScenarioView {
    ScenarioView { name, steps: per_target(nightly, build_body(expect)) }
}

/// A fixture that is built for every target of the matrix.
pub fn built(name: &'static str, nightly: bool, expect: Expect) -> (scenario: Scenario)
    ensures
        scenario@ == built_spec(name, nightly, expect),
{
    let body = |target: Target| -> (steps: Vec<Step>)
        ensures
            steps@ == build_body(expect)(target),
        {
            let steps = vec![Step::tool(Invocation::new(Subcommand::Build).on(target), expect)];
            assert(steps@ =~= build_body(expect)(target));
            steps
        };
    matrix(name, nightly, body, Ghost(build_body(expect)))
}

/// One test run under Node.js for the target, and the same once more: the
/// tests must pass on every run.
pub open spec fn test_twice_body() -> spec_fn(Target) -> Seq<Step> {
    |target: Target|
        seq![
            Step::tool(
                Invocation::new(Subcommand::Test).on(target).under_nodejs(),
                Expect::Success,
            ),
            Step::tool(
                Invocation::new(Subcommand::Test).on(target).under_nodejs(),
                Expect::Success,
            ),
        ]
}

/// A fixture whose tests pass, for every target of the matrix and on every
/// run.
pub open spec fn tested_twice_spec(name: &'static str, nightly: bool) -> ScenarioView {
    ScenarioView { name, steps: per_target(nightly, test_twice_body()) }
}

/// A fixture whose tests are run twice for every target of the matrix.
pub fn tested_twice(name: &'static str, nightly: bool) -> (scenario: Scenario)
    ensures
        scenario@ == tested_twice_spec(name, nightly),
{
    let body = |target: Target| -> (steps: Vec<Step>)
        ensures
            steps@ == test_twice_body()(target),
        {
            let call = Invocation::new(Subcommand::Test).on(target).under_nodejs();
            let steps = vec![Step::tool(call, Expect::Success), Step::tool(call, Expect::Success)];
            assert(steps@ =~= test_twice_body()(target));
            steps
        };
    matrix(name, nightly, body, Ghost(test_twice_body()))
}

/// One test run for the target, which must fail.
pub open spec fn failing_test_body(nodejs: bool) -> spec_fn(Target) -> Seq<Step> {
    |target: Target|
        seq![
            Step::tool(
                Invocation { nodejs, ..Invocation::new(Subcommand::Test).on(target) },
                Expect::Failure,
            ),
        ]
}

/// A fixture whose tests fail, or cannot be built, for every target of the
/// matrix.
pub open spec fn failing_tests_spec(name: &'static str, nightly: bool, nodejs: bool)
    -> ScenarioView {
    ScenarioView { name, steps: per_target(nightly, failing_test_body(nodejs)) }
}

/// A fixture whose tests must fail for every target of the matrix.
pub fn failing_tests(name: &'static str, nightly: bool, nodejs: bool) -> (scenario: Scenario)
    ensures
        scenario@ == failing_tests_spec(name, nightly, nodejs),
{
    let body = |target: Target| -> (steps: Vec<Step>)
        ensures
            steps@ == failing_test_body(nodejs)(target),
        {
            let call = Invocation { nodejs, ..Invocation::new(Subcommand::Test).on(target) };
            let steps = vec![Step::tool(call, Expect::Failure)];
            assert(steps@ =~= failing_test_body(nodejs)(target));
            steps
        };
    matrix(name, nightly, body, Ghost(failing_test_body(nodejs)))
}

/// The text that the fixtures put in front of their JavaScript.
pub open spec fn prelude_needle() -> &'static str {
    "alert('THIS IS A TEST');"
}

/// One build for the target, whose artifact must hold the text put in front.
pub open spec fn prepended_body(name: &'static str) -> spec_fn(Target) -> Seq<Step> {
    |target: Target|
        seq![
            Step::tool(Invocation::new(Subcommand::Build).on(target), Expect::Success),
            Step::Contains { file: Location::artifact(target, name), needle: prelude_needle() },
        ]
}

/// A fixture whose JavaScript prelude must show in the artifact of every
/// target of the matrix.
pub open spec fn prepended_spec(name: &'static str, nightly: bool) -> ScenarioView {
    ScenarioView { name, steps: per_target(nightly, prepended_body(name)) }
}

/// A fixture whose JavaScript prelude must show in every artifact.
pub fn prepended(name: &'static str, nightly: bool) -> (scenario: Scenario)
    ensures
        scenario@ == prepended_spec(name, nightly),
{
    let body = |target: Target| -> (steps: Vec<Step>)
        ensures
            steps@ == prepended_body(name)(target),
        {
            let steps = vec![
                Step::tool(Invocation::new(Subcommand::Build).on(target), Expect::Success),
                Step::Contains {
                    file: Location::artifact(target, name),
                    needle: "alert('THIS IS A TEST');",
                },
            ];
            assert(steps@ =~= prepended_body(name)(target));
            steps
        };
    matrix(name, nightly, body, Ghost(prepended_body(name)))
}

/// The name of the one package of the workspace fixture.
pub open spec fn child_package() -> &'static str {
    "child"
}

/// At the root of a workspace every subcommand fails unless a package is
/// chosen; with the package chosen it succeeds, and what `deploy` writes
/// lands below the root, not below the package.
pub open spec fn workspace_body() -> spec_fn(Target) -> Seq<Step> {
    |target: Target|
        seq![
            Step::tool(Invocation::new(Subcommand::Build), Expect::Failure),
            Step::tool(
                Invocation::new(Subcommand::Build).package(child_package()),
                Expect::Success,
            ),
            Step::tool(Invocation::new(Subcommand::Test), Expect::Failure),
            Step::tool(
                Invocation::new(Subcommand::Test).package(child_package()),
                Expect::Success,
            ),
            Step::tool(Invocation::new(Subcommand::Deploy), Expect::Failure),
            Step::tool(
                Invocation::new(Subcommand::Deploy).package(child_package()),
                Expect::Success,
            ),
            Step::Missing { file: Location::Literal("child/target/deploy") },
            Step::Exists { file: Location::Literal("target/deploy") },
        ]
}

/// The workspace fixture, gone through once for each target of the matrix.
pub open spec fn workspace_spec(name: &'static str, nightly: bool) -> ScenarioView {
    ScenarioView { name, steps: per_target(nightly, workspace_body()) }
}

/// The workspace fixture.
pub fn workspace(name: &'static str, nightly: bool) -> (scenario: Scenario)
    ensures
        scenario@ == workspace_spec(name, nightly),
{
    let body = |target: Target| -> (steps: Vec<Step>)
        ensures
            steps@ == workspace_body()(target),
        {
            let steps = vec![
                Step::tool(Invocation::new(Subcommand::Build), Expect::Failure),
                Step::tool(Invocation::new(Subcommand::Build).package("child"), Expect::Success),
                Step::tool(Invocation::new(Subcommand::Test), Expect::Failure),
                Step::tool(Invocation::new(Subcommand::Test).package("child"), Expect::Success),
                Step::tool(Invocation::new(Subcommand::Deploy), Expect::Failure),
                Step::tool(Invocation::new(Subcommand::Deploy).package("child"), Expect::Success),
                Step::Missing { file: Location::Literal("child/target/deploy") },
                Step::Exists { file: Location::Literal("target/deploy") },
            ];
            assert(steps@ =~= workspace_body()(target));
            steps
        };
    matrix(name, nightly, body, Ghost(workspace_body()))
}

/// A fixture built for the two Emscripten targets, whose artifacts must each
/// hold the text configured for that target; with a nightly toolchain the
/// native target must build too.
pub open spec fn linked_spec(
    name: &'static str,
    asmjs_needle: &'static str,
    wasm_needle: &'static str,
    native: bool,
) -> ScenarioView {
    ScenarioView {
        name,
        steps: seq![
            Step::tool(
                Invocation::new(Subcommand::Build).on(Target::AsmjsEmscripten),
                Expect::Success,
            ),
            Step::Contains {
                file: Location::artifact(Target::AsmjsEmscripten, name),
                needle: asmjs_needle,
            },
            Step::tool(
                Invocation::new(Subcommand::Build).on(Target::Wasm32Emscripten),
                Expect::Success,
            ),
            Step::Contains {
                file: Location::artifact(Target::Wasm32Emscripten, name),
                needle: wasm_needle,
            },
        ] + if native {
            seq![
                Step::tool(
                    Invocation::new(Subcommand::Build).on(Target::Wasm32Unknown),
                    Expect::Success,
                ),
            ]
        } else {
            Seq::empty()
        },
    }
}

/// A fixture whose artifacts must each hold the text configured for their
/// target.
pub fn linked(
    name: &'static str,
    asmjs_needle: &'static str,
    wasm_needle: &'static str,
    native: bool,
) -> (scenario: Scenario)
    ensures
        scenario@ == linked_spec(name, asmjs_needle, wasm_needle, native),
{
    let mut steps = vec![
        Step::tool(Invocation::new(Subcommand::Build).on(Target::AsmjsEmscripten), Expect::Success),
        Step::Contains {
            file: Location::artifact(Target::AsmjsEmscripten, name),
            needle: asmjs_needle,
        },
        Step::tool(
            Invocation::new(Subcommand::Build).on(Target::Wasm32Emscripten),
            Expect::Success,
        ),
        Step::Contains {
            file: Location::artifact(Target::Wasm32Emscripten, name),
            needle: wasm_needle,
        },
    ];
    if native {
        steps.push(
            Step::tool(
                Invocation::new(Subcommand::Build).on(Target::Wasm32Unknown),
                Expect::Success,
            ),
        );
    }
    assert(steps@ =~= linked_spec(name, asmjs_needle, wasm_needle, native).steps);
    Scenario { name, steps }
}

/// One build for `target`, if the target is in the matrix.
pub open spec fn gated_build(nightly: bool, target: Target, expect: Expect) -> Seq<Step> {
    if nightly || !target.needs_nightly_spec() {
        seq![Step::tool(Invocation::new(Subcommand::Build).on(target), expect)]
    } else {
        Seq::empty()
    }
}

/// A fixture with a dependency that holds for some targets only: two builds
/// for two targets, each ending in its own way. A build for a target that
/// is not in the matrix is left out.
pub open spec fn split_spec(
    name: &'static str,
    nightly: bool,
    first: (Target, Expect),
    second: (Target, Expect),
) -> ScenarioView {
    ScenarioView {
        name,
        steps: gated_build(nightly, first.0, first.1) + gated_build(nightly, second.0, second.1),
    }
}

/// A fixture that is built for two targets, each build ending in its own
/// way.
pub fn split(
    name: &'static str,
    nightly: bool,
    first: (Target, Expect),
    second: (Target, Expect),
) -> (scenario: Scenario)
    ensures
        scenario@ == split_spec(name, nightly, first, second),
{
    let mut steps: Vec<Step> = Vec::new();
    if nightly || !first.0.needs_nightly() {
        steps.push(Step::tool(Invocation::new(Subcommand::Build).on(first.0), first.1));
    }
    if nightly || !second.0.needs_nightly() {
        steps.push(Step::tool(Invocation::new(Subcommand::Build).on(second.0), second.1));
    }
    assert(steps@ =~= split_spec(name, nightly, first, second).steps);
    Scenario { name, steps }
}

/// A fixture that names its target itself: a plain build leaves the artifact
/// of that target; the tests, where the target has any to run, and a
/// deployment succeed too.
pub open spec fn defaulted_spec(name: &'static str, target: Target) -> ScenarioView {
    ScenarioView {
        name,
        steps: seq![
            Step::tool(Invocation::new(Subcommand::Build), Expect::Success),
            Step::Exists { file: Location::artifact(target, name) },
        ] + (if target.needs_nightly_spec() {
            Seq::empty()
        } else {
            seq![Step::tool(Invocation::new(Subcommand::Test), Expect::Success)]
        }) + seq![Step::tool(Invocation::new(Subcommand::Deploy), Expect::Success)],
    }
}

/// A fixture that names its target itself.
pub fn defaulted(name: &'static str, target: Target) -> (scenario: Scenario)
    ensures
        scenario@ == defaulted_spec(name, target),
{
    let mut steps = vec![
        Step::tool(Invocation::new(Subcommand::Build), Expect::Success),
        Step::Exists { file: Location::artifact(target, name) },
    ];
    if !target.needs_nightly() {
        steps.push(Step::tool(Invocation::new(Subcommand::Test), Expect::Success));
    }
    steps.push(Step::tool(Invocation::new(Subcommand::Deploy), Expect::Success));
    assert(steps@ =~= defaulted_spec(name, target).steps);
    Scenario { name, steps }
}

/// A fixture that names a target which does not exist: nothing works.
pub open spec fn misdirected_spec(name: &'static str) -> ScenarioView {
    ScenarioView {
        name,
        steps: seq![
            Step::tool(Invocation::new(Subcommand::Build), Expect::Failure),
            Step::tool(Invocation::new(Subcommand::Test), Expect::Failure),
            Step::tool(Invocation::new(Subcommand::Deploy), Expect::Failure),
        ],
    }
}

/// A fixture that names a target which does not exist.
pub fn misdirected(name: &'static str) -> (scenario: Scenario)
    ensures
        scenario@ == misdirected_spec(name),
{
    let steps = vec![
        Step::tool(Invocation::new(Subcommand::Build), Expect::Failure),
        Step::tool(Invocation::new(Subcommand::Test), Expect::Failure),
        Step::tool(Invocation::new(Subcommand::Deploy), Expect::Failure),
    ];
    assert(steps@ =~= misdirected_spec(name).steps);
    Scenario { name, steps }
}

/// A fixture for the native WebAssembly target: it is built, deployed if
/// asked, and then a script is run in the script runtime.
pub open spec fn native_spec(
    name: &'static str,
    build: Invocation,
    deploy: bool,
    script: Location,
) -> ScenarioView {
    ScenarioView {
        name,
        steps: seq![Step::tool(build, Expect::Success)] + (if deploy {
            seq![
                Step::tool(
                    Invocation::new(Subcommand::Deploy).on(Target::Wasm32Unknown),
                    Expect::Success,
                ),
            ]
        } else {
            Seq::empty()
        }) + seq![Step::script(script)],
    }
}

/// A fixture for the native WebAssembly target that ends with a script.
pub fn native(name: &'static str, build: Invocation, deploy: bool, script: Location) -> (scenario:
    Scenario)
    ensures
        scenario@ == native_spec(name, build, deploy, script),
{
    let mut steps = vec![Step::tool(build, Expect::Success)];
    if deploy {
        steps.push(
            Step::tool(
                Invocation::new(Subcommand::Deploy).on(Target::Wasm32Unknown),
                Expect::Success,
            ),
        );
    }
    steps.push(Step::script(script));
    assert(steps@ =~= native_spec(name, build, deploy, script).steps);
    Scenario { name, steps }
}

/// Where the development server listens.
pub open spec fn root_url() -> &'static str {
    "http://localhost:8000"
}

/// Where the development server tells the identity of the current build.
pub open spec fn build_hash_url() -> &'static str {
    "http://localhost:8000/__build_hash__"
}

/// The development server: it comes up within the time allowed, serves the
/// fixture's files with their content types, tells the same build identity
/// twice in a row, and another one after a source file was touched.
pub open spec fn served_spec(name: &'static str) -> ScenarioView {
    ScenarioView {
        name,
        steps: seq![
            Step::tool(Invocation::new(Subcommand::Build), Expect::Success),
            Step::Serve {
                command: Command::Tool(Invocation::new(Subcommand::Start)),
            },
            Step::Await {
                url: root_url(),
                timeout_ms: LIVENESS_TIMEOUT_MS,
                kind: Some(ContentKind::Html),
            },
            Step::Fetch {
                url: "http://localhost:8000/subdirectory/dummy.json",
                kind: Some(ContentKind::Json),
                body: Body::Text("{}"),
            },
            Step::Fetch {
                url: "http://localhost:8000/static-files.js",
                kind: Some(ContentKind::JavaScript),
                body: Body::File(Location::artifact(Target::AsmjsEmscripten, name)),
            },
            Step::Fetch { url: build_hash_url(), kind: None, body: Body::Remember },
            Step::Fetch { url: build_hash_url(), kind: None, body: Body::Remembered },
            Step::Touch { file: Location::Literal("src/main.rs") },
            Step::AwaitChange { url: build_hash_url(), timeout_ms: LIVENESS_TIMEOUT_MS },
        ],
    }
}

/// The development server scenario.
pub fn served(name: &'static str) -> (scenario: Scenario)
    ensures
        scenario@ == served_spec(name),
{
    let steps = vec![
        Step::tool(Invocation::new(Subcommand::Build), Expect::Success),
        Step::Serve { command: Command::Tool(Invocation::new(Subcommand::Start)) },
        Step::Await {
            url: "http://localhost:8000",
            timeout_ms: LIVENESS_TIMEOUT_MS,
            kind: Some(ContentKind::Html),
        },
        Step::Fetch {
            url: "http://localhost:8000/subdirectory/dummy.json",
            kind: Some(ContentKind::Json),
            body: Body::Text("{}"),
        },
        Step::Fetch {
            url: "http://localhost:8000/static-files.js",
            kind: Some(ContentKind::JavaScript),
            body: Body::File(Location::artifact(Target::AsmjsEmscripten, name)),
        },
        Step::Fetch {
            url: "http://localhost:8000/__build_hash__",
            kind: None,
            body: Body::Remember,
        },
        Step::Fetch {
            url: "http://localhost:8000/__build_hash__",
            kind: None,
            body: Body::Remembered,
        },
        Step::Touch { file: Location::Literal("src/main.rs") },
        Step::AwaitChange {
            url: "http://localhost:8000/__build_hash__",
            timeout_ms: LIVENESS_TIMEOUT_MS,
        },
    ];
    assert(steps@ =~= served_spec(name).steps);
    Scenario { name, steps }
}

/// The fixtures that build for every target.
pub open spec fn buildable_spec() -> Seq<&'static str> {
    seq![
        "rlib",
        "dev-depends-on-dylib",
        "staticlib",
        "workspace",
        "conflicting-versions",
        "requires-old-cargo-web",
        "req-future-cargo-web-disabled-dep",
        "req-future-cargo-web-dev-dep",
        "req-future-cargo-web-dep-dev-dep",
        "req-future-cargo-web-build-dep",
        "compiling-under-cargo-web-env-var",
        "depends-on-default-target-invalid",
    ]
}

/// The fixtures whose tests pass.
pub open spec fn tested_spec() -> Seq<&'static str> {
    seq!["crate-with-tests", "crate-with-integration-tests"]
}

/// The fixtures that ask for a later version of the build tool, themselves
/// or through a dependency, and so build for no target.
pub open spec fn unbuildable_spec() -> Seq<&'static str> {
    seq![
        "requires-future-cargo-web",
        "req-future-cargo-web-dep",
        "req-future-cargo-web-dep-dep",
        "req-future-cargo-web-dep-and-dev-dep",
    ]
}

/// The fixtures that build for every target.
pub fn buildable() -> (names: Vec<&'static str>)
    ensures
        names@ == buildable_spec(),
{
    let names = vec![
        "rlib",
        "dev-depends-on-dylib",
        "staticlib",
        "workspace",
        "conflicting-versions",
        "requires-old-cargo-web",
        "req-future-cargo-web-disabled-dep",
        "req-future-cargo-web-dev-dep",
        "req-future-cargo-web-dep-dev-dep",
        "req-future-cargo-web-build-dep",
        "compiling-under-cargo-web-env-var",
        "depends-on-default-target-invalid",
    ];
    assert(names@ =~= buildable_spec());
    names
}

/// The fixtures whose tests pass.
pub fn tested() -> (names: Vec<&'static str>)
    ensures
        names@ == tested_spec(),
{
    let names = vec!["crate-with-tests", "crate-with-integration-tests"];
    assert(names@ =~= tested_spec());
    names
}

/// The fixtures that build for no target.
pub fn unbuildable() -> (names: Vec<&'static str>)
    ensures
        names@ == unbuildable_spec(),
{
    let names = vec![
        "requires-future-cargo-web",
        "req-future-cargo-web-dep",
        "req-future-cargo-web-dep-dep",
        "req-future-cargo-web-dep-and-dev-dep",
    ];
    assert(names@ =~= unbuildable_spec());
    names
}

/// One build scenario for each of the fixtures, in their order.
pub open spec fn built_all(names: Seq<&'static str>, nightly: bool, expect: Expect) -> Seq<
    ScenarioView,
> {
    Seq::new(names.len(), |i: int| built_spec(names[i], nightly, expect))
}

/// One test scenario for each of the fixtures, in their order.
pub open spec fn tested_all(names: Seq<&'static str>, nightly: bool) -> Seq<ScenarioView> {
    Seq::new(names.len(), |i: int| tested_twice_spec(names[i], nightly))
}

fn push_built(plan: &mut Vec<Scenario>, names: &Vec<&'static str>, nightly: bool, expect: Expect)
    ensures
        views(final(plan)@) == views(old(plan)@) + built_all(names@, nightly, expect),
{
    let ghost all = built_all(names@, nightly, expect);
    let mut i: usize = 0;
    assert(views(plan@) =~= views(old(plan)@) + all.take(0));
    while i < names.len()
        invariant
            i <= names@.len(),
            all == built_all(names@, nightly, expect),
            views(plan@) == views(old(plan)@) + all.take(i as int),
        decreases names@.len() - i,
    {
        push_scenario(plan, built(names[i], nightly, expect));
        assert(all.take(i + 1) =~= all.take(i as int).push(all[i as int]));
        i += 1;
        assert(views(plan@) =~= views(old(plan)@) + all.take(i as int));
    }
    assert(all.take(i as int) =~= all);
}

fn push_tested(plan: &mut Vec<Scenario>, names: &Vec<&'static str>, nightly: bool)
    ensures
        views(final(plan)@) == views(old(plan)@) + tested_all(names@, nightly),
{
    let ghost all = tested_all(names@, nightly);
    let mut i: usize = 0;
    assert(views(plan@) =~= views(old(plan)@) + all.take(0));
    while i < names.len()
        invariant
            i <= names@.len(),
            all == tested_all(names@, nightly),
            views(plan@) == views(old(plan)@) + all.take(i as int),
        decreases names@.len() - i,
    {
        push_scenario(plan, tested_twice(names[i], nightly));
        assert(all.take(i + 1) =~= all.take(i as int).push(all[i as int]));
        i += 1;
        assert(views(plan@) =~= views(old(plan)@) + all.take(i as int));
    }
    assert(all.take(i as int) =~= all);
}

/// Fixtures whose requirements on the build tool decide whether they build:
/// one that builds for one target only, those that build for none, and one
/// whose tests cannot be built.
pub open spec fn requirements_spec(nightly: bool) -> Seq<ScenarioView> {
    seq![
        split_spec(
            "req-future-cargo-web-target-dep",
            nightly,
            (Target::AsmjsEmscripten, Expect::Success),
            (Target::Wasm32Emscripten, Expect::Failure),
        ),
    ] + built_all(unbuildable_spec(), nightly, Expect::Failure) + seq![
        failing_tests_spec("req-future-cargo-web-dev-dep", nightly, false),
    ]
}

/// Fixtures that configure what is handed to the linker, and what is put in
/// front of the JavaScript.
pub open spec fn configured_spec(nightly: bool) -> Seq<ScenarioView> {
    seq![
        linked_spec(
            "link-args-per-target",
            "CustomExportNameAsmJs",
            "CustomExportNameWasm",
            nightly,
        ),
        linked_spec(
            "link-args-for-emscripten",
            "CustomExportNameEmscripten",
            "CustomExportNameEmscripten",
            nightly,
        ),
        prepended_spec("prepend-js", nightly),
        linked_spec(
            "depends-on-prepend-js-two-targets",
            prelude_needle(),
            prelude_needle(),
            false,
        ),
    ]
}

/// Fixtures that name their target themselves.
pub open spec fn defaulted_all_spec() -> Seq<ScenarioView> {
    seq![
        defaulted_spec("default-target-asmjs-unknown-emscripten", Target::AsmjsEmscripten),
        defaulted_spec("default-target-wasm32-unknown-emscripten", Target::Wasm32Emscripten),
        misdirected_spec("default-target-invalid"),
    ]
}

/// Fixtures for the native WebAssembly target alone: they are part of the
/// run only with a nightly toolchain.
pub open spec fn native_all_spec(nightly: bool) -> Seq<ScenarioView> {
    if nightly {
        seq![
            native_spec(
                "native-webasm",
                Invocation::new(Subcommand::Build).on(Target::Wasm32Unknown),
                false,
                Location::Literal("run.js"),
            ),
            native_spec(
                "cdylib",
                Invocation::new(Subcommand::Build).on(Target::Wasm32Unknown),
                true,
                Location::artifact(Target::Wasm32Unknown, "cdylib"),
            ),
            defaulted_spec("default-target-wasm32-unknown-unknown", Target::Wasm32Unknown),
            native_spec(
                "prepend-js-includable-only-once",
                Invocation::new(Subcommand::Build).on(Target::Wasm32Unknown).optimised(),
                false,
                Location::artifact(Target::Wasm32Unknown, "prepend-js-includable-only-once"),
            ),
        ]
    } else {
        Seq::empty()
    }
}

/// The development server, the workspace, and the fixtures whose
/// dependencies hold for some targets only.
pub open spec fn scoped_spec(nightly: bool) -> Seq<ScenarioView> {
    seq![
        served_spec("static-files"),
        workspace_spec("virtual-manifest", nightly),
        split_spec(
            "req-future-cargo-web-cfg-dep",
            nightly,
            (Target::Wasm32Unknown, Expect::Success),
            (Target::Wasm32Emscripten, Expect::Failure),
        ),
        split_spec(
            "req-future-cargo-web-cfg-not-dep",
            nightly,
            (Target::Wasm32Unknown, Expect::Failure),
            (Target::Wasm32Emscripten, Expect::Success),
        ),
    ]
}

/// A fixture whose tests fail for the native WebAssembly target.
pub open spec fn failing_native_spec(name: &'static str) -> ScenarioView {
    ScenarioView { name, steps: failing_test_body(true)(Target::Wasm32Unknown) }
}

/// A fixture whose tests fail for the native WebAssembly target.
pub fn failing_native(name: &'static str) -> (scenario: Scenario)
    ensures
        scenario@ == failing_native_spec(name),
{
    let steps = vec![
        Step::tool(
            Invocation::new(Subcommand::Test).on(Target::Wasm32Unknown).under_nodejs(),
            Expect::Failure,
        ),
    ];
    assert(steps@ =~= failing_native_spec(name).steps);
    Scenario { name, steps }
}

/// Fixtures whose tests fail.
pub open spec fn failing_all_spec(nightly: bool) -> Seq<ScenarioView> {
    seq![
        failing_tests_spec("failing-test", nightly, true),
        failing_tests_spec("failing-integration-test", nightly, true),
    ] + if nightly {
        seq![failing_native_spec("failing-integration-test-crate-types")]
    } else {
        Seq::empty()
    }
}

/// The whole run, in order.
pub open spec fn plan_spec(nightly: bool) -> Seq<ScenarioView> {
    built_all(buildable_spec(), nightly, Expect::Success) + tested_all(tested_spec(), nightly)
        + requirements_spec(nightly) + configured_spec(nightly) + defaulted_all_spec()
        + native_all_spec(nightly) + scoped_spec(nightly) + failing_all_spec(nightly)
}

fn push_requirements(plan: &mut Vec<Scenario>, nightly: bool)
    ensures
        views(final(plan)@) == views(old(plan)@) + requirements_spec(nightly),
{
    push_scenario(
        plan,
        split(
            "req-future-cargo-web-target-dep",
            nightly,
            (Target::AsmjsEmscripten, Expect::Success),
            (Target::Wasm32Emscripten, Expect::Failure),
        ),
    );
    let names = unbuildable();
    push_built(plan, &names, nightly, Expect::Failure);
    push_scenario(plan, failing_tests("req-future-cargo-web-dev-dep", nightly, false));
    assert(views(plan@) =~= views(old(plan)@) + requirements_spec(nightly));
}

fn push_configured(plan: &mut Vec<Scenario>, nightly: bool)
    ensures
        views(final(plan)@) == views(old(plan)@) + configured_spec(nightly),
{
    push_scenario(
        plan,
        linked("link-args-per-target", "CustomExportNameAsmJs", "CustomExportNameWasm", nightly),
    );
    push_scenario(
        plan,
        linked(
            "link-args-for-emscripten",
            "CustomExportNameEmscripten",
            "CustomExportNameEmscripten",
            nightly,
        ),
    );
    push_scenario(plan, prepended("prepend-js", nightly));
    push_scenario(
        plan,
        linked(
            "depends-on-prepend-js-two-targets",
            "alert('THIS IS A TEST');",
            "alert('THIS IS A TEST');",
            false,
        ),
    );
    assert(views(plan@) =~= views(old(plan)@) + configured_spec(nightly));
}

fn push_defaulted(plan: &mut Vec<Scenario>)
    ensures
        views(final(plan)@) == views(old(plan)@) + defaulted_all_spec(),
{
    push_scenario(
        plan,
        defaulted("default-target-asmjs-unknown-emscripten", Target::AsmjsEmscripten),
    );
    push_scenario(
        plan,
        defaulted("default-target-wasm32-unknown-emscripten", Target::Wasm32Emscripten),
    );
    push_scenario(plan, misdirected("default-target-invalid"));
    assert(views(plan@) =~= views(old(plan)@) + defaulted_all_spec());
}

fn push_native(plan: &mut Vec<Scenario>, nightly: bool)
    ensures
        views(final(plan)@) == views(old(plan)@) + native_all_spec(nightly),
{
    if nightly {
        let build = Invocation::new(Subcommand::Build).on(Target::Wasm32Unknown);
        push_scenario(plan, native("native-webasm", build, false, Location::Literal("run.js")));
        push_scenario(
            plan,
            native("cdylib", build, true, Location::artifact(Target::Wasm32Unknown, "cdylib")),
        );
        push_scenario(
            plan,
            defaulted("default-target-wasm32-unknown-unknown", Target::Wasm32Unknown),
        );
        push_scenario(
            plan,
            native(
                "prepend-js-includable-only-once",
                build.optimised(),
                false,
                Location::artifact(Target::Wasm32Unknown, "prepend-js-includable-only-once"),
            ),
        );
    }
    assert(views(plan@) =~= views(old(plan)@) + native_all_spec(nightly));
}

fn push_scoped(plan: &mut Vec<Scenario>, nightly: bool)
    ensures
        views(final(plan)@) == views(old(plan)@) + scoped_spec(nightly),
{
    push_scenario(plan, served("static-files"));
    push_scenario(plan, workspace("virtual-manifest", nightly));
    push_scenario(
        plan,
        split(
            "req-future-cargo-web-cfg-dep",
            nightly,
            (Target::Wasm32Unknown, Expect::Success),
            (Target::Wasm32Emscripten, Expect::Failure),
        ),
    );
    push_scenario(
        plan,
        split(
            "req-future-cargo-web-cfg-not-dep",
            nightly,
            (Target::Wasm32Unknown, Expect::Failure),
            (Target::Wasm32Emscripten, Expect::Success),
        ),
    );
    assert(views(plan@) =~= views(old(plan)@) + scoped_spec(nightly));
}

fn push_failing(plan: &mut Vec<Scenario>, nightly: bool)
    ensures
        views(final(plan)@) == views(old(plan)@) + failing_all_spec(nightly),
{
    push_scenario(plan, failing_tests("failing-test", nightly, true));
    push_scenario(plan, failing_tests("failing-integration-test", nightly, true));
    if nightly {
        push_scenario(plan, failing_native("failing-integration-test-crate-types"));
    }
    assert(views(plan@) =~= views(old(plan)@) + failing_all_spec(nightly));
}

/// The scenarios of a run, in the order they are carried out. `nightly` says
/// whether a nightly toolchain is there: without one, nothing in the run
/// names the native WebAssembly target.
pub fn plan(nightly: bool) -> (scenarios: Vec<Scenario>)
    ensures
        views(scenarios@) == plan_spec(nightly),
        scenarios@.len() == plan_spec(nightly).len(),
        forall|i: int|
            0 <= i < scenarios@.len() ==> (#[trigger] scenarios@[i])@ == plan_spec(nightly)[i],
{
    let mut scenarios: Vec<Scenario> = Vec::new();
    assert(views(scenarios@) =~= Seq::<ScenarioView>::empty());
    let names = buildable();
    push_built(&mut scenarios, &names, nightly, Expect::Success);
    let names = tested();
    push_tested(&mut scenarios, &names, nightly);
    push_requirements(&mut scenarios, nightly);
    push_configured(&mut scenarios, nightly);
    push_defaulted(&mut scenarios);
    push_native(&mut scenarios, nightly);
    push_scoped(&mut scenarios, nightly);
    push_failing(&mut scenarios, nightly);
    assert(views(scenarios@) =~= plan_spec(nightly));
    assert forall|i: int| 0 <= i < scenarios@.len() implies (#[trigger] scenarios@[i])@
        == plan_spec(nightly)[i] by {
        assert(views(scenarios@)[i] == scenarios@[i]@);
    }
    scenarios
}

} // verus!
