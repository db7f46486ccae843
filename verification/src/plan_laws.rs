//! What holds of the run as a whole.

use crate::command::{lemma_argv_names, Command, Invocation, Location, Subcommand};
use crate::outcome::Expect;
use crate::plan::{
    build_body, buildable_spec, built_all, built_spec, child_package, configured_spec,
    defaulted_all_spec,
    failing_all_spec, failing_test_body, failing_tests_spec, linked_spec, native_all_spec,
    per_target, plan_spec, prepended_body, prepended_spec, requirements_spec, scoped_spec,
    served_spec, split_spec, test_twice_body, tested_all, tested_spec, tested_twice_spec,
    unbuildable_spec, workspace_body, workspace_spec,
};
use crate::scenario::{ScenarioView, Step};
use crate::target::{targets_spec, Target};
use vstd::prelude::*;

verus! {

/// The steps of a matrix scenario, written out: those for the two
/// Emscripten targets, and after them those for the native target if a
/// nightly toolchain is there.
pub proof fn lemma_per_target(nightly: bool, body: spec_fn(Target) -> Seq<Step>)
    ensures
        per_target(nightly, body) =~= body(Target::AsmjsEmscripten) + body(
            Target::Wasm32Emscripten,
        ) + if nightly {
            body(Target::Wasm32Unknown)
        } else {
            Seq::empty()
        },
{
    let matrix = targets_spec(nightly);
    assert(matrix.take(0).map_values(body) =~= Seq::<Seq<Step>>::empty());
    assert(matrix.take(0).flat_map(body) =~= Seq::<Step>::empty());
    matrix.lemma_flat_map_take_append(body, 0);
    matrix.lemma_flat_map_take_append(body, 1);
    if nightly {
        matrix.lemma_flat_map_take_append(body, 2);
    }
    assert(matrix.take(matrix.len() as int) =~= matrix);
}

/// The run is a fixed list: thirty-three scenarios, and five more with a
/// nightly toolchain.
pub proof fn lemma_plan_len(nightly: bool)
    ensures
        plan_spec(nightly).len() == if nightly {
            38nat
        } else {
            33nat
        },
{
}

/// Every step of the scenario runs a process and expects it to end as
/// `expect` says.
pub open spec fn all_expect(scenario: ScenarioView, expect: Expect) -> bool {
    forall|j: int|
        0 <= j < scenario.steps.len() ==> (#[trigger] scenario.steps[j] matches Step::Run {
            expect: expected,
            ..
        } && expected == expect)
}

/// No scenario of the list has a step that names `target`.
pub open spec fn all_avoid(scenarios: Seq<ScenarioView>, target: Target) -> bool {
    forall|i: int| 0 <= i < scenarios.len() ==> (#[trigger] scenarios[i]).avoids(target)
}

/// A fixture that should build is built for every target of the matrix, and
/// so for the two Emscripten targets whatever the toolchain; each of these
/// builds is expected to end with exit code 0, and the scenario expects
/// nothing else.
pub proof fn lemma_buildable_succeed(nightly: bool, i: int, target: Target)
    requires
        0 <= i < buildable_spec().len(),
        nightly || !target.needs_nightly_spec(),
    ensures
        plan_spec(nightly)[i] == built_spec(buildable_spec()[i], nightly, Expect::Success),
        plan_spec(nightly)[i].steps.contains(
            Step::tool(Invocation::new(Subcommand::Build).on(target), Expect::Success),
        ),
        all_expect(plan_spec(nightly)[i], Expect::Success),
{
    let scenario = built_spec(buildable_spec()[i], nightly, Expect::Success);
    lemma_built(buildable_spec()[i], nightly, Expect::Success, target);
    assert(built_all(buildable_spec(), nightly, Expect::Success)[i] == scenario);
    assert(plan_spec(nightly)[i] == scenario);
}

/// A build scenario has one step for each target of the matrix: a build for
/// that target that is expected to end as the scenario says.
pub proof fn lemma_built(name: &'static str, nightly: bool, expect: Expect, target: Target)
    requires
        nightly || !target.needs_nightly_spec(),
    ensures
        built_spec(name, nightly, expect).steps.len() == targets_spec(nightly).len(),
        built_spec(name, nightly, expect).steps.contains(
            Step::tool(Invocation::new(Subcommand::Build).on(target), expect),
        ),
        all_expect(built_spec(name, nightly, expect), expect),
        !nightly ==> built_spec(name, nightly, expect).avoids(Target::Wasm32Unknown),
{
    let steps = built_spec(name, nightly, expect).steps;
    lemma_per_target(nightly, build_body(expect));
    let k: int = match target {
        Target::AsmjsEmscripten => 0,
        Target::Wasm32Emscripten => 1,
        Target::Wasm32Unknown => 2,
    };
    assert(steps[k] == Step::tool(Invocation::new(Subcommand::Build).on(target), expect));
}

/// A fixture with a broken configuration builds for no target: every build
/// of its scenario, one for each target of the matrix, is expected to end
/// with another exit code than 0.
pub proof fn lemma_unbuildable_fail(nightly: bool, i: int, target: Target)
    requires
        0 <= i < unbuildable_spec().len(),
        nightly || !target.needs_nightly_spec(),
    ensures
        plan_spec(nightly)[15 + i] == built_spec(unbuildable_spec()[i], nightly, Expect::Failure),
        plan_spec(nightly)[15 + i].steps.contains(
            Step::tool(Invocation::new(Subcommand::Build).on(target), Expect::Failure),
        ),
        all_expect(plan_spec(nightly)[15 + i], Expect::Failure),
{
    let scenario = built_spec(unbuildable_spec()[i], nightly, Expect::Failure);
    lemma_built(unbuildable_spec()[i], nightly, Expect::Failure, target);
    assert(built_all(unbuildable_spec(), nightly, Expect::Failure)[i] == scenario);
    assert(requirements_spec(nightly)[1 + i] == scenario);
    assert(plan_spec(nightly)[15 + i] == scenario);
}

/// A scenario of failing tests expects every test run, one for each target
/// of the matrix, to end with another exit code than 0.
pub proof fn lemma_failing_tests(name: &'static str, nightly: bool, nodejs: bool)
    ensures
        failing_tests_spec(name, nightly, nodejs).steps.len() == targets_spec(nightly).len(),
        all_expect(failing_tests_spec(name, nightly, nodejs), Expect::Failure),
        !nightly ==> failing_tests_spec(name, nightly, nodejs).avoids(Target::Wasm32Unknown),
{
    lemma_per_target(nightly, failing_test_body(nodejs));
}

/// Tests that pass, pass again: for each target of the matrix the scenario
/// runs the same tests twice in a row, and expects exit code 0 both times.
pub proof fn lemma_tests_run_twice(name: &'static str, nightly: bool, k: int)
    requires
        0 <= k < targets_spec(nightly).len(),
    ensures
        tested_twice_spec(name, nightly).steps.len() == 2 * targets_spec(nightly).len(),
        tested_twice_spec(name, nightly).steps[2 * k] == Step::tool(
            Invocation::new(Subcommand::Test).on(targets_spec(nightly)[k]).under_nodejs(),
            Expect::Success,
        ),
        tested_twice_spec(name, nightly).steps[2 * k + 1] == tested_twice_spec(
            name,
            nightly,
        ).steps[2 * k],
        all_expect(tested_twice_spec(name, nightly), Expect::Success),
        !nightly ==> tested_twice_spec(name, nightly).avoids(Target::Wasm32Unknown),
{
    lemma_per_target(nightly, test_twice_body());
}

/// The scenarios of the fixtures whose tests pass stand in the run right
/// after the build scenarios.
pub proof fn lemma_tested_in_plan(nightly: bool, i: int)
    requires
        0 <= i < tested_spec().len(),
    ensures
        plan_spec(nightly)[12 + i] == tested_twice_spec(tested_spec()[i], nightly),
{
    assert(tested_all(tested_spec(), nightly)[i] == tested_twice_spec(tested_spec()[i], nightly));
}

/// What is configured for one target shows in that target's artifact: the
/// scenario looks for each text in the artifact of its own target, and the
/// two artifacts are different files.
pub proof fn lemma_linked(
    name: &'static str,
    asmjs_needle: &'static str,
    wasm_needle: &'static str,
    native: bool,
)
    ensures
        linked_spec(name, asmjs_needle, wasm_needle, native).steps[1] == (Step::Contains {
            file: Location::artifact(Target::AsmjsEmscripten, name),
            needle: asmjs_needle,
        }),
        linked_spec(name, asmjs_needle, wasm_needle, native).steps[3] == (Step::Contains {
            file: Location::artifact(Target::Wasm32Emscripten, name),
            needle: wasm_needle,
        }),
        Location::artifact(Target::AsmjsEmscripten, name).path_spec() != Location::artifact(
            Target::Wasm32Emscripten,
            name,
        ).path_spec(),
        !native ==> linked_spec(name, asmjs_needle, wasm_needle, native).avoids(
            Target::Wasm32Unknown,
        ),
{
    reveal_strlit("target/");
    reveal_strlit("asmjs-unknown-emscripten");
    reveal_strlit("wasm32-unknown-emscripten");
    let a = Location::artifact(Target::AsmjsEmscripten, name).path_spec();
    let w = Location::artifact(Target::Wasm32Emscripten, name).path_spec();
    assert(a[7] == 'a');
    assert(w[7] == 'w');
}

/// Workspace scoping. At the root of a workspace a subcommand is expected
/// to succeed exactly if a package is chosen, and what is deployed must be
/// below the root and not below the package.
pub proof fn lemma_workspace(name: &'static str, nightly: bool, target: Target, j: int)
    requires
        0 <= j < 6,
    ensures
        workspace_body()(target).len() == 8,
        workspace_body()(target)[j] matches Step::Run { command: Command::Tool(call), expect }
            && (expect == Expect::Success <==> call.package is Some) && call.target is None,
        workspace_body()(target)[6] == (Step::Missing {
            file: Location::Literal("child/target/deploy"),
        }),
        workspace_body()(target)[7] == (Step::Exists { file: Location::Literal("target/deploy") }),
        workspace_spec(name, nightly).steps.len() == 8 * targets_spec(nightly).len(),
        workspace_spec(name, nightly).avoids(Target::Wasm32Unknown),
{
    lemma_per_target(nightly, workspace_body());
    reveal_strlit("child");
    reveal_strlit("wasm32-unknown-unknown");
    assert(child_package()@.len() == 5);
    assert(Target::Wasm32Unknown.triple_spec().len() == 22);
}

/// A scenario that looks for the JavaScript prelude does so in the artifact
/// of each target of the matrix, right after the build for that target.
pub proof fn lemma_prepended(name: &'static str, nightly: bool, k: int)
    requires
        0 <= k < targets_spec(nightly).len(),
    ensures
        prepended_spec(name, nightly).steps.len() == 2 * targets_spec(nightly).len(),
        prepended_spec(name, nightly).steps[2 * k] == Step::tool(
            Invocation::new(Subcommand::Build).on(targets_spec(nightly)[k]),
            Expect::Success,
        ),
        prepended_spec(name, nightly).steps[2 * k + 1] == prepended_body(name)(
            targets_spec(nightly)[k],
        )[1],
        !nightly ==> prepended_spec(name, nightly).avoids(Target::Wasm32Unknown),
{
    lemma_per_target(nightly, prepended_body(name));
}

/// Capability gating, scenario by scenario: a build for a target that is
/// not in the matrix is left out.
pub proof fn lemma_split(
    name: &'static str,
    nightly: bool,
    first: (Target, Expect),
    second: (Target, Expect),
)
    ensures
        !nightly ==> split_spec(name, nightly, first, second).avoids(Target::Wasm32Unknown),
{
}

/// Capability gating. A target that needs a nightly toolchain is named by
/// no step of a run without one: no command is given it after `--target`,
/// no script is run from its directory, and no artifact of it is looked at.
pub proof fn lemma_plan_gate(nightly: bool, target: Target)
    requires
        target.needs_nightly_spec(),
        !nightly,
    ensures
        all_avoid(plan_spec(nightly), target),
{
    let builds = built_all(buildable_spec(), nightly, Expect::Success);
    assert(all_avoid(builds, target)) by {
        assert forall|i: int| 0 <= i < builds.len() implies (#[trigger] builds[i]).avoids(
            target,
        ) by {
            lemma_built(buildable_spec()[i], nightly, Expect::Success, Target::AsmjsEmscripten);
        }
    }
    let tests = tested_all(tested_spec(), nightly);
    assert(all_avoid(tests, target)) by {
        assert forall|i: int| 0 <= i < tests.len() implies (#[trigger] tests[i]).avoids(
            target,
        ) by {
            lemma_tests_run_twice(tested_spec()[i], nightly, 0);
        }
    }
    let requirements = requirements_spec(nightly);
    assert(all_avoid(requirements, target)) by {
        let broken = built_all(unbuildable_spec(), nightly, Expect::Failure);
        assert forall|i: int| 0 <= i < requirements.len() implies (
        #[trigger] requirements[i]).avoids(target) by {
            if 1 <= i < 5 {
                lemma_built(
                    unbuildable_spec()[i - 1],
                    nightly,
                    Expect::Failure,
                    Target::AsmjsEmscripten,
                );
                assert(requirements[i] == broken[i - 1]);
            } else if i == 5 {
                lemma_failing_tests("req-future-cargo-web-dev-dep", nightly, false);
            }
        }
    }
    let configured = configured_spec(nightly);
    assert(all_avoid(configured, target)) by {
        lemma_prepended("prepend-js", nightly, 0);
    }
    let defaulted = defaulted_all_spec();
    assert(all_avoid(defaulted, target));
    let scoped = scoped_spec(nightly);
    assert(all_avoid(scoped, target)) by {
        lemma_workspace("virtual-manifest", nightly, Target::AsmjsEmscripten, 0);
        assert(served_spec("static-files").avoids(target));
    }
    let failing = failing_all_spec(nightly);
    assert(all_avoid(failing, target)) by {
        lemma_failing_tests("failing-test", nightly, true);
        lemma_failing_tests("failing-integration-test", nightly, true);
    }
    assert(native_all_spec(nightly) =~= Seq::<ScenarioView>::empty());
}

/// Capability gating, on the command line. In a run without a nightly
/// toolchain no command has the triple of a target that needs one among its
/// arguments.
pub proof fn lemma_gated_argument(nightly: bool, target: Target, i: int, j: int)
    requires
        target.needs_nightly_spec(),
        !nightly,
        0 <= i < plan_spec(nightly).len(),
        0 <= j < plan_spec(nightly)[i].steps.len(),
    ensures
        plan_spec(nightly)[i].steps[j].command_spec() matches Some(command)
            ==> !command.argv_spec().contains(target.triple_spec()),
{
    lemma_plan_gate(nightly, target);
    let step = plan_spec(nightly)[i].steps[j];
    assert(plan_spec(nightly)[i].avoids(target));
    assert(!step.mentions(target));
    if let Some(command) = step.command_spec() {
        lemma_argv_names(command, target);
    }
}

/// Capability gating, the other way round: with a nightly toolchain the
/// native target is exercised, by the first scenario of the run already.
pub proof fn lemma_native_exercised(nightly: bool, target: Target)
    requires
        nightly,
    ensures
        plan_spec(nightly)[0].steps.contains(
            Step::tool(Invocation::new(Subcommand::Build).on(target), Expect::Success),
        ),
        Step::tool(Invocation::new(Subcommand::Build).on(target), Expect::Success).mentions(
            target,
        ),
{
    lemma_buildable_succeed(nightly, 0, target);
}

/// The steps of a matrix scenario without a nightly toolchain are the first
/// steps of the same scenario with one.
pub proof fn lemma_matrix_grows(body: spec_fn(Target) -> Seq<Step>)
    ensures
        per_target(false, body).is_prefix_of(per_target(true, body)),
{
    lemma_per_target(false, body);
    lemma_per_target(true, body);
}

} // verus!
