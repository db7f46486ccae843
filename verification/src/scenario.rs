//! Steps and scenarios: what a run is made of.

use crate::command::{Command, Invocation, Location};
use crate::http::ContentKind;
use crate::outcome::Expect;
use crate::target::Target;
use vstd::prelude::*;
use vstd::string::StringExecFns;

verus! {

/// What the body of a fetched response must be.
#[derive(Clone, Copy, Debug, PartialEq, Eq)]
pub enum Body {
    /// Anything.
    Any,
    /// This text, byte for byte.
    Text(&'static str),
    /// What this file holds, byte for byte.
    File(Location),
    /// Anything; the body is remembered for later steps of the scenario.
    Remember,
    /// The body that was remembered.
    Remembered,
}

/// One step of a scenario: one thing to do, and what must come of it.
#[derive(Clone, Copy, Debug, PartialEq, Eq)]
pub enum Step {
    /// Run the command until it ends; it must end as expected.
    Run { command: Command, expect: Expect },
    /// The file must be there and hold the text.
    Contains { file: Location, needle: &'static str },
    /// The file or directory must be there.
    Exists { file: Location },
    /// The file or directory must not be there.
    Missing { file: Location },
    /// Set the file's modification time to now.
    Touch { file: Location },
    /// Start the command and leave it running until the scenario ends.
    Serve { command: Command },
    /// Ask until the server responds or the time is up; the response must
    /// have status 200 and, if a kind is given, that kind.
    Await { url: &'static str, timeout_ms: u64, kind: Option<ContentKind> },
    /// Ask once; the response must have status 200, the kind if one is
    /// given, and the body.
    Fetch { url: &'static str, kind: Option<ContentKind>, body: Body },
    /// Ask until the body differs from the remembered one or the time is up;
    /// every response must have status 200.
    AwaitChange { url: &'static str, timeout_ms: u64 },
}

impl Step {
    pub open spec fn tool_spec(call: Invocation, expect: Expect) -> Step {
        Step::Run { command: Command::Tool(call), expect }
    }

    pub open spec fn script_spec(script: Location) -> Step {
        Step::Run { command: Command::Script(script), expect: Expect::Success }
    }

    /// Run the build tool; it must end as expected.
    #[verifier::when_used_as_spec(tool_spec)]
    pub fn tool(call: Invocation, expect: Expect) -> (step: Step)
        ensures
            step == Step::tool_spec(call, expect),
    {
        Step::Run { command: Command::Tool(call), expect }
    }

    /// Run a script in the script runtime; it must succeed.
    #[verifier::when_used_as_spec(script_spec)]
    pub fn script(script: Location) -> (step: Step)
        ensures
            step == Step::script_spec(script),
    {
        Step::Run { command: Command::Script(script), expect: Expect::Success }
    }

    /// The file that the step looks at or changes, if it has one.
    pub open spec fn file_spec(self) -> Option<Location> {
        match self {
            Step::Contains { file, .. } => Some(file),
            Step::Exists { file } => Some(file),
            Step::Missing { file } => Some(file),
            Step::Touch { file } => Some(file),
            Step::Fetch { body: Body::File(file), .. } => Some(file),
            _ => None,
        }
    }

    /// The command that the step starts, if it starts one.
    pub open spec fn command_spec(self) -> Option<Command> {
        match self {
            Step::Run { command, .. } => Some(command),
            Step::Serve { command } => Some(command),
            _ => None,
        }
    }

    /// A step can be carried out if every path in it is relative.
    pub open spec fn usable_spec(self) -> bool {
        &&& self.file_spec() matches Some(file) ==> file.relative_spec()
        &&& self.command_spec() matches Some(command) ==> command.usable_spec()
    }

    /// The step names `target`: in the command it starts, or in the path of
    /// the artifact it looks at.
    pub open spec fn mentions(self, target: Target) -> bool {
        ||| self.command_spec() matches Some(command) && command.names(target)
        ||| self.file_spec() matches Some(Location::Artifact { target: named, .. }) && named
            == target
    }

    /// The target that the step is about: the one after `--target`, or
    /// else the one whose artifact the step runs or looks at.
    pub open spec fn target_spec(self) -> Option<Target> {
        match self.command_spec() {
            Some(Command::Tool(call)) => call.target,
            Some(Command::Script(Location::Artifact { target, .. })) => Some(target),
            Some(Command::Script(Location::Literal(_))) => None,
            None => match self.file_spec() {
                Some(Location::Artifact { target, .. }) => Some(target),
                _ => None,
            },
        }
    }

    /// The target that the step is about, if it is about one.
    pub fn target(&self) -> (target: Option<Target>)
        ensures
            target == self.target_spec(),
    {
        match self {
            Step::Run { command, .. } | Step::Serve { command } => match command {
                Command::Tool(call) => call.target,
                Command::Script(Location::Artifact { target, .. }) => Some(*target),
                Command::Script(Location::Literal(_)) => None,
            },
            Step::Contains { file, .. }
            | Step::Exists { file }
            | Step::Missing { file }
            | Step::Touch { file }
            | Step::Fetch { body: Body::File(file), .. } => match file {
                Location::Artifact { target, .. } => Some(*target),
                Location::Literal(_) => None,
            },
            _ => None,
        }
    }

    /// Whether every path in the step is relative.
    pub fn is_usable(&self) -> (usable: bool)
        ensures
            usable == self.usable_spec(),
    {
        match self {
            Step::Run { command, .. } => command.is_usable(),
            Step::Serve { command } => command.is_usable(),
            Step::Contains { file, .. } => file.is_relative(),
            Step::Exists { file } => file.is_relative(),
            Step::Missing { file } => file.is_relative(),
            Step::Touch { file } => file.is_relative(),
            Step::Fetch { body: Body::File(file), .. } => file.is_relative(),
            _ => true,
        }
    }
}

/// A named unit of work: a fixture project and the steps to carry out in its
/// directory.
#[derive(Debug, PartialEq, Eq)]
pub struct Scenario {
    pub name: &'static str,
    pub steps: Vec<Step>,
}

/// A scenario as a value of specifications.
pub struct ScenarioView {
    pub name: &'static str,
    pub steps: Seq<Step>,
}

impl View for Scenario {
    type V = ScenarioView;

    open spec fn view(&self) -> ScenarioView {
        ScenarioView { name: self.name, steps: self.steps@ }
    }
}

/// The views of a list of scenarios.
pub open spec fn views(scenarios: Seq<Scenario>) -> Seq<ScenarioView> {
    scenarios.map_values(|scenario: Scenario| scenario@)
}

/// Fixtures live below `test-crates/`, each in the directory of its name.
pub open spec fn fixture_directory_spec(name: Seq<char>) -> Seq<char> {
    "test-crates/"@ + name
}

/// The directory of the fixture `name`, relative to the root of the
/// repository.
pub fn fixture_directory(name: &str) -> (directory: String)
    ensures
        directory@ == fixture_directory_spec(name@),
{
    let mut directory = String::from_str("test-crates/");
    directory.append(name);
    directory
}

impl ScenarioView {
    /// The directory in which the scenario is carried out.
    pub open spec fn directory_spec(self) -> Seq<char> {
        fixture_directory_spec(self.name@)
    }

    /// No step of the scenario names `target`.
    pub open spec fn avoids(self, target: Target) -> bool {
        forall|j: int| 0 <= j < self.steps.len() ==> !(#[trigger] self.steps[j]).mentions(target)
    }
}

impl Scenario {
    /// The fixture's directory, relative to the root of the repository.
    pub fn directory(&self) -> (directory: String)
        ensures
            directory@ == self@.directory_spec(),
    {
        fixture_directory(self.name)
    }
}

/// A step names the target that it is about.
pub proof fn lemma_target_mentioned(step: Step)
    ensures
        step.target_spec() matches Some(target) ==> step.mentions(target),
{
}

} // verus!
