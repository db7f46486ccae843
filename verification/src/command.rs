//! What the harness runs: the build tool with a subcommand and flags, or the
//! script runtime on a script; and the paths it looks at.

use crate::target::{Profile, Target};
use crate::text::{is_absolute, is_absolute_spec};
use vstd::prelude::*;
use vstd::string::StringExecFns;

verus! {

/// Which executable a command starts.
#[derive(Clone, Copy, Debug, PartialEq, Eq, Structural)]
pub enum Program {
    /// The build tool under test.
    BuildTool,
    /// The script runtime that runs what the build tool produced.
    Runtime,
}

/// A subcommand of the build tool.
#[derive(Clone, Copy, Debug, PartialEq, Eq, Structural)]
pub enum Subcommand {
    Build,
    Test,
    Deploy,
    Start,
}

impl Subcommand {
    pub open spec fn word_spec(self) -> Seq<char> {
        match self {
            Subcommand::Build => "build"@,
            Subcommand::Test => "test"@,
            Subcommand::Deploy => "deploy"@,
            Subcommand::Start => "start"@,
        }
    }

    /// The subcommand as written on the command line.
    pub fn word(self) -> (word: &'static str)
        ensures
            word@ == self.word_spec(),
    {
        match self {
            Subcommand::Build => "build",
            Subcommand::Test => "test",
            Subcommand::Deploy => "deploy",
            Subcommand::Start => "start",
        }
    }
}

/// One call of the build tool:
/// `<subcommand> [--target T] [--release] [--nodejs] [-p PACKAGE] [--message-format=json]`.
#[derive(Clone, Copy, Debug, PartialEq, Eq)]
pub struct Invocation {
    pub subcommand: Subcommand,
    pub target: Option<Target>,
    pub release: bool,
    pub nodejs: bool,
    pub package: Option<&'static str>,
    pub json: bool,
}

/// The views of the strings of an argument list.
pub open spec fn words(args: Seq<String>) -> Seq<Seq<char>> {
    args.map_values(|arg: String| arg@)
}

fn push_word(args: &mut Vec<String>, word: &str)
    ensures
        words(final(args)@) == words(old(args)@).push(word@),
{
    args.push(String::from_str(word));
    assert(words(args@) =~= words(old(args)@).push(word@));
}

impl Invocation {
    /// The subcommand alone, with no flag.
    pub open spec fn new_spec(subcommand: Subcommand) -> Invocation {
        Invocation {
            subcommand,
            target: None,
            release: false,
            nodejs: false,
            package: None,
            json: false,
        }
    }

    pub open spec fn on_spec(self, target: Target) -> Invocation {
        Invocation { target: Some(target), ..self }
    }

    pub open spec fn optimised_spec(self) -> Invocation {
        Invocation { release: true, ..self }
    }

    pub open spec fn under_nodejs_spec(self) -> Invocation {
        Invocation { nodejs: true, ..self }
    }

    pub open spec fn package_spec(self, package: &'static str) -> Invocation {
        Invocation { package: Some(package), ..self }
    }

    pub open spec fn as_json_spec(self) -> Invocation {
        Invocation { json: true, ..self }
    }

    /// The call names `target`: after `--target`, or as the package.
    pub open spec fn names(self, target: Target) -> bool {
        ||| self.target == Some(target)
        ||| self.package matches Some(package) && package@ == target.triple_spec()
    }

    /// The argument list of this call, flags in the order of the synopsis.
    pub open spec fn argv_spec(self) -> Seq<Seq<char>> {
        seq![self.subcommand.word_spec()] + (match self.target {
            Some(target) => seq!["--target"@, target.triple_spec()],
            None => Seq::empty(),
        }) + (if self.release {
            seq!["--release"@]
        } else {
            Seq::empty()
        }) + (if self.nodejs {
            seq!["--nodejs"@]
        } else {
            Seq::empty()
        }) + (match self.package {
            Some(package) => seq!["-p"@, package@],
            None => Seq::empty(),
        }) + (if self.json {
            seq!["--message-format=json"@]
        } else {
            Seq::empty()
        })
    }

    /// The argument list of this call.
    pub fn argv(&self) -> (args: Vec<String>)
        ensures
            words(args@) == self.argv_spec(),
    {
        let mut args: Vec<String> = Vec::new();
        assert(words(args@) =~= Seq::<Seq<char>>::empty());
        push_word(&mut args, self.subcommand.word());
        let ghost a0 = seq![self.subcommand.word_spec()];
        assert(words(args@) =~= a0);
        if let Some(target) = self.target {
            push_word(&mut args, "--target");
            push_word(&mut args, target.triple());
        }
        let ghost a1 = a0 + (match self.target {
            Some(target) => seq!["--target"@, target.triple_spec()],
            None => Seq::empty(),
        });
        assert(words(args@) =~= a1);
        if self.release {
            push_word(&mut args, "--release");
        }
        let ghost a2 = a1 + (if self.release {
            seq!["--release"@]
        } else {
            Seq::empty()
        });
        assert(words(args@) =~= a2);
        if self.nodejs {
            push_word(&mut args, "--nodejs");
        }
        let ghost a3 = a2 + (if self.nodejs {
            seq!["--nodejs"@]
        } else {
            Seq::empty()
        });
        assert(words(args@) =~= a3);
        if let Some(package) = self.package {
            push_word(&mut args, "-p");
            push_word(&mut args, package);
        }
        let ghost a4 = a3 + (match self.package {
            Some(package) => seq!["-p"@, package@],
            None => Seq::empty(),
        });
        assert(words(args@) =~= a4);
        if self.json {
            push_word(&mut args, "--message-format=json");
        }
        let ghost a5 = a4 + (if self.json {
            seq!["--message-format=json"@]
        } else {
            Seq::empty()
        });
        assert(words(args@) =~= a5);
        args
    }

    /// A call of `subcommand` with no flag.
    #[verifier::when_used_as_spec(new_spec)]
    pub fn new(subcommand: Subcommand) -> (call: Invocation)
        ensures
            call == Invocation::new_spec(subcommand),
    {
        Invocation {
            subcommand,
            target: None,
            release: false,
            nodejs: false,
            package: None,
            json: false,
        }
    }

    /// The same call with `--target` and the target's triple.
    #[verifier::when_used_as_spec(on_spec)]
    pub fn on(self, target: Target) -> (call: Invocation)
        ensures
            call == self.on_spec(target),
    {
        Invocation { target: Some(target), ..self }
    }

    /// The same call with `--release`.
    #[verifier::when_used_as_spec(optimised_spec)]
    pub fn optimised(self) -> (call: Invocation)
        ensures
            call == self.optimised_spec(),
    {
        Invocation { release: true, ..self }
    }

    /// The same call with `--nodejs`.
    #[verifier::when_used_as_spec(under_nodejs_spec)]
    pub fn under_nodejs(self) -> (call: Invocation)
        ensures
            call == self.under_nodejs_spec(),
    {
        Invocation { nodejs: true, ..self }
    }

    /// The same call with `-p` and the package's name.
    #[verifier::when_used_as_spec(package_spec)]
    pub fn package(self, package: &'static str) -> (call: Invocation)
        ensures
            call == self.package_spec(package),
    {
        Invocation { package: Some(package), ..self }
    }

    /// The same call with `--message-format=json`.
    #[verifier::when_used_as_spec(as_json_spec)]
    pub fn as_json(self) -> (call: Invocation)
        ensures
            call == self.as_json_spec(),
    {
        Invocation { json: true, ..self }
    }
}

/// A path below the directory of the running scenario.
#[derive(Clone, Copy, Debug, PartialEq, Eq)]
pub enum Location {
    /// A path written out.
    Literal(&'static str),
    /// A build artifact: `target/<triple>/<debug|release>/<fixture>.<extension>`.
    Artifact { target: Target, profile: Profile, fixture: &'static str, extension: &'static str },
}

impl Location {
    pub open spec fn path_spec(self) -> Seq<char> {
        match self {
            Location::Literal(path) => path@,
            Location::Artifact { target, profile, fixture, extension } => "target/"@
                + target.triple_spec() + "/"@ + profile.dir_spec() + "/"@ + fixture@ + "."@
                + extension@,
        }
    }

    /// A location is usable if its path does not start at the file system's
    /// root.
    pub open spec fn relative_spec(self) -> bool {
        !is_absolute_spec(self.path_spec())
    }

    /// The artifact that a plain build of `fixture` for `target` leaves.
    pub open spec fn artifact_spec(target: Target, fixture: &'static str) -> Location {
        Location::Artifact {
            target,
            profile: target.artifact_profile_spec(),
            fixture,
            extension: "js",
        }
    }

    /// The artifact that a build of `fixture` for `target` leaves: a
    /// JavaScript file in the directory of the target's profile.
    #[verifier::when_used_as_spec(artifact_spec)]
    pub fn artifact(target: Target, fixture: &'static str) -> (location: Location)
        ensures
            location == Location::artifact_spec(target, fixture),
    {
        Location::Artifact { target, profile: target.artifact_profile(), fixture, extension: "js" }
    }

    /// The path as text.
    pub fn path(&self) -> (path: String)
        ensures
            path@ == self.path_spec(),
    {
        match self {
            Location::Literal(path) => String::from_str(path),
            Location::Artifact { target, profile, fixture, extension } => {
                let mut path = String::from_str("target/");
                path.append(target.triple());
                path.append("/");
                path.append(profile.dir());
                path.append("/");
                path.append(fixture);
                path.append(".");
                path.append(extension);
                path
            },
        }
    }

    /// Whether the path stays below the scenario's directory, as far as its
    /// first character tells.
    pub fn is_relative(&self) -> (relative: bool)
        ensures
            relative == self.relative_spec(),
    {
        match self {
            Location::Literal(path) => !is_absolute(path),
            Location::Artifact { .. } => {
                proof {
                    lemma_artifact_relative(*self);
                }
                true
            },
        }
    }
}

/// An artifact's path never starts at the root.
pub proof fn lemma_artifact_relative(location: Location)
    requires
        location is Artifact,
    ensures
        location.relative_spec(),
{
    reveal_strlit("target/");
    assert("target/"@[0] == 't');
    assert(location.path_spec()[0] == 't');
}

/// One process to start: a program and its arguments.
#[derive(Clone, Copy, Debug, PartialEq, Eq)]
pub enum Command {
    /// The build tool with a subcommand and flags.
    Tool(Invocation),
    /// The script runtime on one script.
    Script(Location),
}

impl Command {
    pub open spec fn program_spec(self) -> Program {
        match self {
            Command::Tool(_) => Program::BuildTool,
            Command::Script(_) => Program::Runtime,
        }
    }

    pub open spec fn argv_spec(self) -> Seq<Seq<char>> {
        match self {
            Command::Tool(call) => call.argv_spec(),
            Command::Script(script) => seq![script.path_spec()],
        }
    }

    /// The command names `target`: an argument is the target's triple, or
    /// the script is an artifact of the target.
    pub open spec fn names(self, target: Target) -> bool {
        match self {
            Command::Tool(call) => call.names(target),
            Command::Script(Location::Artifact { target: built, .. }) => built == target,
            Command::Script(Location::Literal(path)) => path@ == target.triple_spec(),
        }
    }

    /// A command is usable if the script it runs, if any, has a relative path.
    pub open spec fn usable_spec(self) -> bool {
        match self {
            Command::Tool(_) => true,
            Command::Script(script) => script.relative_spec(),
        }
    }

    /// The executable to start.
    pub fn program(&self) -> (program: Program)
        ensures
            program == self.program_spec(),
    {
        match self {
            Command::Tool(_) => Program::BuildTool,
            Command::Script(_) => Program::Runtime,
        }
    }

    /// The arguments to start it with.
    pub fn argv(&self) -> (args: Vec<String>)
        ensures
            words(args@) == self.argv_spec(),
    {
        match self {
            Command::Tool(call) => call.argv(),
            Command::Script(script) => {
                let mut args: Vec<String> = Vec::new();
                args.push(script.path());
                assert(words(args@) =~= seq![script.path_spec()]);
                args
            },
        }
    }

    pub fn is_usable(&self) -> (usable: bool)
        ensures
            usable == self.usable_spec(),
    {
        match self {
            Command::Tool(_) => true,
            Command::Script(script) => script.is_relative(),
        }
    }
}

/// A target's triple is none of the words that the build tool's command
/// line is made of.
pub proof fn lemma_triple_is_no_flag(target: Target, subcommand: Subcommand)
    ensures
        target.triple_spec() != subcommand.word_spec(),
        target.triple_spec() != "--target"@,
        target.triple_spec() != "--release"@,
        target.triple_spec() != "--nodejs"@,
        target.triple_spec() != "-p"@,
        target.triple_spec() != "--message-format=json"@,
        target.triple_spec().len() >= 22,
{
    reveal_strlit("asmjs-unknown-emscripten");
    reveal_strlit("wasm32-unknown-emscripten");
    reveal_strlit("wasm32-unknown-unknown");
    reveal_strlit("build");
    reveal_strlit("test");
    reveal_strlit("deploy");
    reveal_strlit("start");
    reveal_strlit("--target");
    reveal_strlit("--release");
    reveal_strlit("--nodejs");
    reveal_strlit("-p");
    reveal_strlit("--message-format=json");
    assert(Target::AsmjsEmscripten.triple_spec().len() == 24);
    assert(Target::Wasm32Emscripten.triple_spec().len() == 25);
    assert(Target::Wasm32Unknown.triple_spec().len() == 22);
    assert(Subcommand::Build.word_spec().len() == 5);
    assert(Subcommand::Test.word_spec().len() == 4);
    assert(Subcommand::Deploy.word_spec().len() == 6);
    assert(Subcommand::Start.word_spec().len() == 5);
    assert("--target"@.len() == 8);
    assert("--release"@.len() == 9);
    assert("--nodejs"@.len() == 8);
    assert("-p"@.len() == 2);
    assert("--message-format=json"@.len() == 21);
}

/// An argument list holds a target's triple only if the command names the
/// target.
pub proof fn lemma_argv_names(command: Command, target: Target)
    ensures
        command.argv_spec().contains(target.triple_spec()) ==> command.names(target),
{
    let triple = target.triple_spec();
    let argv = command.argv_spec();
    match command {
        Command::Tool(call) => {
            lemma_triple_is_no_flag(target, call.subcommand);
            if let Some(named) = call.target {
                if named.triple_spec() == triple {
                    crate::target::lemma_triple_injective(named, target);
                }
            }
            if !call.names(target) {
                assert forall|i: int| 0 <= i < argv.len() implies argv[i] != triple by {}
            }
        },
        Command::Script(Location::Literal(path)) => {
            assert(argv[0] == path@);
        },
        Command::Script(Location::Artifact { .. }) => {
            lemma_triple_is_no_flag(target, Subcommand::Build);
            reveal_strlit("target/");
            reveal_strlit("asmjs-unknown-emscripten");
            reveal_strlit("wasm32-unknown-emscripten");
            reveal_strlit("wasm32-unknown-unknown");
            assert(argv[0][0] == 't');
            assert(triple[0] == 'a' || triple[0] == 'w');
        },
    }
}

} // verus!
