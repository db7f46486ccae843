//! The target matrix: which compilation targets are exercised, and in which
//! order.

use crate::text::{contains, occurs};
use vstd::prelude::*;
use vstd::string::StringSliceAdditionalSpecFns;

verus! {

/// One compilation target of the build tool.
#[derive(Clone, Copy, Debug, PartialEq, Eq, Structural)]
pub enum Target {
    AsmjsEmscripten,
    Wasm32Emscripten,
    Wasm32Unknown,
}

/// The directory below `target/<triple>/` that holds a build's artifacts.
#[derive(Clone, Copy, Debug, PartialEq, Eq, Structural)]
pub enum Profile {
    Debug,
    Release,
}

impl Profile {
    pub open spec fn dir_spec(self) -> Seq<char> {
        match self {
            Profile::Debug => "debug"@,
            Profile::Release => "release"@,
        }
    }

    /// The directory name of this profile.
    pub fn dir(self) -> (name: &'static str)
        ensures
            name@ == self.dir_spec(),
    {
        match self {
            Profile::Debug => "debug",
            Profile::Release => "release",
        }
    }
}

impl Target {
    pub open spec fn triple_spec(self) -> Seq<char> {
        match self {
            Target::AsmjsEmscripten => "asmjs-unknown-emscripten"@,
            Target::Wasm32Emscripten => "wasm32-unknown-emscripten"@,
            Target::Wasm32Unknown => "wasm32-unknown-unknown"@,
        }
    }

    /// True for the one target that only a nightly toolchain can build.
    pub open spec fn needs_nightly_spec(self) -> bool {
        self == Target::Wasm32Unknown
    }

    /// Where the build tool puts this target's artifacts: the native
    /// WebAssembly target is always built optimised.
    pub open spec fn artifact_profile_spec(self) -> Profile {
        if self == Target::Wasm32Unknown {
            Profile::Release
        } else {
            Profile::Debug
        }
    }

    /// The target triple, as passed after `--target`.
    pub fn triple(self) -> (name: &'static str)
        ensures
            name@ == self.triple_spec(),
    {
        match self {
            Target::AsmjsEmscripten => "asmjs-unknown-emscripten",
            Target::Wasm32Emscripten => "wasm32-unknown-emscripten",
            Target::Wasm32Unknown => "wasm32-unknown-unknown",
        }
    }

    pub fn needs_nightly(self) -> (needed: bool)
        ensures
            needed == self.needs_nightly_spec(),
    {
        match self {
            Target::Wasm32Unknown => true,
            _ => false,
        }
    }

    pub fn artifact_profile(self) -> (profile: Profile)
        ensures
            profile == self.artifact_profile_spec(),
    {
        match self {
            Target::Wasm32Unknown => Profile::Release,
            _ => Profile::Debug,
        }
    }
}

/// A toolchain is a nightly one if the line that tells its version says so.
pub open spec fn nightly_available_spec(version: Seq<u8>) -> bool {
    occurs("nightly".spec_bytes(), version)
}

/// Whether the toolchain is a nightly one. `version` is what the compiler
/// prints when asked for its version.
pub fn nightly_available(version: &[u8]) -> (nightly: bool)
    ensures
        nightly == nightly_available_spec(version@),
{
    contains(version, "nightly".as_bytes())
}

/// The targets to exercise: the two Emscripten targets, in this order, and
/// after them the native WebAssembly target if a nightly toolchain is there.
pub open spec fn targets_spec(nightly: bool) -> Seq<Target> {
    if nightly {
        seq![Target::AsmjsEmscripten, Target::Wasm32Emscripten, Target::Wasm32Unknown]
    } else {
        seq![Target::AsmjsEmscripten, Target::Wasm32Emscripten]
    }
}

/// The target matrix as a value.
pub fn targets(nightly: bool) -> (list: Vec<Target>)
    ensures
        list@ == targets_spec(nightly),
{
    let mut list: Vec<Target> = Vec::new();
    list.push(Target::AsmjsEmscripten);
    list.push(Target::Wasm32Emscripten);
    if nightly {
        list.push(Target::Wasm32Unknown);
    }
    assert(list@ =~= targets_spec(nightly));
    list
}

/// Calls `callback` once for each target of the matrix, in the matrix's
/// order, and hands back what the calls returned, in the same order.
pub fn each_target<R, F: Fn(Target) -> R>(nightly: bool, callback: F) -> (results: Vec<R>)
    requires
        forall|i: int|
            0 <= i < targets_spec(nightly).len() ==> call_requires(
                callback,
                (#[trigger] targets_spec(nightly)[i],),
            ),
    ensures
        results@.len() == targets_spec(nightly).len(),
        forall|i: int|
            0 <= i < targets_spec(nightly).len() ==> call_ensures(
                callback,
                (targets_spec(nightly)[i],),
                #[trigger] results@[i],
            ),
{
    let list = targets(nightly);
    let mut results: Vec<R> = Vec::new();
    let mut k: usize = 0;
    while k < list.len()
        invariant
            list@ == targets_spec(nightly),
            k <= list.len(),
            results@.len() == k,
            forall|i: int|
                0 <= i < list@.len() ==> call_requires(callback, (#[trigger] list@[i],)),
            forall|i: int|
                0 <= i < k ==> call_ensures(callback, (list@[i],), #[trigger] results@[i]),
        decreases list.len() - k,
    {
        let result = callback(list[k]);
        results.push(result);
        k += 1;
    }
    results
}

/// A target is in the matrix exactly if it needs no nightly toolchain, or one
/// is there.
pub proof fn lemma_matrix_gate(nightly: bool, target: Target)
    ensures
        targets_spec(nightly).contains(target) <==> (nightly || !target.needs_nightly_spec()),
{
    let ts = targets_spec(nightly);
    if nightly || !target.needs_nightly_spec() {
        let k: int = match target {
            Target::AsmjsEmscripten => 0,
            Target::Wasm32Emscripten => 1,
            Target::Wasm32Unknown => 2,
        };
        assert(ts[k] == target);
    }
}

/// The matrix starts with the two Emscripten targets whatever the toolchain,
/// and names no target twice.
pub proof fn lemma_matrix_order(nightly: bool)
    ensures
        targets_spec(nightly).len() == if nightly { 3nat } else { 2nat },
        targets_spec(nightly)[0] == Target::AsmjsEmscripten,
        targets_spec(nightly)[1] == Target::Wasm32Emscripten,
        nightly ==> targets_spec(nightly)[2] == Target::Wasm32Unknown,
        targets_spec(nightly).no_duplicates(),
        targets_spec(false) =~= targets_spec(true).take(2),
{
}

/// Different targets have different triples.
pub proof fn lemma_triple_injective(a: Target, b: Target)
    requires
        a.triple_spec() == b.triple_spec(),
    ensures
        a == b,
{
    reveal_strlit("asmjs-unknown-emscripten");
    reveal_strlit("wasm32-unknown-emscripten");
    reveal_strlit("wasm32-unknown-unknown");
    assert(Target::AsmjsEmscripten.triple_spec().len() == 24);
    assert(Target::Wasm32Emscripten.triple_spec().len() == 25);
    assert(Target::Wasm32Unknown.triple_spec().len() == 22);
}

} // verus!
