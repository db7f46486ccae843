//! Decision logic of a smoke-test harness for a build tool.
//!
//! The harness drives a build tool over a matrix of compilation targets and
//! fixture projects: it runs the tool, looks at exit codes and at the files
//! that were built, and asks a development server for pages until they are
//! there. Everything that touches the world (processes, files, connections,
//! the current directory, the clock) is left to the caller. This crate
//! decides what is done next and judges what came of it:
//!
//! - [`target`]: the target matrix and the toolchain it depends on;
//! - [`command`]: command lines and paths;
//! - [`outcome`], [`http`], [`text`], [`failure`]: judging a finished
//!   process, a response, a file's content, and naming what went wrong;
//! - [`scenario`], [`plan`], [`plan_laws`]: the steps of a run, the run
//!   itself, and what holds of it;
//! - [`judge`], [`runner`]: what an event makes of a step, and of the run.

pub mod command;
pub mod failure;
pub mod http;
pub mod judge;
pub mod outcome;
pub mod plan;
pub mod plan_laws;
pub mod runner;
pub mod scenario;
pub mod target;
pub mod text;
