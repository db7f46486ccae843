//! Judging what came of a step.

use crate::command::{Command, Location};
use crate::failure::Failure;
use crate::http::{
    changed, changed_spec, poll_until_predicate, poll_until_success, ContentKind, Poll, Response,
    POLL_INTERVAL_MS,
};
use crate::outcome::{Expect, ProcessOutcome};
use crate::scenario::{Body, Step};
use crate::text::{bytes_eq, file_contains, occurs};
use vstd::prelude::*;
use vstd::string::StringSliceAdditionalSpecFns;

verus! {

/// What the caller is asked to do next.
#[derive(Clone, Copy, Debug, PartialEq, Eq)]
pub enum Action {
    /// Make the fixture's directory the current one, and keep the one that
    /// was current.
    Enter { fixture: &'static str },
    /// Start the command and wait until it ends. Answer: `Exited`.
    Run(Command),
    /// Start the command and let it run. Answer: `Done`.
    Spawn(Command),
    /// Look whether the path is there. Answer: `Found`.
    Probe(Location),
    /// Read the whole file. Answer: `Content`.
    Read(Location),
    /// Set the file's modification time to now. Answer: `Done`.
    Touch(Location),
    /// Pause for `pause_ms` milliseconds, then request the URL. If `restart`
    /// is set, the time that the answer tells is counted from before the
    /// pause; else from where it was counted before. Answer: `Reply`.
    Get { url: &'static str, pause_ms: u64, restart: bool },
    /// End the process that `Spawn` started, and wait until it is gone.
    Kill,
    /// Make the directory that was kept current again.
    Leave,
    /// Nothing: the run is over.
    Stop,
}

/// What the caller saw when it carried out an action.
#[derive(Debug, PartialEq, Eq)]
pub enum Event {
    /// The action was carried out; there is nothing to tell.
    Done,
    /// The action could not be carried out.
    Unavailable,
    /// The process ended.
    Exited(ProcessOutcome),
    /// Whether the path is there.
    Found(bool),
    /// What the file holds, or `None` if there is no such file.
    Content(Option<Vec<u8>>),
    /// What the server answered, or `None` if no connection was made, and
    /// the time since counting began, in milliseconds.
    Reply { elapsed_ms: u64, response: Option<Response> },
}

/// What follows from an event for the step that it answers.
#[derive(Debug, PartialEq, Eq)]
pub enum Judgement {
    /// The step is done.
    Pass,
    /// The step is done, and this body is to be remembered.
    Remember(Vec<u8>),
    /// The step is done, and a server is running now.
    Serving,
    /// The step's file is to be read and must hold this body.
    Compare(Vec<u8>),
    /// The step's request is to be made again.
    Retry,
    /// The step failed.
    Fail(Failure),
}

/// The action that carries out a step. `retrying` says that the step's
/// request was made before.
pub open spec fn action_spec(step: Step, retrying: bool) -> Action {
    match step {
        Step::Run { command, .. } => Action::Run(command),
        Step::Serve { command } => Action::Spawn(command),
        Step::Contains { file, .. } => Action::Read(file),
        Step::Exists { file } => Action::Probe(file),
        Step::Missing { file } => Action::Probe(file),
        Step::Touch { file } => Action::Touch(file),
        Step::Await { url, .. } => Action::Get {
            url,
            pause_ms: POLL_INTERVAL_MS,
            restart: !retrying,
        },
        Step::AwaitChange { url, .. } => Action::Get {
            url,
            pause_ms: POLL_INTERVAL_MS,
            restart: !retrying,
        },
        Step::Fetch { url, .. } => Action::Get { url, pause_ms: 0, restart: true },
    }
}

/// The action that carries out a step.
pub fn action(step: &Step, retrying: bool) -> (action: Action)
    ensures
        action == action_spec(*step, retrying),
{
    match step {
        Step::Run { command, .. } => Action::Run(*command),
        Step::Serve { command } => Action::Spawn(*command),
        Step::Contains { file, .. } => Action::Read(*file),
        Step::Exists { file } => Action::Probe(*file),
        Step::Missing { file } => Action::Probe(*file),
        Step::Touch { file } => Action::Touch(*file),
        Step::Await { url, .. } => Action::Get {
            url: *url,
            pause_ms: POLL_INTERVAL_MS,
            restart: !retrying,
        },
        Step::AwaitChange { url, .. } => Action::Get {
            url: *url,
            pause_ms: POLL_INTERVAL_MS,
            restart: !retrying,
        },
        Step::Fetch { url, .. } => Action::Get { url: *url, pause_ms: 0, restart: true },
    }
}

/// A step can be started if its paths are relative, if no server runs yet
/// where it starts one, and if a body was remembered where it needs one.
pub open spec fn ready_spec(step: Step, remembered: bool, serving: bool) -> bool {
    &&& step.usable_spec()
    &&& step is Serve ==> !serving
    &&& step is AwaitChange ==> remembered
    &&& step matches Step::Fetch { body: Body::Remembered, .. } ==> remembered
}

/// Whether a step can be started.
pub fn ready(step: &Step, remembered: bool, serving: bool) -> (ready: bool)
    ensures
        ready == ready_spec(*step, remembered, serving),
{
    if !step.is_usable() {
        return false;
    }
    match step {
        Step::Serve { .. } => !serving,
        Step::AwaitChange { .. } => remembered,
        Step::Fetch { body: Body::Remembered, .. } => remembered,
        _ => true,
    }
}

/// What a response with the demands of a step on it comes to: first the
/// status, then the content type, then the body.
pub open spec fn vet_spec(
    response: Response,
    kind: Option<ContentKind>,
    body: Body,
    token: Option<Vec<u8>>,
) -> Judgement {
    if !response.is_ok_spec() {
        Judgement::Fail(Failure::Status(response.status))
    } else if kind is Some && !response.has_kind_spec(kind->0) {
        Judgement::Fail(Failure::ContentType(response.content_type))
    } else {
        match body {
            Body::Any => Judgement::Pass,
            Body::Text(text) => if response.body@ == text.spec_bytes() {
                Judgement::Pass
            } else {
                Judgement::Fail(Failure::Body(response.body))
            },
            Body::File(_) => Judgement::Compare(response.body),
            Body::Remember => Judgement::Remember(response.body),
            Body::Remembered => match token {
                Some(remembered) => if remembered@ == response.body@ {
                    Judgement::Pass
                } else {
                    Judgement::Fail(Failure::Body(response.body))
                },
                None => Judgement::Fail(Failure::Usage),
            },
        }
    }
}

/// Holds a response against the demands of a step.
pub fn vet(
    response: Response,
    kind: Option<ContentKind>,
    body: Body,
    token: &Option<Vec<u8>>,
) -> (judgement: Judgement)
    ensures
        judgement == vet_spec(response, kind, body, *token),
{
    if !response.is_ok() {
        return Judgement::Fail(Failure::Status(response.status));
    }
    if let Some(kind) = kind {
        if !response.has_kind(kind) {
            return Judgement::Fail(Failure::ContentType(response.content_type));
        }
    }
    match body {
        Body::Any => Judgement::Pass,
        Body::Text(text) => {
            if bytes_eq(response.body.as_slice(), text.as_bytes()) {
                Judgement::Pass
            } else {
                Judgement::Fail(Failure::Body(response.body))
            }
        },
        Body::File(_) => Judgement::Compare(response.body),
        Body::Remember => Judgement::Remember(response.body),
        Body::Remembered => match token {
            Some(remembered) => {
                if bytes_eq(remembered.as_slice(), response.body.as_slice()) {
                    Judgement::Pass
                } else {
                    Judgement::Fail(Failure::Body(response.body))
                }
            },
            None => Judgement::Fail(Failure::Usage),
        },
    }
}

/// What an event comes to for the step that it answers. `token` is the body
/// that the scenario remembered, if it did.
///
/// An event of a kind that the step's action does not give is a mistake of
/// the caller, except `Unavailable`, which says that the action could not be
/// carried out.
pub open spec fn judge_spec(step: Step, event: Event, token: Option<Vec<u8>>) -> Judgement {
    match (step, event) {
        (_, Event::Unavailable) => Judgement::Fail(Failure::Environment),
        (Step::Run { expect, .. }, Event::Exited(outcome)) => if outcome.meets_spec(expect) {
            Judgement::Pass
        } else {
            Judgement::Fail(outcome.shortfall(expect))
        },
        (Step::Serve { .. }, Event::Done) => Judgement::Serving,
        (Step::Touch { .. }, Event::Done) => Judgement::Pass,
        (Step::Contains { needle, .. }, Event::Content(Some(content))) => if occurs(
            needle.spec_bytes(),
            content@,
        ) {
            Judgement::Pass
        } else {
            Judgement::Fail(Failure::ContentMismatch)
        },
        (Step::Contains { .. }, Event::Content(None)) => Judgement::Fail(Failure::FileMissing),
        (Step::Exists { .. }, Event::Found(found)) => if found {
            Judgement::Pass
        } else {
            Judgement::Fail(Failure::FileMissing)
        },
        (Step::Missing { .. }, Event::Found(found)) => if found {
            Judgement::Fail(Failure::FilePresent)
        } else {
            Judgement::Pass
        },
        (Step::Await { timeout_ms, kind, .. }, Event::Reply { elapsed_ms, response }) => {
            match response {
                Some(response) => vet_spec(response, kind, Body::Any, token),
                None => if elapsed_ms < timeout_ms {
                    Judgement::Retry
                } else {
                    Judgement::Fail(Failure::NeverCameUp)
                },
            }
        },
        (Step::Fetch { kind, body, .. }, Event::Reply { response, .. }) => match response {
            Some(response) => vet_spec(response, kind, body, token),
            None => Judgement::Fail(Failure::Unreachable),
        },
        (Step::AwaitChange { timeout_ms, .. }, Event::Reply { elapsed_ms, response }) => {
            match (token, response) {
                (None, _) => Judgement::Fail(Failure::Usage),
                (Some(_), None) => Judgement::Fail(Failure::Unreachable),
                (Some(remembered), Some(response)) => if !response.is_ok_spec() {
                    Judgement::Fail(Failure::Status(response.status))
                } else if changed_spec(remembered@, response.body@) {
                    Judgement::Pass
                } else if elapsed_ms < timeout_ms {
                    Judgement::Retry
                } else {
                    Judgement::Fail(Failure::Unchanged)
                },
            }
        },
        _ => Judgement::Fail(Failure::Usage),
    }
}

/// Judges the event that answers the action of `step`.
pub fn judge(step: &Step, event: Event, token: &Option<Vec<u8>>) -> (judgement: Judgement)
    ensures
        judgement == judge_spec(*step, event, *token),
{
    match event {
        Event::Unavailable => Judgement::Fail(Failure::Environment),
        Event::Exited(outcome) => match step {
            Step::Run { expect, .. } => match outcome.meets(*expect) {
                Ok(_) => Judgement::Pass,
                Err(failure) => Judgement::Fail(failure),
            },
            _ => Judgement::Fail(Failure::Usage),
        },
        Event::Done => match step {
            Step::Serve { .. } => Judgement::Serving,
            Step::Touch { .. } => Judgement::Pass,
            _ => Judgement::Fail(Failure::Usage),
        },
        Event::Content(content) => match step {
            Step::Contains { needle, .. } => match content {
                Some(content) => {
                    if file_contains(content.as_slice(), needle) {
                        Judgement::Pass
                    } else {
                        Judgement::Fail(Failure::ContentMismatch)
                    }
                },
                None => Judgement::Fail(Failure::FileMissing),
            },
            _ => Judgement::Fail(Failure::Usage),
        },
        Event::Found(found) => match step {
            Step::Exists { .. } => {
                if found {
                    Judgement::Pass
                } else {
                    Judgement::Fail(Failure::FileMissing)
                }
            },
            Step::Missing { .. } => {
                if found {
                    Judgement::Fail(Failure::FilePresent)
                } else {
                    Judgement::Pass
                }
            },
            _ => Judgement::Fail(Failure::Usage),
        },
        Event::Reply { elapsed_ms, response } => match step {
            Step::Await { timeout_ms, kind, .. } => {
                match poll_until_success(response, elapsed_ms, *timeout_ms) {
                    Poll::Ready(response) => vet(response, *kind, Body::Any, token),
                    Poll::Retry => Judgement::Retry,
                    Poll::TimedOut => Judgement::Fail(Failure::NeverCameUp),
                    Poll::Failed(failure) => Judgement::Fail(failure),
                }
            },
            Step::Fetch { kind, body, .. } => match response {
                Some(response) => vet(response, *kind, *body, token),
                None => Judgement::Fail(Failure::Unreachable),
            },
            Step::AwaitChange { timeout_ms, .. } => match token {
                None => Judgement::Fail(Failure::Usage),
                Some(remembered) => {
                    let differs = |response: &Response| -> (differs: bool)
                        ensures
                            differs == changed_spec(remembered@, response.body@),
                        { changed(remembered.as_slice(), response.body.as_slice()) };
                    match poll_until_predicate(response, differs, elapsed_ms, *timeout_ms) {
                        Poll::Ready(_) => Judgement::Pass,
                        Poll::Retry => Judgement::Retry,
                        Poll::TimedOut => Judgement::Fail(Failure::Unchanged),
                        Poll::Failed(failure) => Judgement::Fail(failure),
                    }
                },
            },
            _ => Judgement::Fail(Failure::Usage),
        },
    }
}

/// What the content of a file comes to that must be the body `held`.
pub open spec fn compare_spec(held: Option<Vec<u8>>, event: Event) -> Judgement {
    match (held, event) {
        (_, Event::Unavailable) => Judgement::Fail(Failure::Environment),
        (Some(_), Event::Content(None)) => Judgement::Fail(Failure::FileMissing),
        (Some(body), Event::Content(Some(content))) => if body@ == content@ {
            Judgement::Pass
        } else {
            Judgement::Fail(Failure::ContentMismatch)
        },
        _ => Judgement::Fail(Failure::Usage),
    }
}

/// Judges the content of the file that must be the body `held`.
pub fn compare(held: &Option<Vec<u8>>, event: Event) -> (judgement: Judgement)
    ensures
        judgement == compare_spec(*held, event),
{
    match event {
        Event::Unavailable => Judgement::Fail(Failure::Environment),
        Event::Content(content) => match held {
            Some(body) => match content {
                Some(content) => {
                    if bytes_eq(body.as_slice(), content.as_slice()) {
                        Judgement::Pass
                    } else {
                        Judgement::Fail(Failure::ContentMismatch)
                    }
                },
                None => Judgement::Fail(Failure::FileMissing),
            },
            None => Judgement::Fail(Failure::Usage),
        },
        _ => Judgement::Fail(Failure::Usage),
    }
}

/// A step that runs a process passes exactly if the process ended as the
/// step expects: with exit code 0 where success is expected, in any other
/// way where failure is.
pub proof fn lemma_run_judged(
    command: Command,
    expect: Expect,
    outcome: ProcessOutcome,
    token: Option<Vec<u8>>,
)
    ensures
        judge_spec(Step::Run { command, expect }, Event::Exited(outcome), token) is Pass <==> (
        outcome.code == Some(0i32) <==> expect == Expect::Success),
        judge_spec(Step::Run { command, expect }, Event::Exited(outcome), token) is Pass
            || judge_spec(Step::Run { command, expect }, Event::Exited(outcome), token) is Fail,
{
}

/// How long a step goes on asking, if it is one that waits.
pub open spec fn patience_spec(step: Step) -> Option<u64> {
    match step {
        Step::Await { timeout_ms, .. } => Some(timeout_ms),
        Step::AwaitChange { timeout_ms, .. } => Some(timeout_ms),
        _ => None,
    }
}

/// The time that an event tells, if it answers a request.
pub open spec fn elapsed_spec(event: Event) -> Option<u64> {
    match event {
        Event::Reply { elapsed_ms, .. } => Some(elapsed_ms),
        _ => None,
    }
}

/// Polling is bounded. A request is made again only by a step that waits,
/// and only while its time is not up; once the time is up, the step fails
/// unless what it waits for is there: with `NeverCameUp` if no response
/// came, with `Unchanged` if the body is still the remembered one.
pub proof fn lemma_polling_bounded(step: Step, event: Event, token: Option<Vec<u8>>)
    ensures
        judge_spec(step, event, token) is Retry ==> patience_spec(step) is Some && elapsed_spec(
            event,
        ) is Some && elapsed_spec(event)->0 < patience_spec(step)->0,
        judge_spec(step, event, token) == Judgement::Fail(Failure::NeverCameUp) <==> {
            &&& step is Await
            &&& event is Reply
            &&& event->response is None
            &&& elapsed_spec(event)->0 >= patience_spec(step)->0
        },
        judge_spec(step, event, token) == Judgement::Fail(Failure::Unchanged) <==> {
            &&& step is AwaitChange
            &&& event is Reply
            &&& event->response is Some
            &&& event->response->0.is_ok_spec()
            &&& token is Some
            &&& token->0@ == event->response->0.body@
            &&& elapsed_spec(event)->0 >= patience_spec(step)->0
        },
{
}

/// The remembered body. A request that must give the remembered body again
/// passes exactly if the two bodies are equal; a step that waits for a
/// change passes exactly if they differ. Each asks for status 200.
pub proof fn lemma_remembered(
    url: &'static str,
    timeout_ms: u64,
    elapsed_ms: u64,
    response: Response,
    remembered: Vec<u8>,
)
    ensures
        judge_spec(
            Step::Fetch { url, kind: None, body: Body::Remembered },
            Event::Reply { elapsed_ms, response: Some(response) },
            Some(remembered),
        ) is Pass <==> response.is_ok_spec() && response.body@ == remembered@,
        judge_spec(
            Step::AwaitChange { url, timeout_ms },
            Event::Reply { elapsed_ms, response: Some(response) },
            Some(remembered),
        ) is Pass <==> response.is_ok_spec() && response.body@ != remembered@,
        judge_spec(
            Step::Fetch { url, kind: None, body: Body::Remember },
            Event::Reply { elapsed_ms, response: Some(response) },
            None,
        ) == if response.is_ok_spec() {
            Judgement::Remember(response.body)
        } else {
            Judgement::Fail(Failure::Status(response.status))
        },
{
}

} // verus!
