//! The scenario runner: which action comes next, and what an event makes of
//! the run.
//!
//! The caller owns the world. It asks the runner for the pending action,
//! carries it out, and hands the runner what it saw:
//!
//! ```text
//! let mut runner = Runner::start(plan(nightly));
//! loop {
//!     let action = runner.pending();
//!     if action == Action::Stop { break; }
//!     runner = runner.advance(perform(action));
//! }
//! ```
//!
//! Scenarios are carried out one after the other. The first failure ends
//! the run, but not before the server of the running scenario is killed and
//! the directory that was current is current again.

use crate::failure::{Category, Failure};
use crate::judge::{
    action, action_spec, compare, compare_spec, elapsed_spec, judge, judge_spec, patience_spec,
    ready, ready_spec, Action, Event, Judgement,
};
use crate::outcome::ProcessOutcome;
use crate::scenario::{Body, Scenario, Step};
use crate::target::Target;
use vstd::prelude::*;

verus! {

/// Where a run stands.
#[derive(Clone, Copy, Debug, PartialEq, Eq, Structural)]
pub enum Phase {
    /// The scenario's directory is being made the current one.
    Entering,
    /// A step's action is being carried out.
    Stepping,
    /// A step's file is being read, to be held against a body.
    Comparing,
    /// The scenario's server is being killed.
    Stopping,
    /// The directory that was current is being made current again.
    Leaving,
    /// The run is over.
    Finished,
}

/// A run: the scenarios, where the run stands in them, and what it keeps
/// from one step to the next.
#[derive(Debug, PartialEq, Eq)]
pub struct Runner {
    /// The scenarios, in the order they are carried out.
    pub plan: Vec<Scenario>,
    /// The index of the running scenario; the number of scenarios once all
    /// are done.
    pub scenario: usize,
    /// The index of the running step in the running scenario.
    pub step: usize,
    pub phase: Phase,
    /// The running step's request was made before.
    pub retrying: bool,
    /// The scenario has a server running.
    pub serving: bool,
    /// The body that the scenario remembered.
    pub token: Option<Vec<u8>>,
    /// The body that the running step holds the file against.
    pub held: Option<Vec<u8>>,
    /// Why the run is ending, if it is ending for a failure.
    pub failure: Option<Failure>,
}

/// What a failed run tells of its failure: where it happened and what it
/// was.
#[derive(Clone, Copy, Debug, PartialEq, Eq)]
pub struct Report {
    /// The name of the scenario that failed; `None` if the run had no
    /// scenario to be in.
    pub scenario: Option<&'static str>,
    /// The step that failed; `None` if the scenario failed outside its
    /// steps.
    pub step: Option<Step>,
    /// The target that the step is about.
    pub target: Option<Target>,
    /// The kind of the failure.
    pub category: Category,
    /// One line that says what failed.
    pub summary: &'static str,
}

/// The failure that an event stands for where only `Done` was to come.
pub open spec fn refusal_spec(event: Event) -> Failure {
    if event is Unavailable {
        Failure::Environment
    } else {
        Failure::Usage
    }
}

fn refusal(event: &Event) -> (failure: Failure)
    ensures
        failure == refusal_spec(*event),
{
    match event {
        Event::Unavailable => Failure::Environment,
        _ => Failure::Usage,
    }
}

/// The failure of a run after an action of winding down: the one it had, or
/// else the one that the action could not be carried out.
pub open spec fn carried_spec(failure: Option<Failure>, event: Event) -> Option<Failure> {
    if failure is None && event is Unavailable {
        Some(Failure::Environment)
    } else {
        failure
    }
}

fn carried(failure: Option<Failure>, event: &Event) -> (kept: Option<Failure>)
    ensures
        kept == carried_spec(failure, *event),
{
    match failure {
        Some(failure) => Some(failure),
        None => match event {
            Event::Unavailable => Some(Failure::Environment),
            _ => None,
        },
    }
}

impl Runner {
    /// A run before its first action.
    pub open spec fn start_spec(plan: Vec<Scenario>) -> Runner {
        Runner {
            plan,
            scenario: 0,
            step: 0,
            phase: if plan@.len() == 0 {
                Phase::Finished
            } else {
                Phase::Entering
            },
            retrying: false,
            serving: false,
            token: None,
            held: None,
            failure: None,
        }
    }

    /// The steps of the running scenario.
    pub open spec fn steps_spec(self) -> Seq<Step> {
        if self.scenario < self.plan@.len() {
            self.plan@[self.scenario as int].steps@
        } else {
            Seq::empty()
        }
    }

    /// The running step.
    pub open spec fn current_spec(self) -> Option<Step> {
        if self.step < self.steps_spec().len() {
            Some(self.steps_spec()[self.step as int])
        } else {
            None
        }
    }

    /// The scenario's directory is the current one.
    pub open spec fn inside(self) -> bool {
        self.phase is Stepping || self.phase is Comparing || self.phase is Stopping
            || self.phase is Leaving
    }

    /// The action that the caller is to carry out now.
    pub open spec fn pending_spec(self) -> Action {
        match self.phase {
            Phase::Entering => if self.scenario < self.plan@.len() {
                Action::Enter { fixture: self.plan@[self.scenario as int].name }
            } else {
                Action::Stop
            },
            Phase::Stepping => match self.current_spec() {
                Some(step) => action_spec(step, self.retrying),
                None => Action::Stop,
            },
            Phase::Comparing => match self.current_spec() {
                Some(Step::Fetch { body: Body::File(file), .. }) => Action::Read(file),
                _ => Action::Stop,
            },
            Phase::Stopping => Action::Kill,
            Phase::Leaving => Action::Leave,
            Phase::Finished => Action::Stop,
        }
    }

    /// The scenario is over: its server is killed if it has one, and then
    /// its directory is left.
    pub open spec fn wind_down_spec(self) -> Runner {
        Runner {
            phase: if self.serving {
                Phase::Stopping
            } else {
                Phase::Leaving
            },
            retrying: false,
            held: None,
            ..self
        }
    }

    /// The run has failed: the scenario is wound down, and no step is
    /// started any more.
    pub open spec fn fail_spec(self, failure: Failure) -> Runner {
        (Runner { failure: Some(failure), ..self }).wind_down_spec()
    }

    /// The run comes to the step at `index` of the running scenario: past
    /// the last step the scenario is over; a step that cannot be started
    /// fails the run; any other is started.
    pub open spec fn arrive_spec(self, index: usize) -> Runner {
        if index >= self.steps_spec().len() {
            (Runner { step: index, ..self }).wind_down_spec()
        } else if !ready_spec(self.steps_spec()[index as int], self.token is Some, self.serving) {
            (Runner { step: index, ..self }).fail_spec(Failure::Usage)
        } else {
            Runner { step: index, phase: Phase::Stepping, retrying: false, held: None, ..self }
        }
    }

    /// The run after the event that answers the pending action.
    pub open spec fn advance_spec(self, event: Event) -> Runner {
        match self.phase {
            Phase::Finished => self,
            Phase::Entering => if self.scenario >= self.plan@.len() {
                Runner { phase: Phase::Finished, failure: Some(Failure::Usage), ..self }
            } else if event is Done {
                (Runner { token: None, held: None, ..self }).arrive_spec(0)
            } else {
                Runner { phase: Phase::Finished, failure: Some(refusal_spec(event)), ..self }
            },
            Phase::Stepping => match self.current_spec() {
                None => self.fail_spec(Failure::Usage),
                Some(step) => match judge_spec(step, event, self.token) {
                    Judgement::Pass => self.arrive_spec((self.step + 1) as usize),
                    Judgement::Remember(body) => (Runner {
                        token: Some(body),
                        ..self
                    }).arrive_spec((self.step + 1) as usize),
                    Judgement::Serving => (Runner { serving: true, ..self }).arrive_spec(
                        (self.step + 1) as usize,
                    ),
                    Judgement::Compare(body) => Runner {
                        phase: Phase::Comparing,
                        held: Some(body),
                        ..self
                    },
                    Judgement::Retry => Runner { retrying: true, ..self },
                    Judgement::Fail(failure) => self.fail_spec(failure),
                },
            },
            Phase::Comparing => match self.current_spec() {
                None => self.fail_spec(Failure::Usage),
                Some(_) => match compare_spec(self.held, event) {
                    Judgement::Pass => self.arrive_spec((self.step + 1) as usize),
                    Judgement::Fail(failure) => self.fail_spec(failure),
                    _ => self.fail_spec(Failure::Usage),
                },
            },
            Phase::Stopping => Runner {
                serving: false,
                phase: Phase::Leaving,
                failure: carried_spec(self.failure, event),
                ..self
            },
            Phase::Leaving => {
                let failure = carried_spec(self.failure, event);
                if failure is Some {
                    Runner { phase: Phase::Finished, token: None, failure, ..self }
                } else if self.scenario + 1 >= self.plan@.len() {
                    Runner {
                        scenario: self.plan@.len() as usize,
                        step: 0,
                        phase: Phase::Finished,
                        token: None,
                        failure,
                        ..self
                    }
                } else {
                    Runner {
                        scenario: (self.scenario + 1) as usize,
                        step: 0,
                        phase: Phase::Entering,
                        token: None,
                        failure,
                        ..self
                    }
                }
            },
        }
    }

    /// What holds of every run that began with `start` and went on with
    /// `advance`.
    pub open spec fn inv(self) -> bool {
        &&& self.scenario <= self.plan@.len()
        &&& self.phase !is Finished ==> self.scenario < self.plan@.len()
        &&& self.phase is Stepping || self.phase is Comparing ==> self.current_spec() is Some
            && self.failure is None
        &&& self.phase is Stepping ==> ready_spec(
            self.current_spec()->0,
            self.token is Some,
            self.serving,
        )
        &&& self.phase is Comparing ==> self.held is Some && (self.current_spec() matches Some(
            Step::Fetch { body: Body::File(_), .. },
        ))
        &&& self.serving ==> self.phase is Stepping || self.phase is Comparing
            || self.phase is Stopping
        &&& self.failure is Some ==> self.phase is Stopping || self.phase is Leaving
            || self.phase is Finished
        &&& self.phase is Finished && self.failure is None ==> self.scenario == self.plan@.len()
    }

    /// A run of `plan`, before its first action.
    pub fn start(plan: Vec<Scenario>) -> (runner: Runner)
        ensures
            runner == Runner::start_spec(plan),
            runner.inv(),
    {
        let phase = if plan.len() == 0 {
            Phase::Finished
        } else {
            Phase::Entering
        };
        Runner {
            plan,
            scenario: 0,
            step: 0,
            phase,
            retrying: false,
            serving: false,
            token: None,
            held: None,
            failure: None,
        }
    }

    /// The running step, if the run stands at one.
    pub fn current(&self) -> (step: Option<Step>)
        ensures
            step == self.current_spec(),
            step is Some ==> self.step < usize::MAX,
    {
        if self.scenario < self.plan.len() {
            let steps = &self.plan[self.scenario].steps;
            if self.step < steps.len() {
                Some(steps[self.step])
            } else {
                None
            }
        } else {
            None
        }
    }

    /// The action to carry out now. `Action::Stop` says that the run is over.
    pub fn pending(&self) -> (action: Action)
        ensures
            action == self.pending_spec(),
    {
        match self.phase {
            Phase::Entering => {
                if self.scenario < self.plan.len() {
                    Action::Enter { fixture: self.plan[self.scenario].name }
                } else {
                    Action::Stop
                }
            },
            Phase::Stepping => match self.current() {
                Some(step) => action(&step, self.retrying),
                None => Action::Stop,
            },
            Phase::Comparing => match self.current() {
                Some(Step::Fetch { body: Body::File(file), .. }) => Action::Read(file),
                _ => Action::Stop,
            },
            Phase::Stopping => Action::Kill,
            Phase::Leaving => Action::Leave,
            Phase::Finished => Action::Stop,
        }
    }

    fn wind_down(self) -> (next: Runner)
        ensures
            next == self.wind_down_spec(),
    {
        let phase = if self.serving {
            Phase::Stopping
        } else {
            Phase::Leaving
        };
        Runner { phase, retrying: false, held: None, ..self }
    }

    fn fail(self, failure: Failure) -> (next: Runner)
        ensures
            next == self.fail_spec(failure),
    {
        let failed = Runner { failure: Some(failure), ..self };
        failed.wind_down()
    }

    fn arrive(self, index: usize) -> (next: Runner)
        ensures
            next == self.arrive_spec(index),
    {
        let moved = Runner { step: index, ..self };
        match moved.current() {
            None => moved.wind_down(),
            Some(step) => {
                if !ready(&step, moved.token.is_some(), moved.serving) {
                    moved.fail(Failure::Usage)
                } else {
                    Runner { phase: Phase::Stepping, retrying: false, held: None, ..moved }
                }
            },
        }
    }

    /// The run after `event`, which answers the pending action.
    pub fn advance(self, event: Event) -> (next: Runner)
        ensures
            next == self.advance_spec(event),
            self.inv() ==> next.inv(),
    {
        proof {
            if self.inv() {
                lemma_advance_inv(self, event);
            }
        }
        match self.phase {
            Phase::Finished => self,
            Phase::Entering => {
                if self.scenario >= self.plan.len() {
                    Runner { phase: Phase::Finished, failure: Some(Failure::Usage), ..self }
                } else {
                    match event {
                        Event::Done => {
                            let entered = Runner { token: None, held: None, ..self };
                            entered.arrive(0)
                        },
                        _ => {
                            let failure = refusal(&event);
                            Runner { phase: Phase::Finished, failure: Some(failure), ..self }
                        },
                    }
                }
            },
            Phase::Stepping => match self.current() {
                None => self.fail(Failure::Usage),
                Some(step) => {
                    let index: usize = self.step + 1;
                    match judge(&step, event, &self.token) {
                        Judgement::Pass => self.arrive(index),
                        Judgement::Remember(body) => {
                            let kept = Runner { token: Some(body), ..self };
                            kept.arrive(index)
                        },
                        Judgement::Serving => {
                            let served = Runner { serving: true, ..self };
                            served.arrive(index)
                        },
                        Judgement::Compare(body) => Runner {
                            phase: Phase::Comparing,
                            held: Some(body),
                            ..self
                        },
                        Judgement::Retry => Runner { retrying: true, ..self },
                        Judgement::Fail(failure) => self.fail(failure),
                    }
                },
            },
            Phase::Comparing => match self.current() {
                None => self.fail(Failure::Usage),
                Some(_) => {
                    let index: usize = self.step + 1;
                    match compare(&self.held, event) {
                        Judgement::Pass => self.arrive(index),
                        Judgement::Fail(failure) => self.fail(failure),
                        _ => self.fail(Failure::Usage),
                    }
                },
            },
            Phase::Stopping => {
                let failure = carried(self.failure, &event);
                Runner { serving: false, phase: Phase::Leaving, failure, ..self }
            },
            Phase::Leaving => {
                let count: usize = self.plan.len();
                let failure = carried(self.failure, &event);
                if failure.is_some() {
                    Runner { phase: Phase::Finished, token: None, failure, ..self }
                } else if count == 0 || self.scenario >= count - 1 {
                    Runner {
                        scenario: count,
                        step: 0,
                        phase: Phase::Finished,
                        token: None,
                        failure,
                        ..self
                    }
                } else {
                    Runner {
                        scenario: self.scenario + 1,
                        step: 0,
                        phase: Phase::Entering,
                        token: None,
                        failure,
                        ..self
                    }
                }
            },
        }
    }

    /// What the run tells of its failure, if it has failed.
    pub open spec fn report_spec(self) -> Option<Report> {
        match self.failure {
            None => None,
            Some(failure) => Some(
                Report {
                    scenario: if self.scenario < self.plan@.len() {
                        Some(self.plan@[self.scenario as int].name)
                    } else {
                        None
                    },
                    step: self.current_spec(),
                    target: match self.current_spec() {
                        Some(step) => step.target_spec(),
                        None => None,
                    },
                    category: failure.category_spec(),
                    summary: failure.summary_spec(),
                },
            ),
        }
    }

    /// What the run tells of its failure: the scenario and the step at
    /// which it failed, the target of that step, and what went wrong. `None`
    /// as long as nothing has failed.
    pub fn report(&self) -> (report: Option<Report>)
        ensures
            report == self.report_spec(),
    {
        match &self.failure {
            None => None,
            Some(failure) => {
                let scenario = if self.scenario < self.plan.len() {
                    Some(self.plan[self.scenario].name)
                } else {
                    None
                };
                let step = self.current();
                let target = match &step {
                    Some(step) => step.target(),
                    None => None,
                };
                Some(
                    Report {
                        scenario,
                        step,
                        target,
                        category: failure.category(),
                        summary: failure.summary(),
                    },
                )
            },
        }
    }

    /// Whether the run is over.
    pub fn is_finished(&self) -> (finished: bool)
        ensures
            finished == (self.phase is Finished),
    {
        match self.phase {
            Phase::Finished => true,
            _ => false,
        }
    }

    /// Whether the run is over and nothing failed.
    pub fn passed(&self) -> (passed: bool)
        ensures
            passed == (self.phase is Finished && self.failure is None),
    {
        self.is_finished() && self.failure.is_none()
    }
}

/// A run that has just started is in order.
pub proof fn lemma_start_inv(plan: Vec<Scenario>)
    ensures
        Runner::start_spec(plan).inv(),
{
}

/// A run that is in order stays in order, whatever event comes.
pub proof fn lemma_advance_inv(runner: Runner, event: Event)
    requires
        runner.inv(),
    ensures
        runner.advance_spec(event).inv(),
{
    assert(runner.plan.len() == runner.plan@.len());
    if runner.scenario < runner.plan@.len() {
        let steps = runner.plan@[runner.scenario as int].steps;
        assert(steps.len() == steps@.len());
    }
}

/// A run that is in order has an action pending until it is over.
pub proof fn lemma_pending_until_finished(runner: Runner)
    requires
        runner.inv(),
    ensures
        runner.pending_spec() is Stop <==> runner.phase is Finished,
{
}

/// Scoped release. The server is killed before the scenario's directory is
/// left, the directory is left before another scenario is entered or the
/// run ends, and neither is skipped when a step fails.
pub proof fn lemma_scoped_release(runner: Runner, event: Event)
    requires
        runner.inv(),
    ensures
        runner.pending_spec() is Leave ==> !runner.serving,
        runner.pending_spec() is Enter ==> !runner.serving && !runner.inside(),
        runner.phase is Finished ==> !runner.serving,
        runner.serving && !runner.advance_spec(event).serving ==> runner.pending_spec() is Kill,
        runner.inside() && !runner.advance_spec(event).inside() ==> runner.pending_spec() is Leave,
{
}

/// Fail-fast. Once a step has failed, the failure is kept, the run stays at
/// the step that failed, and all that is still done is to kill the server
/// and to leave the directory.
pub proof fn lemma_fail_fast(runner: Runner, event: Event)
    requires
        runner.inv(),
        runner.failure is Some,
    ensures
        runner.advance_spec(event).failure == runner.failure,
        runner.advance_spec(event).scenario == runner.scenario,
        runner.advance_spec(event).step == runner.step,
        runner.pending_spec() is Kill || runner.pending_spec() is Leave
            || runner.pending_spec() is Stop,
{
}

/// The outcome decides. A step that runs a process fails the run with the
/// outcome if the process did not end as expected, and the run stays at
/// that step; if it did, the run goes on to the next step, which can fail
/// the run only by being one that cannot be started.
pub proof fn lemma_outcome_decides(runner: Runner, outcome: ProcessOutcome)
    requires
        runner.inv(),
        runner.phase is Stepping,
        runner.current_spec()->0 is Run,
    ensures
        !outcome.meets_spec(runner.current_spec()->0->expect) ==> {
            &&& runner.advance_spec(Event::Exited(outcome)).failure == Some(
                outcome.shortfall(runner.current_spec()->0->expect),
            )
            &&& runner.advance_spec(Event::Exited(outcome)).step == runner.step
        },
        outcome.meets_spec(runner.current_spec()->0->expect) ==> {
            &&& runner.advance_spec(Event::Exited(outcome)).step == runner.step + 1
            &&& runner.advance_spec(Event::Exited(outcome)).failure is None
                || runner.advance_spec(Event::Exited(outcome)).failure == Some(Failure::Usage)
        },
{
    assert(runner.plan.len() == runner.plan@.len());
    let steps = runner.plan@[runner.scenario as int].steps;
    assert(steps.len() == steps@.len());
}

/// The actions that the scenarios from index `from` on can take at most,
/// not counting requests that are made again: for each scenario one to
/// enter, two for each step, one to kill the server and one to leave.
pub open spec fn budget(plan: Seq<Scenario>, from: int) -> nat
    decreases plan.len() - from,
{
    if 0 <= from < plan.len() {
        2 * plan[from].steps@.len() + 4 + budget(plan, from + 1)
    } else {
        0
    }
}

impl Runner {
    /// An upper bound on the actions that the run still asks for, not
    /// counting requests that are made again.
    pub open spec fn ahead(self) -> nat {
        let later = budget(self.plan@, self.scenario + 1);
        let left = (self.steps_spec().len() - self.step) as nat;
        match self.phase {
            Phase::Entering => later + 2 * self.steps_spec().len() + 3,
            Phase::Stepping => later + 2 * left + 2,
            Phase::Comparing => later + 2 * left + 1,
            Phase::Stopping => later + 2,
            Phase::Leaving => later + 1,
            Phase::Finished => 0,
        }
    }
}

/// Forward progress. Every event brings a run that is in order nearer to
/// its end, but for the one case that a polling step asks again; and that it
/// does only while its time is not up.
pub proof fn lemma_progress(runner: Runner, event: Event)
    requires
        runner.inv(),
        runner.phase !is Finished,
    ensures
        runner.advance_spec(event).ahead() < runner.ahead() || (runner.phase is Stepping
            && judge_spec(runner.current_spec()->0, event, runner.token) is Retry
            && runner.advance_spec(event) == (Runner { retrying: true, ..runner })),
        judge_spec(runner.current_spec()->0, event, runner.token) is Retry ==> patience_spec(
            runner.current_spec()->0,
        ) is Some && elapsed_spec(event) is Some && elapsed_spec(event)->0 < patience_spec(
            runner.current_spec()->0,
        )->0,
{
    assert(runner.plan.len() == runner.plan@.len());
    let steps = runner.plan@[runner.scenario as int].steps;
    assert(steps.len() == steps@.len());
    let next = runner.advance_spec(event);
    if next.phase is Entering {
        assert(budget(runner.plan@, runner.scenario + 1) == 2 * next.steps_spec().len() + 4
            + budget(runner.plan@, next.scenario + 1));
    }
}

/// The run after a sequence of events, each answering the action that was
/// pending when it came.
pub open spec fn run_spec(runner: Runner, events: Seq<Event>) -> Runner
    decreases events.len(),
{
    if events.len() == 0 {
        runner
    } else {
        run_spec(runner, events.drop_last()).advance_spec(events.last())
    }
}

/// Every state that a run can reach is in order: whatever the events, at
/// most one server runs, it runs only inside its scenario, and a run that
/// is over has none.
pub proof fn lemma_reachable_inv(plan: Vec<Scenario>, events: Seq<Event>)
    ensures
        run_spec(Runner::start_spec(plan), events).inv(),
        run_spec(Runner::start_spec(plan), events).serving ==> run_spec(
            Runner::start_spec(plan),
            events,
        ).inside(),
        run_spec(Runner::start_spec(plan), events).plan == plan,
    decreases events.len(),
{
    if events.len() > 0 {
        lemma_reachable_inv(plan, events.drop_last());
        lemma_advance_inv(run_spec(Runner::start_spec(plan), events.drop_last()), events.last());
    }
}

/// The first failure is the last: whatever events follow it, the run keeps
/// that failure and starts no other scenario.
pub proof fn lemma_failure_is_final(runner: Runner, events: Seq<Event>)
    requires
        runner.inv(),
        runner.failure is Some,
    ensures
        run_spec(runner, events).inv(),
        run_spec(runner, events).failure == runner.failure,
        run_spec(runner, events).scenario == runner.scenario,
        run_spec(runner, events).step == runner.step,
    decreases events.len(),
{
    if events.len() > 0 {
        let before = run_spec(runner, events.drop_last());
        lemma_failure_is_final(runner, events.drop_last());
        lemma_advance_inv(before, events.last());
        lemma_fail_fast(before, events.last());
    }
}

} // verus!
