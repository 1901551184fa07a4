//! The run controller: a bounded step loop that sequences perception,
//! reasoning, policy checks, actions and logging.
//!
//! The loop is a state machine. Each transition consumes the state together
//! with the outcome of the collaborator call it was waiting for, and returns
//! either the next state with the command for the driver, or the final report.
//! The driver performs each command (observe, reason, ask the policy, act,
//! persist) and hands the outcome back.
use crate::adapters::{fresh_id, is_fresh_id};
use crate::model::{
    error_text, opt_text, Action, ActionResult, AgentConfig, AgentError, Approval, Goal, RunMetrics, RunReport,
    RunStatus, Scope, Snapshot, StepLog, Thought,
};
use crate::text::{is_blank, is_blank_spec};
use vstd::prelude::*;

verus! {

/// What the run loop is waiting for.
#[derive(Clone, Copy, Debug, PartialEq, Eq, Structural)]
pub enum Phase {
    /// A new iteration may begin; the deadline and budget checks come first.
    Ready,
    /// Waiting for the reasoner to say whether the goal is met.
    GoalCheck,
    /// Waiting for the reasoner's next thought.
    Thinking,
    /// Waiting for the policy's answer about the pending action.
    Approving,
    /// Waiting for the device to execute the pending action.
    Executing,
    /// Waiting for a bare observation of the device (no action was produced).
    Observing,
}

/// What the driver of the loop must do next.
#[derive(Clone, Copy, Debug, PartialEq, Eq, Structural)]
pub enum RunCommand {
    /// Ask the reasoner whether the goal is met against the last snapshot,
    /// then call `goal_checked`.
    CheckGoal,
    /// Ask the reasoner for the next thought, passing the last error, then
    /// call `thought`.
    Think,
    /// Ask the policy about the pending action with the configured scopes,
    /// then call `approval`.
    Approve,
    /// Execute the pending action with the configured step timeout, then call
    /// `executed`.
    Execute,
    /// Take a bare observation of the device, then call `observed`.
    Observe,
    /// Persist the step just appended (after archiving the last snapshot when
    /// asked; archival failures are ignored), then call `begin_iteration`.
    RecordStep { archive_snapshot: bool },
}

/// The state of one run of the loop.
pub struct RunLoop {
    max_steps: usize,
    run_id: String,
    goal: Goal,
    steps: Vec<StepLog>,
    last_snapshot: Snapshot,
    last_error: Option<AgentError>,
    phase: Phase,
    current: Option<StepLog>,
}

/// The mathematical view of a run: the step budget, the identity and goal of
/// the run, the append-only audit trail, the latest observation, the error
/// remembered for the next reasoning call, the phase, and the step being
/// built while an action is approved or executed.
#[verifier::ext_equal]
pub struct RunView {
    pub max_steps: nat,
    pub run_id: String,
    pub goal: Goal,
    pub steps: Seq<StepLog>,
    pub last_snapshot: Snapshot,
    pub last_error: Option<AgentError>,
    pub phase: Phase,
    pub current: Option<StepLog>,
}

/// The result of one transition.
pub enum Transition {
    /// The run goes on: the next state, and what the driver must do.
    Next(RunLoop, RunCommand),
    /// The run is over: its report, to hand to the memory store and return.
    Finished(RunReport),
}

impl View for RunLoop {
    type V = RunView;

    closed spec fn view(&self) -> RunView {
        RunView {
            max_steps: self.max_steps as nat,
            run_id: self.run_id,
            goal: self.goal,
            steps: self.steps@,
            last_snapshot: self.last_snapshot,
            last_error: self.last_error,
            phase: self.phase,
            current: self.current,
        }
    }
}

/// Whether the goal's relative budget has run out after `elapsed_ms`.
pub open spec fn deadline_passed(goal: Goal, elapsed_ms: u128) -> bool {
    goal.timeout_ms matches Some(t) && elapsed_ms >= t
}

/// The audit trail holds one entry per finished iteration, indexed in order,
/// within the step budget.
pub open spec fn trail_wf(v: RunView) -> bool {
    &&& v.steps.len() <= v.max_steps
    &&& forall|i: int| 0 <= i < v.steps.len() ==> (#[trigger] v.steps[i]).step == i
}

/// The run's state is consistent: the audit trail holds one entry per
/// finished iteration, indexed in order, within the step budget, and the step
/// being built matches the phase.
pub open spec fn run_wf(v: RunView) -> bool {
    &&& trail_wf(v)
    &&& v.phase != Phase::Ready ==> v.steps.len() < v.max_steps
    &&& (v.current is Some <==> (v.phase == Phase::Approving || v.phase == Phase::Executing
        || v.phase == Phase::Observing))
    &&& v.current matches Some(c) ==> c.step == v.steps.len() && c.snapshot_id is None && c.error is None
    &&& v.phase == Phase::Approving ==> v.current->0.action is Some && v.current->0.approval is None
    &&& v.phase == Phase::Executing ==> v.current->0.action is Some
    &&& v.phase == Phase::Observing ==> v.current->0.action is None
}

/// `v` moved to phase `p`, everything else kept.
pub open spec fn in_phase(v: RunView, p: Phase) -> RunView {
    RunView { phase: p, ..v }
}

/// `s` is the record of iteration `i` as it was begun at `elapsed_ms` with
/// the given plan and action, before any approval or outcome.
pub open spec fn begun_step(s: StepLog, i: nat, plan: String, action: Option<Action>, elapsed_ms: u128) -> bool {
    &&& s.step == i
    &&& s.plan == plan
    &&& s.action == action
    &&& s.approval is None
    &&& s.result_hint@.len() == 0
    &&& s.snapshot_id is None
    &&& s.error is None
    &&& s.timestamp_ms == elapsed_ms
}

/// The step being built is iteration `i`, begun with the given plan and action.
pub open spec fn pending_begun(
    cur: Option<StepLog>,
    i: nat,
    plan: String,
    action: Option<Action>,
    elapsed_ms: u128,
) -> bool {
    cur matches Some(c) && begun_step(c, i, plan, action, elapsed_ms)
}

/// `s` is the step `begun` completed with a result classifier, a resulting
/// snapshot id and an error text.
pub open spec fn completed_step(
    s: StepLog,
    begun: StepLog,
    hint: Seq<char>,
    snapshot_id: Option<Seq<char>>,
    error: Option<Seq<char>>,
) -> bool {
    &&& s.step == begun.step
    &&& s.plan == begun.plan
    &&& s.action == begun.action
    &&& s.approval == begun.approval
    &&& s.timestamp_ms == begun.timestamp_ms
    &&& s.result_hint@ == hint
    &&& opt_text(s.snapshot_id) == snapshot_id
    &&& opt_text(s.error) == error
}

/// A conversational turn: the service spoke and no device action was taken.
pub open spec fn message_step(s: StepLog, i: nat, plan: String, elapsed_ms: u128) -> bool {
    &&& s.step == i
    &&& s.plan == plan
    &&& s.action is None
    &&& s.approval is None
    &&& s.result_hint@ == "message"@
    &&& s.snapshot_id is None
    &&& s.error is None
    &&& s.timestamp_ms == elapsed_ms
}

/// A step that failed before any thought was produced.
pub open spec fn failed_step(s: StepLog, i: nat, e: AgentError, elapsed_ms: u128) -> bool {
    &&& s.step == i
    &&& s.plan@.len() == 0
    &&& s.action is None
    &&& s.approval is None
    &&& s.result_hint@ == "error"@
    &&& s.snapshot_id is None
    &&& opt_text(s.error) == Some(error_text(e))
    &&& s.timestamp_ms == elapsed_ms
}

/// `rep` is the report of run `v`, ended with `status` and error text `error`
/// after `elapsed_ms`.
pub open spec fn final_report(
    rep: RunReport,
    v: RunView,
    status: RunStatus,
    error: Seq<char>,
    elapsed_ms: u128,
) -> bool {
    &&& rep.run_id == v.run_id
    &&& rep.goal == v.goal
    &&& rep.status == status
    &&& rep.steps@ == v.steps
    &&& rep.last_snapshot == Some(v.last_snapshot)
    &&& rep.metrics.steps == v.steps.len()
    &&& rep.metrics.time_ms == elapsed_ms
    &&& rep.metrics.success == (status == RunStatus::Success)
    &&& opt_text(rep.error) == Some(error)
}

/// The error text of a run that used up its step budget: the last remembered
/// error, if any.
pub open spec fn budget_error(v: RunView) -> Seq<char> {
    match v.last_error {
        Some(e) => error_text(e),
        None => "Step budget exceeded"@,
    }
}

/// `v` after appending the finished `step`: ready for the next iteration, with
/// the remembered error replaced when `error_update` is present.
pub open spec fn recorded(v: RunView, step: StepLog, error_update: Option<Option<AgentError>>) -> RunView {
    RunView {
        steps: v.steps.push(step),
        last_error: match error_update {
            Some(x) => x,
            None => v.last_error,
        },
        phase: Phase::Ready,
        current: None,
        ..v
    }
}

/// The scope reported for a denial: the one the policy named, else navigation.
pub open spec fn denied_scope(ap: Approval) -> Scope {
    match ap.scope {
        Some(s) => s,
        None => Scope::BrowserNavigate,
    }
}

/// The result classifier of a device action that succeeded.
pub open spec fn change_hint(changed: bool) -> Seq<char> {
    if changed {
        "changed"@
    } else {
        "unchanged"@
    }
}

/// A report stays within the step budget and, unless the run succeeded,
/// counts exactly the steps it holds.
pub open spec fn report_within_budget(rep: RunReport, max_steps: nat) -> bool {
    &&& rep.steps@.len() <= max_steps
    &&& rep.status != RunStatus::Success ==> rep.metrics.steps == rep.steps@.len()
}

/// Every report of a consistent run holds at most `max_steps` steps and,
/// unless the run succeeded, counts exactly the steps it holds.
pub proof fn lemma_report_within_budget(
    v: RunView,
    rep: RunReport,
    status: RunStatus,
    error: Seq<char>,
    elapsed_ms: u128,
)
    requires
        run_wf(v),
        final_report(rep, v, status, error, elapsed_ms),
    ensures
        report_within_budget(rep, v.max_steps),
{
}

impl RunLoop {
    /// The consistency invariant of the run.
    pub open spec fn wf(&self) -> bool {
        run_wf(self@)
    }

    /// A fresh identifier for a new run, generated once per run.
    pub fn new_run_id() -> (r: String)
        ensures
            is_fresh_id(r@),
    {
        fresh_id()
    }

    /// Begins a run after its start has been recorded and its first snapshot
    /// taken.
    pub fn start(cfg: &AgentConfig, run_id: String, goal: Goal, initial: Snapshot) -> (r: RunLoop)
        ensures
            r.wf(),
            r@.max_steps == cfg.max_steps,
            r@.run_id == run_id,
            r@.goal == goal,
            r@.steps.len() == 0,
            r@.last_snapshot == initial,
            r@.last_error is None,
            r@.phase == Phase::Ready,
            r@.current is None,
    {
        RunLoop {
            max_steps: cfg.max_steps,
            run_id,
            goal,
            steps: Vec::new(),
            last_snapshot: initial,
            last_error: None,
            phase: Phase::Ready,
            current: None,
        }
    }

    /// The identifier of the run.
    pub fn run_id(&self) -> (r: &String)
        ensures
            *r == self@.run_id,
    {
        &self.run_id
    }

    /// The goal of the run.
    pub fn goal(&self) -> (r: &Goal)
        ensures
            *r == self@.goal,
    {
        &self.goal
    }

    /// The latest observation of the device.
    pub fn last_snapshot(&self) -> (r: &Snapshot)
        ensures
            *r == self@.last_snapshot,
    {
        &self.last_snapshot
    }

    /// The failure of the previous iteration, handed to the next reasoning call.
    pub fn last_error(&self) -> (r: Option<&AgentError>)
        ensures
            r == match self@.last_error {
                Some(e) => Some(&e),
                None => None::<&AgentError>,
            },
    {
        match &self.last_error {
            Some(e) => Some(e),
            None => None,
        }
    }

    /// The action waiting for approval or execution.
    pub fn pending_action(&self) -> (r: Option<&Action>)
        ensures
            r == match self@.current {
                Some(c) => match c.action {
                    Some(a) => Some(&a),
                    None => None::<&Action>,
                },
                None => None::<&Action>,
            },
    {
        match &self.current {
            Some(c) => match &c.action {
                Some(a) => Some(a),
                None => None,
            },
            None => None,
        }
    }

    /// The steps recorded so far.
    pub fn steps(&self) -> (r: &Vec<StepLog>)
        ensures
            r@ == self@.steps,
    {
        &self.steps
    }

    /// What the run is waiting for.
    pub fn phase(&self) -> (r: Phase)
        ensures
            r == self@.phase,
    {
        self.phase
    }

    /// Builds the report of the run.
    fn finish(self, status: RunStatus, error: String, elapsed_ms: u128) -> (rep: RunReport)
        requires
            self.wf(),
        ensures
            final_report(rep, self@, status, error@, elapsed_ms),
            report_within_budget(rep, self@.max_steps),
    {
        let n = self.steps.len();
        let success = match status {
            RunStatus::Success => true,
            _ => false,
        };
        RunReport {
            run_id: self.run_id,
            goal: self.goal,
            status,
            metrics: RunMetrics { steps: n, time_ms: elapsed_ms, success },
            steps: self.steps,
            last_snapshot: Some(self.last_snapshot),
            error: Some(error),
        }
    }

    /// Appends a finished step and makes the run ready for its next iteration;
    /// `error_update` replaces the remembered error when present.
    fn record(self, step: StepLog, error_update: Option<Option<AgentError>>, archive_snapshot: bool) -> (t: Transition)
        requires
            trail_wf(self@),
            self@.steps.len() < self@.max_steps,
            step.step == self@.steps.len(),
        ensures
            t matches Transition::Next(r, cmd) && r.wf() && r@ == recorded(self@, step, error_update)
                && cmd == (RunCommand::RecordStep { archive_snapshot }),
    {
        let RunLoop { max_steps, run_id, goal, mut steps, last_snapshot, last_error, phase: _, current: _ } = self;
        steps.push(step);
        let last_error = match error_update {
            Some(x) => x,
            None => last_error,
        };
        let r = RunLoop {
            max_steps,
            run_id,
            goal,
            steps,
            last_snapshot,
            last_error,
            phase: Phase::Ready,
            current: None,
        };
        Transition::Next(r, RunCommand::RecordStep { archive_snapshot })
    }

    /// Moves the run to phase `p`, keeping everything else.
    fn moved_to(self, p: Phase, current: Option<StepLog>) -> (r: RunLoop)
        ensures
            r@ == (RunView { phase: p, current, ..self@ }),
    {
        RunLoop { phase: p, current, ..self }
    }

    /// The record of iteration `i` that failed with `e` before any thought.
    fn failure_step(i: usize, e: &AgentError, elapsed_ms: u128) -> (s: StepLog)
        ensures
            failed_step(s, i as nat, *e, elapsed_ms),
    {
        proof {
            reveal_strlit("error");
        }
        StepLog {
            step: i,
            plan: String::new(),
            action: None,
            approval: None,
            result_hint: String::from_str("error"),
            snapshot_id: None,
            error: Some(e.to_text()),
            timestamp_ms: elapsed_ms,
        }
    }

    /// Begins an iteration. The budget checks come strictly before any other
    /// work: once the step budget is used up, or once the goal's deadline has
    /// passed, the run ends with status `Timeout` and no further call is made.
    pub fn begin_iteration(self, elapsed_ms: u128) -> (t: Transition)
        requires
            self.wf(),
            self@.phase == Phase::Ready,
        ensures
            self@.steps.len() >= self@.max_steps ==> (t matches Transition::Finished(rep)
                && final_report(rep, self@, RunStatus::Timeout, budget_error(self@), elapsed_ms)),
            self@.steps.len() < self@.max_steps && deadline_passed(self@.goal, elapsed_ms) ==> (
                t matches Transition::Finished(rep)
                && final_report(rep, self@, RunStatus::Timeout, "Run budget exceeded"@, elapsed_ms)),
            self@.steps.len() < self@.max_steps && !deadline_passed(self@.goal, elapsed_ms) ==> (
                t matches Transition::Next(r, cmd)
                && r.wf()
                && r@ == in_phase(self@, Phase::GoalCheck)
                && cmd == RunCommand::CheckGoal),
            t matches Transition::Finished(rep) ==> report_within_budget(rep, self@.max_steps),
    {
        if self.steps.len() >= self.max_steps {
            let error = match &self.last_error {
                Some(e) => e.to_text(),
                None => String::from_str("Step budget exceeded"),
            };
            return Transition::Finished(self.finish(RunStatus::Timeout, error, elapsed_ms));
        }
        let passed = match self.goal.timeout_ms {
            Some(t) => elapsed_ms >= t,
            None => false,
        };
        if passed {
            let error = String::from_str("Run budget exceeded");
            return Transition::Finished(self.finish(RunStatus::Timeout, error, elapsed_ms));
        }
        Transition::Next(self.moved_to(Phase::GoalCheck, None), RunCommand::CheckGoal)
    }

    /// Takes the reasoner's verdict on the goal. A met goal ends the run with
    /// status `Success`; a reasoning failure is recorded as an `error` step and
    /// remembered for the next reasoning call.
    pub fn goal_checked(self, met: Result<bool, AgentError>, elapsed_ms: u128) -> (t: Transition)
        requires
            self.wf(),
            self@.phase == Phase::GoalCheck,
        ensures
            met == Ok::<bool, AgentError>(true) ==> (t matches Transition::Finished(rep)
                && final_report(rep, self@, RunStatus::Success, "Goal met"@, elapsed_ms)),
            met == Ok::<bool, AgentError>(false) ==> (t matches Transition::Next(r, cmd)
                && r.wf()
                && r@ == in_phase(self@, Phase::Thinking)
                && cmd == RunCommand::Think),
            met matches Err(e) ==> (t matches Transition::Next(r, cmd)
                && r.wf()
                && r@.steps.len() == self@.steps.len() + 1
                && r@.steps.drop_last() == self@.steps
                && failed_step(r@.steps.last(), self@.steps.len(), e, elapsed_ms)
                && r@ == (RunView { steps: r@.steps, last_error: Some(e), phase: Phase::Ready, current: None, ..self@ })
                && cmd == (RunCommand::RecordStep { archive_snapshot: false })),
            t matches Transition::Finished(rep) ==> report_within_budget(rep, self@.max_steps),
    {
        match met {
            Ok(true) => {
                let error = String::from_str("Goal met");
                Transition::Finished(self.finish(RunStatus::Success, error, elapsed_ms))
            },
            Ok(false) => Transition::Next(self.moved_to(Phase::Thinking, None), RunCommand::Think),
            Err(e) => {
                let step = Self::failure_step(self.steps.len(), &e, elapsed_ms);
                self.record(step, Some(Some(e)), false)
            },
        }
    }

    /// Takes the reasoner's thought. A thought without an action but with
    /// non-blank text is a conversational turn, recorded as a `message` step
    /// without touching the device; an action goes to the policy first; a
    /// blank thought leads to a bare observation. A reasoning failure is
    /// recorded as an `error` step and remembered.
    pub fn thought(self, thought: Result<Thought, AgentError>, elapsed_ms: u128) -> (t: Transition)
        requires
            self.wf(),
            self@.phase == Phase::Thinking,
        ensures
            t matches Transition::Next(r, cmd) && r.wf() && r@.max_steps == self@.max_steps
                && r@.run_id == self@.run_id && r@.goal == self@.goal
                && r@.last_snapshot == self@.last_snapshot,
            thought matches Err(e) ==> (t matches Transition::Next(r, cmd)
                && r@.steps.len() == self@.steps.len() + 1
                && r@.steps.drop_last() == self@.steps
                && failed_step(r@.steps.last(), self@.steps.len(), e, elapsed_ms)
                && r@.last_error == Some(e)
                && r@.phase == Phase::Ready
                && cmd == (RunCommand::RecordStep { archive_snapshot: false })),
            thought matches Ok(th) ==> (th.action is None && !is_blank_spec(th.plan@) ==> (
                t matches Transition::Next(r, cmd)
                && r@.steps.len() == self@.steps.len() + 1
                && r@.steps.drop_last() == self@.steps
                && message_step(r@.steps.last(), self@.steps.len(), th.plan, elapsed_ms)
                && r@.last_error == self@.last_error
                && r@.phase == Phase::Ready
                && cmd == (RunCommand::RecordStep { archive_snapshot: false }))),
            thought matches Ok(th) ==> (th.action is Some ==> (t matches Transition::Next(r, cmd)
                && r@.steps == self@.steps
                && r@.last_error == self@.last_error
                && r@.phase == Phase::Approving
                && pending_begun(r@.current, self@.steps.len(), th.plan, th.action, elapsed_ms)
                && cmd == RunCommand::Approve)),
            thought matches Ok(th) ==> (th.action is None && is_blank_spec(th.plan@) ==> (
                t matches Transition::Next(r, cmd)
                && r@.steps == self@.steps
                && r@.last_error == self@.last_error
                && r@.phase == Phase::Observing
                && pending_begun(r@.current, self@.steps.len(), th.plan, None, elapsed_ms)
                && cmd == RunCommand::Observe)),
    {
        let i = self.steps.len();
        match thought {
            Err(e) => {
                let step = Self::failure_step(i, &e, elapsed_ms);
                self.record(step, Some(Some(e)), false)
            },
            Ok(th) => {
                let has_action = th.action.is_some();
                let blank = is_blank(th.plan.as_str());
                let mut step = StepLog {
                    step: i,
                    plan: th.plan,
                    action: th.action,
                    approval: None,
                    result_hint: String::new(),
                    snapshot_id: None,
                    error: None,
                    timestamp_ms: elapsed_ms,
                };
                if !has_action && !blank {
                    proof {
                        reveal_strlit("message");
                    }
                    step.result_hint = String::from_str("message");
                    self.record(step, None, false)
                } else if has_action {
                    Transition::Next(self.moved_to(Phase::Approving, Some(step)), RunCommand::Approve)
                } else {
                    Transition::Next(self.moved_to(Phase::Observing, Some(step)), RunCommand::Observe)
                }
            },
        }
    }
    /// Takes the policy's answer about the pending action. An approved action
    /// goes to the device. A denied one is recorded as a `denied` step, the
    /// denial is remembered for the next reasoning call, and the run goes on.
    /// A policy failure is recorded as an `error` step and remembered.
    pub fn approval(self, approval: Result<Approval, AgentError>) -> (t: Transition)
        requires
            self.wf(),
            self@.phase == Phase::Approving,
        ensures
            t matches Transition::Next(r, cmd) && r.wf() && r@.max_steps == self@.max_steps
                && r@.run_id == self@.run_id && r@.goal == self@.goal
                && r@.last_snapshot == self@.last_snapshot,
            approval matches Ok(ap) ==> (ap.granted ==> (t matches Transition::Next(r, cmd)
                && r@.steps == self@.steps
                && r@.last_error == self@.last_error
                && r@.phase == Phase::Executing
                && r@.current == Some(StepLog { approval: Some(ap), ..self@.current->0 })
                && cmd == RunCommand::Execute)),
            approval matches Ok(ap) ==> (!ap.granted ==> (t matches Transition::Next(r, cmd)
                && r@.steps.len() == self@.steps.len() + 1
                && r@.steps.drop_last() == self@.steps
                && completed_step(r@.steps.last(), (StepLog { approval: Some(ap), ..self@.current->0 }),
                    "denied"@, None, None)
                && r@.last_error == Some(AgentError::Denied(denied_scope(ap)))
                && r@.phase == Phase::Ready
                && cmd == (RunCommand::RecordStep { archive_snapshot: false }))),
            approval matches Err(e) ==> (t matches Transition::Next(r, cmd)
                && r@.steps.len() == self@.steps.len() + 1
                && r@.steps.drop_last() == self@.steps
                && completed_step(r@.steps.last(), self@.current->0, "error"@, None, Some(error_text(e)))
                && r@.last_error == Some(e)
                && r@.phase == Phase::Ready
                && cmd == (RunCommand::RecordStep { archive_snapshot: false })),
    {
        let RunLoop { max_steps, run_id, goal, steps, last_snapshot, last_error, phase: _, current } = self;
        let mut step = current.unwrap();
        let run = RunLoop {
            max_steps,
            run_id,
            goal,
            steps,
            last_snapshot,
            last_error,
            phase: Phase::Approving,
            current: None,
        };
        proof {
            reveal_strlit("denied");
            reveal_strlit("error");
        }
        match approval {
            Ok(ap) => {
                if ap.granted {
                    step.approval = Some(ap);
                    Transition::Next(run.moved_to(Phase::Executing, Some(step)), RunCommand::Execute)
                } else {
                    let scope = match ap.scope {
                        Some(s) => s,
                        None => Scope::BrowserNavigate,
                    };
                    step.approval = Some(ap);
                    step.result_hint = String::from_str("denied");
                    run.record(step, Some(Some(AgentError::Denied(scope))), false)
                }
            },
            Err(e) => {
                step.result_hint = String::from_str("error");
                step.error = Some(e.to_text());
                run.record(step, Some(Some(e)), false)
            },
        }
    }

    /// Completes the step being built with the device's outcome: on success
    /// the new snapshot becomes the latest, is archived, and the remembered
    /// error is cleared; on failure the error is recorded and remembered, and
    /// the run goes on.
    fn conclude(self, outcome: Result<(Snapshot, bool), AgentError>) -> (t: Transition)
        requires
            self.wf(),
            self@.phase == Phase::Executing || self@.phase == Phase::Observing,
        ensures
            t matches Transition::Next(r, cmd) && r.wf() && r@.max_steps == self@.max_steps
                && r@.run_id == self@.run_id && r@.goal == self@.goal
                && r@.phase == Phase::Ready && r@.current is None
                && r@.steps.len() == self@.steps.len() + 1
                && r@.steps.drop_last() == self@.steps,
            outcome matches Ok((snap, changed)) ==> (t matches Transition::Next(r, cmd)
                && r@.last_snapshot == snap
                && completed_step(r@.steps.last(), self@.current->0, change_hint(changed), Some(snap.id@), None)
                && r@.last_error is None
                && cmd == (RunCommand::RecordStep { archive_snapshot: true })),
            outcome matches Err(e) ==> (t matches Transition::Next(r, cmd)
                && r@.last_snapshot == self@.last_snapshot
                && completed_step(r@.steps.last(), self@.current->0, "error"@, None, Some(error_text(e)))
                && r@.last_error == Some(e)
                && cmd == (RunCommand::RecordStep { archive_snapshot: false })),
    {
        let RunLoop { max_steps, run_id, goal, mut steps, last_snapshot, last_error, phase, current } = self;
        let mut step = current.unwrap();
        proof {
            reveal_strlit("changed");
            reveal_strlit("unchanged");
            reveal_strlit("error");
        }
        match outcome {
            Ok((snap, changed)) => {
                step.result_hint = if changed {
                    String::from_str("changed")
                } else {
                    String::from_str("unchanged")
                };
                step.snapshot_id = Some(snap.id.clone());
                steps.push(step);
                let r = RunLoop {
                    max_steps,
                    run_id,
                    goal,
                    steps,
                    last_snapshot: snap,
                    last_error: None,
                    phase: Phase::Ready,
                    current: None,
                };
                Transition::Next(r, RunCommand::RecordStep { archive_snapshot: true })
            },
            Err(e) => {
                step.result_hint = String::from_str("error");
                step.error = Some(e.to_text());
                steps.push(step);
                let r = RunLoop {
                    max_steps,
                    run_id,
                    goal,
                    steps,
                    last_snapshot,
                    last_error: Some(e),
                    phase: Phase::Ready,
                    current: None,
                };
                Transition::Next(r, RunCommand::RecordStep { archive_snapshot: false })
            },
        }
    }

    /// Takes the device's outcome for the approved action.
    pub fn executed(self, result: Result<ActionResult, AgentError>) -> (t: Transition)
        requires
            self.wf(),
            self@.phase == Phase::Executing,
        ensures
            t matches Transition::Next(r, cmd) && r.wf() && r@.max_steps == self@.max_steps
                && r@.run_id == self@.run_id && r@.goal == self@.goal
                && r@.phase == Phase::Ready
                && r@.steps.len() == self@.steps.len() + 1
                && r@.steps.drop_last() == self@.steps,
            result matches Ok(out) ==> (t matches Transition::Next(r, cmd)
                && r@.last_snapshot == out.snapshot
                && completed_step(r@.steps.last(), self@.current->0, change_hint(out.changed),
                    Some(out.snapshot.id@), None)
                && r@.last_error is None
                && cmd == (RunCommand::RecordStep { archive_snapshot: true })),
            result matches Err(e) ==> (t matches Transition::Next(r, cmd)
                && r@.last_snapshot == self@.last_snapshot
                && completed_step(r@.steps.last(), self@.current->0, "error"@, None, Some(error_text(e)))
                && r@.last_error == Some(e)
                && cmd == (RunCommand::RecordStep { archive_snapshot: false })),
    {
        let outcome = match result {
            Ok(out) => Ok((out.snapshot, out.changed)),
            Err(e) => Err(e),
        };
        self.conclude(outcome)
    }

    /// Takes the bare observation made when the thought produced no action;
    /// a successful observation counts as an unchanged step.
    pub fn observed(self, result: Result<Snapshot, AgentError>) -> (t: Transition)
        requires
            self.wf(),
            self@.phase == Phase::Observing,
        ensures
            t matches Transition::Next(r, cmd) && r.wf() && r@.max_steps == self@.max_steps
                && r@.run_id == self@.run_id && r@.goal == self@.goal
                && r@.phase == Phase::Ready
                && r@.steps.len() == self@.steps.len() + 1
                && r@.steps.drop_last() == self@.steps,
            result matches Ok(snap) ==> (t matches Transition::Next(r, cmd)
                && r@.last_snapshot == snap
                && completed_step(r@.steps.last(), self@.current->0, "unchanged"@, Some(snap.id@), None)
                && r@.last_error is None
                && cmd == (RunCommand::RecordStep { archive_snapshot: true })),
            result matches Err(e) ==> (t matches Transition::Next(r, cmd)
                && r@.last_snapshot == self@.last_snapshot
                && completed_step(r@.steps.last(), self@.current->0, "error"@, None, Some(error_text(e)))
                && r@.last_error == Some(e)
                && cmd == (RunCommand::RecordStep { archive_snapshot: false })),
    {
        let outcome = match result {
            Ok(snap) => Ok((snap, false)),
            Err(e) => Err(e),
        };
        self.conclude(outcome)
    }
}

} // verus!
