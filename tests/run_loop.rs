use agentx::adapters::NoopComputer;
use agentx::controller::{Phase, RunCommand, RunLoop, Transition};
use agentx::cua::CuaOutput;
use agentx::model::{
    Action, ActionResult, AgentConfig, AgentError, Approval, Goal, Locator, RunReport, RunStatus, Scope, Snapshot,
    Thought,
};
use agentx::reasoner::{CuaReasonerConfig, CuaState};
use std::time::Duration;

fn config(max_steps: usize) -> AgentConfig {
    AgentConfig { max_steps, step_timeout: Duration::from_millis(3000), scopes: vec![Scope::BrowserNavigate] }
}

fn snapshot(id: &str) -> Snapshot {
    Snapshot {
        id: id.to_string(),
        url: Some("https://example.com".to_string()),
        title: None,
        image_base64: None,
        dom_summary: None,
        captured_at_ms: 0,
    }
}

fn click() -> Action {
    Action::Click { target: Locator::Coordinates { x: 10, y: 20 } }
}

/// Stand-ins for the collaborators of one run.
struct Collaborators<'a> {
    goal_met: Box<dyn FnMut() -> Result<bool, AgentError> + 'a>,
    think: Box<dyn FnMut(Option<&AgentError>) -> Result<Thought, AgentError> + 'a>,
    approve: Box<dyn FnMut(&Action) -> Result<Approval, AgentError> + 'a>,
    execute: Box<dyn FnMut(&Action) -> Result<ActionResult, AgentError> + 'a>,
    observe: Box<dyn FnMut() -> Result<Snapshot, AgentError> + 'a>,
}

/// Performs each command of the run until it ends, one millisecond per
/// command; returns the report and the commands seen.
fn drive(run: RunLoop, c: &mut Collaborators) -> (RunReport, Vec<RunCommand>) {
    let mut clock: u128 = 0;
    let mut seen = Vec::new();
    let mut t = run.begin_iteration(clock);
    loop {
        clock += 1;
        let (r, cmd) = match t {
            Transition::Finished(report) => return (report, seen),
            Transition::Next(r, cmd) => (r, cmd),
        };
        seen.push(cmd);
        t = match cmd {
            RunCommand::CheckGoal => {
                let met = (c.goal_met)();
                r.goal_checked(met, clock)
            }
            RunCommand::Think => {
                let thought = (c.think)(r.last_error());
                r.thought(thought, clock)
            }
            RunCommand::Approve => {
                let a = (c.approve)(r.pending_action().unwrap());
                r.approval(a)
            }
            RunCommand::Execute => {
                let out = (c.execute)(r.pending_action().unwrap());
                r.executed(out)
            }
            RunCommand::Observe => {
                let s = (c.observe)();
                r.observed(s)
            }
            RunCommand::RecordStep { .. } => r.begin_iteration(clock),
        };
    }
}

fn quiet<'a>() -> Collaborators<'a> {
    Collaborators {
        goal_met: Box::new(|| Ok(false)),
        think: Box::new(|_| Ok(Thought { plan: String::new(), action: None, rationale: None })),
        approve: Box::new(|_| Ok(Approval { granted: true, scope: None, reason: None })),
        execute: Box::new(|_| Ok(ActionResult { snapshot: snapshot("after"), changed: true, message: None })),
        observe: Box::new(|| Ok(snapshot("observed"))),
    }
}

#[test]
fn zero_timeout_ends_before_any_step() {
    let mut goal = Goal::for_task("open the page");
    goal.timeout_ms = Some(0);
    let initial = NoopComputer.open_url("https://example.com");
    let run = RunLoop::start(&config(5), "run-1".to_string(), goal, initial);
    match run.begin_iteration(0) {
        Transition::Finished(report) => {
            assert_eq!(report.status, RunStatus::Timeout);
            assert!(report.steps.is_empty());
            assert_eq!(report.metrics.steps, 0);
            assert!(!report.metrics.success);
            assert_eq!(report.error.as_deref(), Some("Run budget exceeded"));
            assert_eq!(report.run_id, "run-1");
            assert_eq!(report.last_snapshot.unwrap().url.as_deref(), Some("https://example.com"));
        }
        Transition::Next(..) => panic!("the run must end at the deadline"),
    }
}

#[test]
fn message_then_goal_met_succeeds_after_one_step() {
    let rcfg = CuaReasonerConfig::default();
    let session = std::cell::RefCell::new(CuaState::new());
    let mut c = quiet();
    c.goal_met = Box::new(|| Ok(session.borrow().is_goal_met(&rcfg)));
    c.think = Box::new(|_| Ok(session.borrow_mut().apply(&rcfg, CuaOutput::Message { text: "done".to_string() })));
    let run = RunLoop::start(&config(5), "run-2".to_string(), Goal::for_task("say done"), snapshot("s0"));
    let (report, _) = drive(run, &mut c);
    assert_eq!(report.status, RunStatus::Success);
    assert_eq!(report.metrics.steps, 1);
    assert!(report.metrics.success);
    assert_eq!(report.steps.len(), 1);
    assert_eq!(report.steps[0].result_hint, "message");
    assert_eq!(report.steps[0].plan, "done");
    assert_eq!(report.error.as_deref(), Some("Goal met"));
}

#[test]
fn denied_click_every_time_exhausts_the_budget() {
    let mut c = quiet();
    c.think = Box::new(|_| Ok(Thought { plan: String::new(), action: Some(click()), rationale: None }));
    c.approve = Box::new(|_| Ok(Approval { granted: false, scope: None, reason: Some("no".to_string()) }));
    c.execute = Box::new(|_| panic!("a denied action must not reach the device"));
    let run = RunLoop::start(&config(3), "run-3".to_string(), Goal::for_task("click"), snapshot("s0"));
    let (report, seen) = drive(run, &mut c);
    assert_eq!(report.status, RunStatus::Timeout);
    assert_eq!(report.steps.len(), 3);
    assert_eq!(report.metrics.steps, 3);
    for (i, step) in report.steps.iter().enumerate() {
        assert_eq!(step.step, i);
        assert_eq!(step.result_hint, "denied");
        assert!(step.error.is_none());
        assert!(!step.approval.as_ref().unwrap().granted);
    }
    assert_eq!(report.error.as_deref(), Some("policy denied: BrowserNavigate"));
    assert!(!seen.contains(&RunCommand::Execute));
}

#[test]
fn denial_names_the_scope_and_the_run_goes_on() {
    let run = RunLoop::start(&config(2), "run-4".to_string(), Goal::for_task("copy"), snapshot("s0"));
    let r = match run.begin_iteration(0) {
        Transition::Next(r, RunCommand::CheckGoal) => r,
        _ => panic!(),
    };
    let r = match r.goal_checked(Ok(false), 1) {
        Transition::Next(r, RunCommand::Think) => r,
        _ => panic!(),
    };
    let thought = Thought { plan: String::new(), action: Some(Action::ClipboardRead), rationale: None };
    let r = match r.thought(Ok(thought), 2) {
        Transition::Next(r, RunCommand::Approve) => r,
        _ => panic!(),
    };
    assert_eq!(r.phase(), Phase::Approving);
    let denial = Approval { granted: false, scope: Some(Scope::ClipboardRead), reason: None };
    let r = match r.approval(Ok(denial)) {
        Transition::Next(r, RunCommand::RecordStep { archive_snapshot: false }) => r,
        _ => panic!("a denial must not end the run"),
    };
    assert_eq!(r.steps()[0].result_hint, "denied");
    assert_eq!(r.steps()[0].timestamp_ms, 2);
    match r.last_error() {
        Some(AgentError::Denied(Scope::ClipboardRead)) => {}
        other => panic!("unexpected last error {:?}", other),
    }
}

#[test]
fn failed_execution_is_logged_and_passed_to_the_next_thought() {
    let errors_seen = std::cell::RefCell::new(Vec::new());
    let calls = std::cell::Cell::new(0);
    let mut c = quiet();
    c.think = Box::new(|e| {
        errors_seen.borrow_mut().push(e.map(|e| e.to_text()));
        Ok(Thought { plan: String::new(), action: Some(click()), rationale: None })
    });
    c.execute = Box::new(|_| {
        calls.set(calls.get() + 1);
        if calls.get() == 1 {
            Err(AgentError::Computer("boom".to_string()))
        } else {
            Ok(ActionResult { snapshot: snapshot("after"), changed: true, message: None })
        }
    });
    let run = RunLoop::start(&config(3), "run-5".to_string(), Goal::for_task("click"), snapshot("s0"));
    let (report, _) = drive(run, &mut c);
    assert_eq!(report.steps[0].result_hint, "error");
    assert_eq!(report.steps[0].error.as_deref(), Some("computer error: boom"));
    assert_eq!(report.steps[0].snapshot_id, None);
    assert_eq!(errors_seen.borrow()[0], None);
    assert_eq!(errors_seen.borrow()[1].as_deref(), Some("computer error: boom"));
    assert_eq!(errors_seen.borrow()[2], None);
    assert_eq!(report.steps[1].result_hint, "changed");
    assert_eq!(report.steps[1].snapshot_id.as_deref(), Some("after"));
    assert_eq!(report.steps.len(), 3);
    assert_eq!(report.status, RunStatus::Timeout);
    assert_eq!(report.error.as_deref(), Some("Step budget exceeded"));
    assert_eq!(report.last_snapshot.unwrap().id, "after");
}

#[test]
fn step_budget_keeps_the_last_error() {
    let mut c = quiet();
    c.goal_met = Box::new(|| Err(AgentError::Reasoner("offline".to_string())));
    let run = RunLoop::start(&config(2), "run-6".to_string(), Goal::for_task("x"), snapshot("s0"));
    let (report, _) = drive(run, &mut c);
    assert_eq!(report.status, RunStatus::Timeout);
    assert_eq!(report.steps.len(), 2);
    assert_eq!(report.metrics.steps, report.steps.len());
    assert_eq!(report.steps[1].result_hint, "error");
    assert_eq!(report.steps[1].plan, "");
    assert_eq!(report.error.as_deref(), Some("reasoner error: offline"));
}

#[test]
fn unchanged_observation_when_the_thought_is_blank() {
    let mut c = quiet();
    c.think = Box::new(|_| Ok(Thought { plan: "  \n".to_string(), action: None, rationale: None }));
    let run = RunLoop::start(&config(1), "run-7".to_string(), Goal::for_task("look"), snapshot("s0"));
    let (report, seen) = drive(run, &mut c);
    assert_eq!(seen[2], RunCommand::Observe);
    assert_eq!(seen[3], RunCommand::RecordStep { archive_snapshot: true });
    assert_eq!(report.steps[0].result_hint, "unchanged");
    assert_eq!(report.steps[0].snapshot_id.as_deref(), Some("observed"));
    assert_eq!(report.last_snapshot.unwrap().id, "observed");
}

#[test]
fn deadline_checked_before_any_other_work() {
    let mut goal = Goal::for_task("slow");
    goal.timeout_ms = Some(5);
    let mut c = quiet();
    c.think = Box::new(|_| Ok(Thought { plan: "thinking".to_string(), action: None, rationale: None }));
    let run = RunLoop::start(&config(100), "run-8".to_string(), goal, snapshot("s0"));
    let (report, seen) = drive(run, &mut c);
    assert_eq!(report.status, RunStatus::Timeout);
    assert_eq!(report.error.as_deref(), Some("Run budget exceeded"));
    // Each command takes one millisecond: iterations begin at 0, 3 and 6.
    assert_eq!(report.steps.len(), 2);
    assert_eq!(report.metrics.steps, 2);
    assert_eq!(report.metrics.time_ms, 6);
    assert_eq!(seen.len(), 6);
    assert_eq!(report.steps[1].result_hint, "message");
}

#[test]
fn zero_step_budget_ends_at_once() {
    let run = RunLoop::start(&config(0), "run-9".to_string(), Goal::for_task("none"), snapshot("s0"));
    match run.begin_iteration(0) {
        Transition::Finished(report) => {
            assert_eq!(report.status, RunStatus::Timeout);
            assert_eq!(report.error.as_deref(), Some("Step budget exceeded"));
            assert!(report.steps.is_empty());
        }
        Transition::Next(..) => panic!(),
    }
}

#[test]
fn policy_failure_is_an_error_step() {
    let mut c = quiet();
    c.think = Box::new(|_| Ok(Thought { plan: String::new(), action: Some(click()), rationale: None }));
    c.approve = Box::new(|_| Err(AgentError::Other("policy down".to_string())));
    let run = RunLoop::start(&config(1), "run-10".to_string(), Goal::for_task("click"), snapshot("s0"));
    let (report, _) = drive(run, &mut c);
    assert_eq!(report.steps[0].result_hint, "error");
    assert!(report.steps[0].approval.is_none());
    assert_eq!(report.steps[0].error.as_deref(), Some("other error: policy down"));
    assert_eq!(report.error.as_deref(), Some("other error: policy down"));
}
