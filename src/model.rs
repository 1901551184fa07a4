//! The data model shared by the run controller and the reasoning session:
//! device-agnostic actions, observations, decisions, step logs and reports.
use std::time::Duration;
use vstd::prelude::*;

verus! {

/// A device-agnostic description of one action on the controlled device.
#[derive(Clone, Debug)]
pub enum Action {
    Click { target: Locator },
    Type { text: String, into: Locator },
    Key { combo: String },
    Hover { target: Locator },
    Scroll { target: Option<Locator>, dx: i32, dy: i32 },
    Drag { from: Locator, to: Locator },
    NavGoto { url: String },
    Submit { target: Locator },
    FileUpload { target: Locator, path: String },
    ClipboardRead,
    ClipboardWrite { data: String },
}

/// How an action addresses an element; the strategies are mutually exclusive.
#[derive(Clone, Debug)]
pub enum Locator {
    Css { selector: String },
    XPath { expr: String },
    Text { pattern: String },
    Id { id: String },
    Aria { role: Option<String>, name: Option<String> },
    Coordinates { x: i32, y: i32 },
}

/// A point-in-time observation of the device.
#[derive(Clone, Debug)]
pub struct Snapshot {
    pub id: String,
    pub url: Option<String>,
    pub title: Option<String>,
    pub image_base64: Option<String>,
    pub dom_summary: Option<String>,
    pub captured_at_ms: u128,
}

/// What the device reports after executing an action.
#[derive(Clone, Debug)]
pub struct ActionResult {
    pub snapshot: Snapshot,
    pub changed: bool,
    pub message: Option<String>,
}

/// Per-run memory handed to the reasoner.
#[derive(Clone, Debug, Default)]
pub struct Memory {
    pub run_id: String,
    pub notes: Vec<String>,
}

/// The task of a run, with its constraints, success criteria and an optional
/// budget in milliseconds from the start of the run.
#[derive(Clone, Debug)]
pub struct Goal {
    pub task: String,
    pub constraints: Vec<String>,
    pub success_criteria: Vec<String>,
    pub timeout_ms: Option<u128>,
}

/// The reasoner's decision for one iteration of the run loop.
#[derive(Clone, Debug)]
pub struct Thought {
    pub plan: String,
    pub action: Option<Action>,
    pub rationale: Option<String>,
}

/// A capability class that gates policy approval.
#[derive(Clone, Copy, Debug, PartialEq, Eq, Structural)]
pub enum Scope {
    BrowserNavigate,
    ClipboardRead,
    ClipboardWrite,
    FileAccess,
    Network,
}

/// The policy's answer about one action.
#[derive(Clone, Debug)]
pub struct Approval {
    pub granted: bool,
    pub scope: Option<Scope>,
    pub reason: Option<String>,
}

/// The error taxonomy of the controller and its collaborators.
#[derive(Clone, Debug)]
pub enum AgentError {
    Computer(String),
    Reasoner(String),
    Denied(Scope),
    Timeout(String),
    Memory(String),
    Other(String),
}

/// How a run ended.
#[derive(Clone, Copy, Debug, PartialEq, Eq, Structural)]
pub enum RunStatus {
    Success,
    Timeout,
    Error,
}

/// Aggregate figures of a run.
#[derive(Clone, Debug, Default)]
pub struct RunMetrics {
    pub steps: usize,
    pub time_ms: u128,
    pub success: bool,
}

/// The audit record of one iteration of the run loop.
#[derive(Clone, Debug, Default)]
pub struct StepLog {
    pub step: usize,
    pub plan: String,
    pub action: Option<Action>,
    pub approval: Option<Approval>,
    pub result_hint: String,
    pub snapshot_id: Option<String>,
    pub error: Option<String>,
    pub timestamp_ms: u128,
}

/// The structured outcome of a run.
#[derive(Clone, Debug)]
pub struct RunReport {
    pub run_id: String,
    pub goal: Goal,
    pub status: RunStatus,
    pub metrics: RunMetrics,
    pub steps: Vec<StepLog>,
    pub last_snapshot: Option<Snapshot>,
    pub error: Option<String>,
}

/// Settings of the run loop: the step budget, the timeout handed to each
/// device action, and the capability scopes presented to the policy.
#[derive(Clone)]
pub struct AgentConfig {
    pub max_steps: usize,
    pub step_timeout: Duration,
    pub scopes: Vec<Scope>,
}

/// Relies on `Duration`'s `Clone`, which copies the value (`Duration` is `Copy`).
pub assume_specification[ <Duration as Clone>::clone ](d: &Duration) -> (r: Duration)
    ensures
        r == *d,
;

/// The text of an optional string.
pub open spec fn opt_text(o: Option<String>) -> Option<Seq<char>> {
    match o {
        Some(s) => Some(s@),
        None => None,
    }
}

/// `e` is a reasoning error with the message `m`.
pub open spec fn is_reasoner_error(e: AgentError, m: Seq<char>) -> bool {
    e matches AgentError::Reasoner(t) && t@ == m
}

/// The name under which a scope is reported.
pub open spec fn scope_name(s: Scope) -> Seq<char> {
    match s {
        Scope::BrowserNavigate => "BrowserNavigate"@,
        Scope::ClipboardRead => "ClipboardRead"@,
        Scope::ClipboardWrite => "ClipboardWrite"@,
        Scope::FileAccess => "FileAccess"@,
        Scope::Network => "Network"@,
    }
}

/// The human-readable text of an error.
pub open spec fn error_text(e: AgentError) -> Seq<char> {
    match e {
        AgentError::Computer(m) => "computer error: "@ + m@,
        AgentError::Reasoner(m) => "reasoner error: "@ + m@,
        AgentError::Denied(s) => "policy denied: "@ + scope_name(s),
        AgentError::Timeout(m) => "timeout: "@ + m@,
        AgentError::Memory(m) => "memory error: "@ + m@,
        AgentError::Other(m) => "other error: "@ + m@,
    }
}

impl Scope {
    /// The name under which this scope is reported.
    pub fn name(&self) -> (r: &'static str)
        ensures
            r@ == scope_name(*self),
    {
        match self {
            Scope::BrowserNavigate => "BrowserNavigate",
            Scope::ClipboardRead => "ClipboardRead",
            Scope::ClipboardWrite => "ClipboardWrite",
            Scope::FileAccess => "FileAccess",
            Scope::Network => "Network",
        }
    }
}

impl AgentError {
    /// The human-readable text of this error.
    pub fn to_text(&self) -> (r: String)
        ensures
            r@ == error_text(*self),
    {
        let (prefix, detail): (&str, &str) = match self {
            AgentError::Computer(m) => ("computer error: ", m.as_str()),
            AgentError::Reasoner(m) => ("reasoner error: ", m.as_str()),
            AgentError::Denied(s) => ("policy denied: ", s.name()),
            AgentError::Timeout(m) => ("timeout: ", m.as_str()),
            AgentError::Memory(m) => ("memory error: ", m.as_str()),
            AgentError::Other(m) => ("other error: ", m.as_str()),
        };
        let mut r = String::from_str(prefix);
        r.append(detail);
        r
    }
}

impl Goal {
    /// A goal made of a task alone: no constraints, no criteria, no budget.
    pub fn for_task(task: &str) -> (r: Goal)
        ensures
            r.task@ == task@,
            r.constraints@.len() == 0,
            r.success_criteria@.len() == 0,
            r.timeout_ms is None,
    {
        Goal {
            task: String::from_str(task),
            constraints: Vec::new(),
            success_criteria: Vec::new(),
            timeout_ms: None,
        }
    }
}

} // verus!
