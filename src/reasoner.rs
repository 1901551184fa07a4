//! The reasoning protocol: a stateful, multi-turn exchange with the remote
//! service, in which a call for an action must be answered with a screenshot
//! before the conversation can advance.
//!
//! `CuaState::prepare` decides what to send without changing the session;
//! the caller sends it and, only when that succeeds, hands the reply to
//! `CuaState::apply`. A failed send therefore leaves the session exactly as
//! it was, and the next decision retries from the same state.
use crate::cua::{CuaAction, CuaOutput, CuaToolImage, ResponseId, TurnInput};
use crate::json::JsonValue;
use crate::model::{is_reasoner_error, opt_text, Action, AgentError, Goal, Locator, Snapshot, Thought};
use crate::text::{contains_spec, contains_text, is_blank, is_blank_spec, lower_of, to_lower};
use vstd::prelude::*;

verus! {

/// Settings of the reasoning session: whether any message from the service
/// ends the run, and a one-shot confirmation hint sent when a conversation
/// starts.
#[derive(Clone, Debug)]
pub struct CuaReasonerConfig {
    pub stop_on_message: bool,
    pub auto_confirm_text: Option<String>,
}

impl Default for CuaReasonerConfig {
    fn default() -> (r: Self)
        ensures
            r.stop_on_message,
            r.auto_confirm_text is None,
    {
        CuaReasonerConfig { stop_on_message: true, auto_confirm_text: None }
    }
}

/// The conversation state kept between two decisions.
pub struct CuaState {
    previous: Option<ResponseId>,
    pending_call_id: Option<String>,
    pending_safety_checks: Vec<JsonValue>,
    awaiting_screenshot: bool,
    done_message: Option<String>,
}

/// The view of a session: the last response id (continuity for the next
/// call), the call awaiting a screenshot, the safety checks to acknowledge
/// with it, whether a screenshot is awaited, and the recorded completion
/// message.
#[verifier::ext_equal]
pub struct SessionView {
    pub previous: Option<Seq<char>>,
    pub pending_call_id: Option<Seq<char>>,
    pub pending_safety_checks: Seq<JsonValue>,
    pub awaiting_screenshot: bool,
    pub done_message: Option<Seq<char>>,
}

/// The text of an optional response id.
pub open spec fn opt_response(o: Option<ResponseId>) -> Option<Seq<char>> {
    match o {
        Some(r) => Some(r.0@),
        None => None,
    }
}

impl View for CuaState {
    type V = SessionView;

    closed spec fn view(&self) -> SessionView {
        SessionView {
            previous: opt_response(self.previous),
            pending_call_id: opt_text(self.pending_call_id),
            pending_safety_checks: self.pending_safety_checks@,
            awaiting_screenshot: self.awaiting_screenshot,
            done_message: opt_text(self.done_message),
        }
    }
}

/// The round-trip invariant: a screenshot is awaited exactly when a call id
/// is pending.
pub open spec fn session_wf(s: SessionView) -> bool {
    s.awaiting_screenshot <==> s.pending_call_id is Some
}

/// Whether the session has recorded completion, for a run that stops on
/// messages.
pub open spec fn goal_met(s: SessionView, stop_on_message: bool) -> bool {
    stop_on_message && s.done_message is Some
}

/// The session after the service answered `out`. A message ends the open
/// thread and clears any pending call; a call for an action records the new
/// response id, the call (when a screenshot is required) and its safety
/// checks; a done signal records the new response id and completion.
pub open spec fn session_after(s: SessionView, out: CuaOutput, stop_on_message: bool) -> SessionView {
    match out {
        CuaOutput::Message { text } => SessionView {
            previous: None,
            pending_call_id: None,
            pending_safety_checks: Seq::empty(),
            awaiting_screenshot: false,
            done_message: if stop_on_message { Some(text@) } else { s.done_message },
        },
        CuaOutput::ComputerCall { call_id, action, requires_screenshot, response_id, safety_checks } => SessionView {
            previous: Some(response_id.0@),
            pending_call_id: if requires_screenshot { Some(call_id@) } else { None },
            pending_safety_checks: safety_checks@,
            awaiting_screenshot: requires_screenshot,
            done_message: s.done_message,
        },
        CuaOutput::Done { response_id } => SessionView {
            previous: Some(response_id.0@),
            pending_call_id: None,
            pending_safety_checks: Seq::empty(),
            awaiting_screenshot: false,
            done_message: Some("done"@),
        },
    }
}

/// `r` is the device action for the service's action `a`. Double clicks are
/// single clicks downstream; typing goes to the active element; drags, waits
/// and screenshot requests have no device action.
pub open spec fn mapped_action(a: CuaAction, r: Option<Action>) -> bool {
    match a {
        CuaAction::Click { x, y, .. } => r == Some(
            Action::Click { target: Locator::Coordinates { x: x as i32, y: y as i32 } },
        ),
        CuaAction::DoubleClick { x, y } => r == Some(
            Action::Click { target: Locator::Coordinates { x: x as i32, y: y as i32 } },
        ),
        CuaAction::Move { x, y } => r == Some(
            Action::Hover { target: Locator::Coordinates { x: x as i32, y: y as i32 } },
        ),
        CuaAction::Scroll { dx, dy } => r == Some(Action::Scroll { target: None, dx: dx as i32, dy: dy as i32 }),
        CuaAction::Type { text } => r matches Some(Action::Type { text: t, into: Locator::Css { selector } })
            && t == text && selector@ == "*"@,
        CuaAction::Keypress { key } => r == Some(Action::Key { combo: key }),
        _ => r is None,
    }
}

/// `t` is the thought for the service's answer `out`: a message becomes the
/// plan, a call for an action becomes the mapped action with an empty plan,
/// and a done signal becomes the plan `done`.
pub open spec fn thought_for(out: CuaOutput, t: Thought) -> bool {
    &&& t.rationale is None
    &&& match out {
        CuaOutput::Message { text } => t.plan == text && t.action is None,
        CuaOutput::ComputerCall { action, .. } => t.plan@.len() == 0 && mapped_action(action, t.action),
        CuaOutput::Done { .. } => t.plan@ == "done"@ && t.action is None,
    }
}

/// The items of a list, one per line, each after a dash.
pub open spec fn bullet_list(items: Seq<String>) -> Seq<char>
    decreases items.len(),
{
    if items.len() == 0 {
        Seq::empty()
    } else {
        bullet_list(items.drop_last()) + "- "@ + items.last()@ + "\n"@
    }
}

/// The instructions sent with a new turn: the base instructions when not
/// blank, the task, then the constraints and the success criteria when there
/// are any.
pub open spec fn composed_instructions(base: Seq<char>, goal: Goal) -> Seq<char> {
    (if is_blank_spec(base) { Seq::empty() } else { base + "\n\n"@ }) + "Goal: "@ + goal.task@ + (
    if goal.constraints@.len() == 0 {
        Seq::empty()
    } else {
        "\nConstraints:\n"@ + bullet_list(goal.constraints@)
    }) + (if goal.success_criteria@.len() == 0 {
        Seq::empty()
    } else {
        "Success criteria:\n"@ + bullet_list(goal.success_criteria@)
    })
}

/// What the session sends next.
pub enum CuaRequest<'a> {
    /// Answer the pending call with a screenshot, continuing the conversation
    /// and acknowledging the pending safety checks.
    Observation {
        call_id: String,
        image: CuaToolImage,
        previous: Option<ResponseId>,
        safety_checks: &'a Vec<JsonValue>,
    },
    /// Send a new turn, continuing the open thread when there is one.
    Turn { input: TurnInput, previous: Option<ResponseId> },
}

/// Appends each item after a dash, one per line.
fn push_bullets(s: &mut String, items: &Vec<String>)
    ensures
        final(s)@ == old(s)@ + bullet_list(items@),
{
    let ghost start = s@;
    let n = items.len();
    let mut i: usize = 0;
    assert(items@.subrange(0, 0) =~= Seq::<String>::empty());
    while i < n
        invariant
            n == items@.len(),
            i <= n,
            s@ == start + bullet_list(items@.subrange(0, i as int)),
        decreases n - i,
    {
        assert(items@.subrange(0, i + 1).drop_last() =~= items@.subrange(0, i as int));
        s.append("- ");
        s.append(items[i].as_str());
        s.append("\n");
        i = i + 1;
    }
    assert(items@.subrange(0, n as int) =~= items@);
}

/// Composes the instructions of a new turn from the base instructions and
/// the goal.
pub fn compose_instructions(base: &str, goal: &Goal) -> (r: String)
    ensures
        r@ == composed_instructions(base@, *goal),
{
    let mut s = String::new();
    if !is_blank(base) {
        s.append(base);
        s.append("\n\n");
    }
    s.append("Goal: ");
    s.append(goal.task.as_str());
    if goal.constraints.len() > 0 {
        s.append("\nConstraints:\n");
        push_bullets(&mut s, &goal.constraints);
    }
    if goal.success_criteria.len() > 0 {
        s.append("Success criteria:\n");
        push_bullets(&mut s, &goal.success_criteria);
    }
    s
}

/// Translates the service's action into the device-agnostic vocabulary.
pub fn map_cua_action(action: CuaAction) -> (r: Option<Action>)
    ensures
        mapped_action(action, r),
{
    match action {
        CuaAction::Click { x, y, .. } => Some(
            Action::Click { target: Locator::Coordinates { x: x as i32, y: y as i32 } },
        ),
        CuaAction::DoubleClick { x, y } => Some(
            Action::Click { target: Locator::Coordinates { x: x as i32, y: y as i32 } },
        ),
        CuaAction::Move { x, y } => Some(
            Action::Hover { target: Locator::Coordinates { x: x as i32, y: y as i32 } },
        ),
        CuaAction::Scroll { dx, dy } => Some(Action::Scroll { target: None, dx: dx as i32, dy: dy as i32 }),
        CuaAction::Type { text } => Some(
            Action::Type { text, into: Locator::Css { selector: String::from_str("*") } },
        ),
        CuaAction::Keypress { key } => Some(Action::Key { combo: key }),
        CuaAction::WaitMs { .. } => None,
        CuaAction::DragPath { .. } => None,
        CuaAction::Screenshot => None,
        CuaAction::Unknown(_) => None,
    }
}

/// A copy of an optional response id.
fn copy_response(o: &Option<ResponseId>) -> (r: Option<ResponseId>)
    ensures
        opt_response(r) == opt_response(*o),
{
    match o {
        Some(id) => Some(ResponseId(id.0.clone())),
        None => None,
    }
}

/// A copy of an optional text.
fn copy_text(o: &Option<String>) -> (r: Option<String>)
    ensures
        r == *o,
{
    match o {
        Some(s) => Some(s.clone()),
        None => None,
    }
}

impl CuaState {
    /// The session's consistency invariant.
    pub open spec fn wf(&self) -> bool {
        session_wf(self@)
    }

    /// A session with no open conversation.
    pub fn new() -> (r: CuaState)
        ensures
            r.wf(),
            r@.previous is None,
            r@.pending_call_id is None,
            r@.pending_safety_checks.len() == 0,
            !r@.awaiting_screenshot,
            r@.done_message is None,
    {
        CuaState {
            previous: None,
            pending_call_id: None,
            pending_safety_checks: Vec::new(),
            awaiting_screenshot: false,
            done_message: None,
        }
    }

    /// Decides what to send next, without changing the session. While a
    /// screenshot is awaited, the snapshot must carry one, and it answers the
    /// pending call within the same conversation. Otherwise a new turn goes
    /// out with the composed instructions and the current URL; the one-shot
    /// confirmation hint is added only when no conversation is open.
    pub fn prepare<'a>(
        &'a self,
        cfg: &CuaReasonerConfig,
        instructions: &str,
        goal: &Goal,
        snapshot: &Snapshot,
    ) -> (r: Result<CuaRequest<'a>, AgentError>)
        requires
            self.wf(),
        ensures
            self@.awaiting_screenshot && snapshot.image_base64 is None ==> (r matches Err(e)
                && is_reasoner_error(e, "missing snapshot image"@)),
            self@.awaiting_screenshot && snapshot.image_base64 is Some ==> (r matches Ok(
                CuaRequest::Observation { call_id, image, previous, safety_checks },
            ) && self@.pending_call_id == Some(call_id@) && image.kind@ == "input_image"@
                && image.mime_type@ == "image/png"@ && Some(image.data_base64@) == opt_text(
                snapshot.image_base64,
            ) && opt_response(previous) == self@.previous && safety_checks@
                == self@.pending_safety_checks),
            !self@.awaiting_screenshot ==> (r matches Ok(CuaRequest::Turn { input, previous })
                && input.instructions@ == composed_instructions(instructions@, *goal)
                && input.current_url == snapshot.url
                && input.extra_user_text == (if self@.previous is None {
                    cfg.auto_confirm_text
                } else {
                    None
                })
                && opt_response(previous) == self@.previous),
    {
        if self.awaiting_screenshot {
            let data = match &snapshot.image_base64 {
                Some(b64) => b64.clone(),
                None => {
                    return Err(AgentError::Reasoner(String::from_str("missing snapshot image")));
                },
            };
            let call_id = match &self.pending_call_id {
                Some(id) => id.clone(),
                None => {
                    return Err(AgentError::Reasoner(String::from_str("missing call_id")));
                },
            };
            let image = CuaToolImage {
                kind: String::from_str("input_image"),
                mime_type: String::from_str("image/png"),
                data_base64: data,
            };
            return Ok(
                CuaRequest::Observation {
                    call_id,
                    image,
                    previous: copy_response(&self.previous),
                    safety_checks: &self.pending_safety_checks,
                },
            );
        }
        let extra_user_text = if self.previous.is_none() {
            copy_text(&cfg.auto_confirm_text)
        } else {
            None
        };
        let input = TurnInput {
            instructions: compose_instructions(instructions, goal),
            current_url: copy_text(&snapshot.url),
            extra_user_text,
        };
        Ok(CuaRequest::Turn { input, previous: copy_response(&self.previous) })
    }

    /// Takes the service's answer to the request just sent, updates the
    /// session and yields the thought for the controller.
    pub fn apply(&mut self, cfg: &CuaReasonerConfig, out: CuaOutput) -> (t: Thought)
        requires
            old(self).wf(),
        ensures
            final(self).wf(),
            final(self)@ == session_after(old(self)@, out, cfg.stop_on_message),
            thought_for(out, t),
    {
        proof {
            reveal_strlit("done");
        }
        match out {
            CuaOutput::Message { text } => {
                self.previous = None;
                self.pending_call_id = None;
                self.pending_safety_checks = Vec::new();
                self.awaiting_screenshot = false;
                if cfg.stop_on_message {
                    self.done_message = Some(text.clone());
                }
                Thought { plan: text, action: None, rationale: None }
            },
            CuaOutput::ComputerCall { call_id, action, requires_screenshot, response_id, safety_checks } => {
                self.previous = Some(response_id);
                self.pending_call_id = if requires_screenshot {
                    Some(call_id)
                } else {
                    None
                };
                self.pending_safety_checks = safety_checks;
                self.awaiting_screenshot = requires_screenshot;
                Thought { plan: String::new(), action: map_cua_action(action), rationale: None }
            },
            CuaOutput::Done { response_id } => {
                self.previous = Some(response_id);
                self.pending_call_id = None;
                self.pending_safety_checks = Vec::new();
                self.awaiting_screenshot = false;
                self.done_message = Some(String::from_str("done"));
                Thought { plan: String::from_str("done"), action: None, rationale: None }
            },
        }
    }

    /// Whether the goal is met: only once completion has been recorded, and
    /// never when the run does not stop on messages. No remote call is made.
    pub fn is_goal_met(&self, cfg: &CuaReasonerConfig) -> (r: bool)
        ensures
            r == goal_met(self@, cfg.stop_on_message),
    {
        cfg.stop_on_message && self.done_message.is_some()
    }

    /// The safety checks to acknowledge with the next screenshot.
    pub fn pending_safety_checks(&self) -> (r: &Vec<JsonValue>)
        ensures
            r@ == self@.pending_safety_checks,
    {
        &self.pending_safety_checks
    }
}

/// Every answer of the service keeps the round-trip invariant: a screenshot
/// is awaited exactly when a call id is pending, never one without the other.
pub proof fn lemma_round_trip_invariant(s: SessionView, out: CuaOutput, stop_on_message: bool)
    requires
        session_wf(s),
    ensures
        session_wf(session_after(s, out, stop_on_message)),
{
}

/// Termination is idempotent: once the session has recorded completion, the
/// goal stays met whatever the service answers afterwards.
pub proof fn lemma_goal_met_is_stable(s: SessionView, out: CuaOutput, stop_on_message: bool)
    requires
        goal_met(s, stop_on_message),
    ensures
        goal_met(session_after(s, out, stop_on_message), stop_on_message),
{
}

/// A reasoner for tests: its plan restates the task, it never acts, and it
/// considers the goal met when the task mentions stopping.
#[derive(Clone, Copy)]
pub struct SimpleReasoner;

impl SimpleReasoner {
    /// The thought for `goal`: the plan `Plan: <task>`, no action.
    pub fn think(&self, goal: &Goal) -> (t: Thought)
        ensures
            t.plan@ == "Plan: "@ + goal.task@,
            t.action is None,
            opt_text(t.rationale) == Some("noop"@),
    {
        let mut plan = String::from_str("Plan: ");
        plan.append(goal.task.as_str());
        Thought { plan, action: None, rationale: Some(String::from_str("noop")) }
    }

    /// Whether the lower-cased task mentions `stop`.
    pub fn success(&self, goal: &Goal) -> (r: bool)
        ensures
            r == contains_spec(lower_of(goal.task@), "stop"@),
    {
        let lower = to_lower(goal.task.as_str());
        contains_text(lower.as_str(), "stop")
    }
}

} // verus!
