use agentx::cua::{CuaAction, CuaOutput, ResponseId};
use agentx::json::JsonValue;
use agentx::model::{Action, AgentError, Goal, Locator, Snapshot};
use agentx::reasoner::{compose_instructions, map_cua_action, CuaReasonerConfig, CuaRequest, CuaState, SimpleReasoner};

fn page(image: Option<&str>) -> Snapshot {
    Snapshot {
        id: "p".to_string(),
        url: Some("https://example.com/a".to_string()),
        title: None,
        image_base64: image.map(|s| s.to_string()),
        dom_summary: None,
        captured_at_ms: 0,
    }
}

fn call(requires_screenshot: bool) -> CuaOutput {
    CuaOutput::ComputerCall {
        call_id: "call_1".to_string(),
        action: CuaAction::Click { x: 5, y: 6, button: None },
        requires_screenshot,
        response_id: ResponseId("resp_1".to_string()),
        safety_checks: vec![JsonValue::Str("check".to_string())],
    }
}

fn hinted() -> CuaReasonerConfig {
    CuaReasonerConfig { stop_on_message: true, auto_confirm_text: Some("Yes, proceed.".to_string()) }
}

#[test]
fn first_turn_carries_the_hint_and_later_turns_do_not() {
    let cfg = hinted();
    let mut state = CuaState::new();
    let goal = Goal::for_task("buy milk");
    match state.prepare(&cfg, "Be brief.", &goal, &page(None)).unwrap() {
        CuaRequest::Turn { input, previous } => {
            assert_eq!(input.instructions, "Be brief.\n\nGoal: buy milk");
            assert_eq!(input.current_url.as_deref(), Some("https://example.com/a"));
            assert_eq!(input.extra_user_text.as_deref(), Some("Yes, proceed."));
            assert!(previous.is_none());
        }
        _ => panic!("expected a new turn"),
    }
    let t = state.apply(&cfg, call(false));
    assert_eq!(t.plan, "");
    match state.prepare(&cfg, "Be brief.", &goal, &page(None)).unwrap() {
        CuaRequest::Turn { input, previous } => {
            assert!(input.extra_user_text.is_none());
            assert_eq!(previous.unwrap().0, "resp_1");
        }
        _ => panic!("no screenshot was required, so a new turn follows"),
    }
}

#[test]
fn pending_call_is_answered_with_the_screenshot() {
    let cfg = hinted();
    let mut state = CuaState::new();
    let goal = Goal::for_task("t");
    let t = state.apply(&cfg, call(true));
    match t.action {
        Some(Action::Click { target: Locator::Coordinates { x: 5, y: 6 } }) => {}
        other => panic!("unexpected action {:?}", other),
    }
    match state.prepare(&cfg, "", &goal, &page(Some("AQID"))).unwrap() {
        CuaRequest::Observation { call_id, image, previous, safety_checks } => {
            assert_eq!(call_id, "call_1");
            assert_eq!(image.kind, "input_image");
            assert_eq!(image.mime_type, "image/png");
            assert_eq!(image.data_base64, "AQID");
            assert_eq!(previous.unwrap().0, "resp_1");
            assert_eq!(safety_checks.len(), 1);
        }
        _ => panic!("expected an observation reply"),
    }
    assert_eq!(state.pending_safety_checks().len(), 1);
}

#[test]
fn missing_image_while_awaiting_is_a_reasoning_error_and_changes_nothing() {
    let cfg = hinted();
    let mut state = CuaState::new();
    state.apply(&cfg, call(true));
    let goal = Goal::for_task("t");
    match state.prepare(&cfg, "", &goal, &page(None)) {
        Err(AgentError::Reasoner(m)) => assert_eq!(m, "missing snapshot image"),
        _ => panic!("expected a reasoning error"),
    }
    // The session still awaits the screenshot.
    assert!(matches!(state.prepare(&cfg, "", &goal, &page(Some("AA=="))), Ok(CuaRequest::Observation { .. })));
}

#[test]
fn message_ends_the_thread_and_records_completion() {
    let cfg = hinted();
    let mut state = CuaState::new();
    state.apply(&cfg, call(true));
    assert!(!state.is_goal_met(&cfg));
    let t = state.apply(&cfg, CuaOutput::Message { text: "All set".to_string() });
    assert_eq!(t.plan, "All set");
    assert!(t.action.is_none());
    assert!(state.is_goal_met(&cfg));
    assert!(state.pending_safety_checks().is_empty());
    match state.prepare(&cfg, "", &Goal::for_task("t"), &page(None)).unwrap() {
        CuaRequest::Turn { input, previous } => {
            assert!(previous.is_none());
            assert_eq!(input.extra_user_text.as_deref(), Some("Yes, proceed."));
        }
        _ => panic!("the thread is closed, so a fresh turn follows"),
    }
}

#[test]
fn goal_met_is_idempotent_once_done() {
    let cfg = CuaReasonerConfig::default();
    let mut state = CuaState::new();
    let t = state.apply(&cfg, CuaOutput::Done { response_id: ResponseId("r9".to_string()) });
    assert_eq!(t.plan, "done");
    assert!(state.is_goal_met(&cfg));
    assert!(state.is_goal_met(&cfg));
    state.apply(&cfg, call(true));
    assert!(state.is_goal_met(&cfg));
    state.apply(&cfg, CuaOutput::Message { text: "more".to_string() });
    assert!(state.is_goal_met(&cfg));
}

#[test]
fn never_met_when_not_stopping_on_messages() {
    let cfg = CuaReasonerConfig { stop_on_message: false, auto_confirm_text: None };
    let mut state = CuaState::new();
    state.apply(&cfg, CuaOutput::Message { text: "hi".to_string() });
    assert!(!state.is_goal_met(&cfg));
    state.apply(&cfg, CuaOutput::Done { response_id: ResponseId("r".to_string()) });
    assert!(!state.is_goal_met(&cfg));
}

#[test]
fn default_config_stops_on_messages() {
    let cfg = CuaReasonerConfig::default();
    assert!(cfg.stop_on_message);
    assert!(cfg.auto_confirm_text.is_none());
}

#[test]
fn instructions_list_constraints_and_criteria() {
    let goal = Goal {
        task: "Find the invoice".to_string(),
        constraints: vec!["Stay on site".to_string(), "No purchases".to_string()],
        success_criteria: vec!["PDF downloaded".to_string()],
        timeout_ms: None,
    };
    assert_eq!(
        compose_instructions("  ", &goal),
        "Goal: Find the invoice\nConstraints:\n- Stay on site\n- No purchases\nSuccess criteria:\n- PDF downloaded\n"
    );
    assert_eq!(compose_instructions("Base", &Goal::for_task("x")), "Base\n\nGoal: x");
}

#[test]
fn service_actions_map_to_device_actions() {
    match map_cua_action(CuaAction::DoubleClick { x: 1, y: 2 }) {
        Some(Action::Click { target: Locator::Coordinates { x: 1, y: 2 } }) => {}
        other => panic!("{:?}", other),
    }
    match map_cua_action(CuaAction::Move { x: 3, y: 4 }) {
        Some(Action::Hover { target: Locator::Coordinates { x: 3, y: 4 } }) => {}
        other => panic!("{:?}", other),
    }
    match map_cua_action(CuaAction::Scroll { dx: -7, dy: 9 }) {
        Some(Action::Scroll { target: None, dx: -7, dy: 9 }) => {}
        other => panic!("{:?}", other),
    }
    match map_cua_action(CuaAction::Type { text: "hello".to_string() }) {
        Some(Action::Type { text, into: Locator::Css { selector } }) => {
            assert_eq!(text, "hello");
            assert_eq!(selector, "*");
        }
        other => panic!("{:?}", other),
    }
    match map_cua_action(CuaAction::Keypress { key: "Enter".to_string() }) {
        Some(Action::Key { combo }) => assert_eq!(combo, "Enter"),
        other => panic!("{:?}", other),
    }
    assert!(map_cua_action(CuaAction::WaitMs { ms: 10 }).is_none());
    assert!(map_cua_action(CuaAction::DragPath { points: vec![(1, 1)] }).is_none());
    assert!(map_cua_action(CuaAction::Screenshot).is_none());
    assert!(map_cua_action(CuaAction::Unknown("zoom".to_string())).is_none());
}

#[test]
fn simple_reasoner_restates_the_task_and_stops_on_request() {
    let r = SimpleReasoner;
    let t = r.think(&Goal::for_task("open mail"));
    assert_eq!(t.plan, "Plan: open mail");
    assert!(t.action.is_none());
    assert_eq!(t.rationale.as_deref(), Some("noop"));
    assert!(r.success(&Goal::for_task("Please STOP now")));
    assert!(!r.success(&Goal::for_task("keep going")));
}
