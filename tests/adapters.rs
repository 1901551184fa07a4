use agentx::adapters::{captured_snapshot, AllowAllPolicy, DiskSnapshotStore, NoopComputer};
use agentx::controller::RunLoop;
use agentx::browser::{
    keypress_script, mouse_button, needs_viewport_retry, plan_browser_action, scroll_script, BrowserConfig, BrowserOp,
    MouseButtonKind,
};
use agentx::model::{Action, AgentError, Locator, Scope, Snapshot};
use agentx::text::{contains_text, is_blank, same_text};

fn with_image(image: Option<&str>) -> Snapshot {
    Snapshot {
        id: "x".to_string(),
        url: None,
        title: None,
        image_base64: image.map(|s| s.to_string()),
        dom_summary: None,
        captured_at_ms: 0,
    }
}

#[test]
fn fresh_ids_use_the_safe_alphabet() {
    let a = RunLoop::new_run_id();
    let b = RunLoop::new_run_id();
    assert_eq!(a.chars().count(), 21);
    assert!(a.chars().all(|c| c == '_' || c == '-' || c.is_ascii_alphanumeric()));
    assert_ne!(a, b);
}

#[test]
fn captures_are_encoded_in_base64() {
    let s = captured_snapshot("https://a.b".to_string(), &vec![1, 2, 3]);
    assert_eq!(s.image_base64.as_deref(), Some("AQID"));
    assert_eq!(s.url.as_deref(), Some("https://a.b"));
    assert_eq!(s.id.len(), 21);
    assert!(s.title.is_none());
}

#[test]
fn snapshot_files_are_named_by_step() {
    let store = DiskSnapshotStore::new("/tmp/runs");
    assert_eq!(store.base_dir(), "/tmp/runs");
    let f = store.snapshot_file(Some(7), &with_image(Some("AQID"))).unwrap().unwrap();
    assert_eq!(f.name, "step_007.png");
    assert_eq!(f.png, vec![1, 2, 3]);
    let f = store.snapshot_file(Some(1234), &with_image(Some("AQID"))).unwrap().unwrap();
    assert_eq!(f.name, "step_1234.png");
    let f = store.snapshot_file(None, &with_image(Some("AQID"))).unwrap().unwrap();
    assert_eq!(f.name, "start.png");
    assert!(store.snapshot_file(Some(1), &with_image(None)).unwrap().is_none());
}

#[test]
fn invalid_base64_is_a_memory_error() {
    let store = DiskSnapshotStore::new("/tmp/runs");
    match store.snapshot_file(Some(1), &with_image(Some("not base64!"))) {
        Err(AgentError::Memory(m)) => assert!(m.starts_with("b64 decode: ")),
        _ => panic!("expected a memory error"),
    }
}

#[test]
fn noop_device_and_allow_all_policy() {
    let c = NoopComputer;
    let s = c.open_url("https://x.y");
    assert_eq!(s.url.as_deref(), Some("https://x.y"));
    assert_eq!(s.title.as_deref(), Some("noop"));
    assert_eq!(s.dom_summary.as_deref(), Some("<noop/>"));
    let s = c.snapshot();
    assert_eq!(s.url.as_deref(), Some("about:blank"));
    let r = c.act(&Action::ClipboardRead);
    assert!(r.changed);
    assert_eq!(r.message.as_deref(), Some("noop"));
    let a = AllowAllPolicy.approve(&[Scope::Network], &Action::ClipboardRead);
    assert!(a.granted);
    assert!(a.scope.is_none());
    assert_eq!(a.reason.as_deref(), Some("allow all"));
}

#[test]
fn browser_operations_for_actions() {
    let coords = Locator::Coordinates { x: 4, y: 5 };
    assert!(matches!(plan_browser_action(&Action::Click { target: coords.clone() }), Ok(BrowserOp::Click { x: 4, y: 5 })));
    assert!(matches!(plan_browser_action(&Action::Hover { target: coords }), Ok(BrowserOp::MoveMouse { x: 4, y: 5 })));
    assert!(matches!(
        plan_browser_action(&Action::Scroll { target: None, dx: 0, dy: -300 }),
        Ok(BrowserOp::Scroll { dx: 0, dy: -300 })
    ));
    match plan_browser_action(&Action::NavGoto { url: "https://n.o".to_string() }) {
        Ok(BrowserOp::Open { url }) => assert_eq!(url, "https://n.o"),
        other => panic!("{:?}", other),
    }
    match plan_browser_action(&Action::Type { text: "hi".to_string(), into: Locator::Id { id: "q".to_string() } }) {
        Ok(BrowserOp::TypeText { text }) => assert_eq!(text, "hi"),
        other => panic!("{:?}", other),
    }
    match plan_browser_action(&Action::Key { combo: "Tab".to_string() }) {
        Ok(BrowserOp::KeyPress { key }) => assert_eq!(key, "Tab"),
        other => panic!("{:?}", other),
    }
    match plan_browser_action(&Action::Click { target: Locator::Css { selector: "#b".to_string() } }) {
        Err(e) => assert_eq!(e.to_text(), "other error: click target type not implemented"),
        Ok(op) => panic!("{:?}", op),
    }
    match plan_browser_action(&Action::Hover { target: Locator::Text { pattern: "x".to_string() } }) {
        Err(AgentError::Other(m)) => assert_eq!(m, "hover target type not implemented"),
        other => panic!("{:?}", other),
    }
    match plan_browser_action(&Action::Scroll { target: Some(Locator::Id { id: "a".to_string() }), dx: 1, dy: 1 }) {
        Err(AgentError::Other(m)) => assert_eq!(m, "action not implemented in chromium adapter"),
        other => panic!("{:?}", other),
    }
}

#[test]
fn scripts_and_buttons() {
    assert_eq!(scroll_script(-5, 120), "window.scrollBy(-5, 120);");
    assert_eq!(scroll_script(i64::MIN, 0), "window.scrollBy(-9223372036854775808, 0);");
    let js = keypress_script("Enter");
    assert!(js.contains("{key: \"Enter\", code: \"Enter\", bubbles: true}"));
    assert!(js.contains("new KeyboardEvent(\"keydown\", opts)"));
    assert_eq!(mouse_button("right"), MouseButtonKind::Right);
    assert_eq!(mouse_button("middle"), MouseButtonKind::Middle);
    assert_eq!(mouse_button("left"), MouseButtonKind::Left);
    assert_eq!(mouse_button("other"), MouseButtonKind::Left);
    assert!(needs_viewport_retry("Cannot take screenshot with 0 width."));
    assert!(needs_viewport_retry("0 height"));
    assert!(!needs_viewport_retry("timeout"));
    let d = BrowserConfig::default();
    assert!(d.headless);
    assert!(d.user_agent.is_none());
}

#[test]
fn error_texts() {
    assert_eq!(AgentError::Computer("a".to_string()).to_text(), "computer error: a");
    assert_eq!(AgentError::Reasoner("b".to_string()).to_text(), "reasoner error: b");
    assert_eq!(AgentError::Denied(Scope::FileAccess).to_text(), "policy denied: FileAccess");
    assert_eq!(AgentError::Timeout("c".to_string()).to_text(), "timeout: c");
    assert_eq!(AgentError::Memory("d".to_string()).to_text(), "memory error: d");
    assert_eq!(AgentError::Other("e".to_string()).to_text(), "other error: e");
}

#[test]
fn text_helpers() {
    assert!(is_blank(""));
    assert!(is_blank(" \t\n\u{3000}"));
    assert!(!is_blank("  a "));
    assert!(contains_text("computer-use-preview", "computer-use"));
    assert!(contains_text("abc", ""));
    assert!(!contains_text("ab", "abc"));
    assert!(same_text("x", "x"));
    assert!(!same_text("x", "y"));
}
