//! Decisions of the browser adapter: which browser operation carries out a
//! device action, the scripts it evaluates, and when a failed screenshot is
//! worth retrying.
use crate::model::{Action, AgentError, Locator};
use crate::text::{contains_spec, contains_text, push_signed_decimal, same_text, signed_decimal};
use vstd::prelude::*;

verus! {

/// How to start the browser.
#[derive(Clone)]
pub struct BrowserConfig {
    pub headless: bool,
    pub user_agent: Option<String>,
}

impl Default for BrowserConfig {
    fn default() -> (r: Self)
        ensures
            r.headless,
            r.user_agent is None,
    {
        BrowserConfig { headless: true, user_agent: None }
    }
}

/// A mouse button.
#[derive(Clone, Copy, Debug, PartialEq, Eq, Structural)]
pub enum MouseButtonKind {
    Left,
    Right,
    Middle,
}

/// One operation on the browser page.
#[derive(Debug)]
pub enum BrowserOp {
    /// Navigate to a URL and observe the page.
    Open { url: String },
    /// Left-click at page coordinates.
    Click { x: i64, y: i64 },
    /// Move the pointer to page coordinates.
    MoveMouse { x: i64, y: i64 },
    /// Scroll the window by a delta.
    Scroll { dx: i64, dy: i64 },
    /// Press a key in the active element.
    KeyPress { key: String },
    /// Insert text into the active element.
    TypeText { text: String },
}

/// `r` is how the browser carries out `action`: navigation, clicks and
/// hovers at coordinates, untargeted scrolls, key presses and typing are
/// supported; anything else is refused.
pub open spec fn planned_op(action: Action, r: Result<BrowserOp, AgentError>) -> bool {
    match action {
        Action::NavGoto { url } => r matches Ok(BrowserOp::Open { url: u }) && u@ == url@,
        Action::Click { target } => match target {
            Locator::Coordinates { x, y } => r == Ok::<BrowserOp, AgentError>(
                BrowserOp::Click { x: x as i64, y: y as i64 },
            ),
            _ => r matches Err(AgentError::Other(m)) && m@ == "click target type not implemented"@,
        },
        Action::Hover { target } => match target {
            Locator::Coordinates { x, y } => r == Ok::<BrowserOp, AgentError>(
                BrowserOp::MoveMouse { x: x as i64, y: y as i64 },
            ),
            _ => r matches Err(AgentError::Other(m)) && m@ == "hover target type not implemented"@,
        },
        Action::Scroll { target: None, dx, dy } => r == Ok::<BrowserOp, AgentError>(
            BrowserOp::Scroll { dx: dx as i64, dy: dy as i64 },
        ),
        Action::Key { combo } => r matches Ok(BrowserOp::KeyPress { key }) && key@ == combo@,
        Action::Type { text, .. } => r matches Ok(BrowserOp::TypeText { text: t }) && t@ == text@,
        _ => r matches Err(AgentError::Other(m)) && m@ == "action not implemented in chromium adapter"@,
    }
}

/// Chooses the browser operation that carries out `action`.
pub fn plan_browser_action(action: &Action) -> (r: Result<BrowserOp, AgentError>)
    ensures
        planned_op(*action, r),
{
    match action {
        Action::NavGoto { url } => Ok(BrowserOp::Open { url: url.clone() }),
        Action::Click { target } => match target {
            Locator::Coordinates { x, y } => Ok(BrowserOp::Click { x: *x as i64, y: *y as i64 }),
            _ => Err(AgentError::Other(String::from_str("click target type not implemented"))),
        },
        Action::Hover { target } => match target {
            Locator::Coordinates { x, y } => Ok(BrowserOp::MoveMouse { x: *x as i64, y: *y as i64 }),
            _ => Err(AgentError::Other(String::from_str("hover target type not implemented"))),
        },
        Action::Scroll { target: None, dx, dy } => Ok(BrowserOp::Scroll { dx: *dx as i64, dy: *dy as i64 }),
        Action::Key { combo } => Ok(BrowserOp::KeyPress { key: combo.clone() }),
        Action::Type { text, .. } => Ok(BrowserOp::TypeText { text: text.clone() }),
        _ => Err(AgentError::Other(String::from_str("action not implemented in chromium adapter"))),
    }
}

/// The mouse button a name designates: `right`, `middle`, else the left one.
pub fn mouse_button(name: &str) -> (r: MouseButtonKind)
    ensures
        r == (if name@ == "right"@ {
            MouseButtonKind::Right
        } else if name@ == "middle"@ {
            MouseButtonKind::Middle
        } else {
            MouseButtonKind::Left
        }),
{
    if same_text(name, "right") {
        MouseButtonKind::Right
    } else if same_text(name, "middle") {
        MouseButtonKind::Middle
    } else {
        MouseButtonKind::Left
    }
}

/// The script that scrolls the window by a delta.
pub open spec fn scroll_script_text(dx: i64, dy: i64) -> Seq<char> {
    "window.scrollBy("@ + signed_decimal(dx as int) + ", "@ + signed_decimal(dy as int) + ");"@
}

/// The script that scrolls the window by `dx`, `dy`.
pub fn scroll_script(dx: i64, dy: i64) -> (r: String)
    ensures
        r@ == scroll_script_text(dx, dy),
{
    let mut s = String::from_str("window.scrollBy(");
    push_signed_decimal(&mut s, dx);
    s.append(", ");
    push_signed_decimal(&mut s, dy);
    s.append(");");
    s
}

/// The script that dispatches a key down and a key up for `key` on the
/// active element (or the body).
pub open spec fn keypress_script_text(key: Seq<char>) -> Seq<char> {
    "(function() { const el = document.activeElement || document.body; const opts = {key: \""@ + key
        + "\", code: \""@ + key + "\", bubbles: true}; el.dispatchEvent(new KeyboardEvent(\"keydown\", opts)); el.dispatchEvent(new KeyboardEvent(\"keyup\", opts)); })()"@
}

/// The script that presses `key` in the active element.
pub fn keypress_script(key: &str) -> (r: String)
    ensures
        r@ == keypress_script_text(key@),
{
    let mut s = String::from_str(
        "(function() { const el = document.activeElement || document.body; const opts = {key: \"",
    );
    s.append(key);
    s.append("\", code: \"");
    s.append(key);
    s.append(
        "\", bubbles: true}; el.dispatchEvent(new KeyboardEvent(\"keydown\", opts)); el.dispatchEvent(new KeyboardEvent(\"keyup\", opts)); })()",
    );
    s
}

/// Whether a failed screenshot is due to an empty viewport, in which case the
/// viewport is forced and the capture retried once.
pub fn needs_viewport_retry(message: &str) -> (r: bool)
    ensures
        r == (contains_spec(message@, "0 width"@) || contains_spec(message@, "0 height"@)),
{
    contains_text(message, "0 width") || contains_text(message, "0 height")
}

} // verus!
