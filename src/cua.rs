//! The vocabulary of the remote reasoning service: its configuration, the
//! turns sent to it, and the decoding of its replies into a closed set of
//! outputs and actions.
use crate::json::JsonValue;
use crate::model::{is_reasoner_error, opt_text, AgentError};
use crate::text::{contains_spec, contains_text, same_text};
use vstd::prelude::*;

verus! {

/// Where and how to reach the reasoning service.
pub struct CuaConfig {
    pub api_base: String,
    pub api_key: String,
    pub model: String,
    pub tool_display: (u32, u32),
    pub environment: String,
}

/// The service's identifier of one response; it continues a conversation.
#[derive(Clone, Debug)]
pub struct ResponseId(pub String);

/// The content of a new turn.
#[derive(Debug, Default)]
pub struct TurnInput {
    pub instructions: String,
    pub current_url: Option<String>,
    pub extra_user_text: Option<String>,
}

/// What the service answered.
#[derive(Debug)]
pub enum CuaOutput {
    /// The service spoke without acting.
    Message { text: String },
    /// The service wants an action performed, and usually a screenshot back.
    ComputerCall {
        call_id: String,
        action: CuaAction,
        requires_screenshot: bool,
        response_id: ResponseId,
        safety_checks: Vec<JsonValue>,
    },
    /// The service declared the task complete.
    Done { response_id: ResponseId },
}

/// An action as the service describes it.
#[derive(Debug, Clone)]
pub enum CuaAction {
    Screenshot,
    Click { x: i64, y: i64, button: Option<String> },
    DoubleClick { x: i64, y: i64 },
    Move { x: i64, y: i64 },
    Scroll { dx: i64, dy: i64 },
    Type { text: String },
    Keypress { key: String },
    DragPath { points: Vec<(i64, i64)> },
    WaitMs { ms: i64 },
    Unknown(String),
}

/// A screenshot sent back to answer a pending call.
#[derive(Debug)]
pub struct CuaToolImage {
    pub kind: String,
    pub mime_type: String,
    pub data_base64: String,
}

/// Whether requests carry the hosted computer tool: only for computer-use
/// models.
pub fn uses_computer_tool(cfg: &CuaConfig) -> (r: bool)
    ensures
        r == contains_spec(cfg.model@, "computer-use"@),
{
    contains_text(cfg.model.as_str(), "computer-use")
}

/// The endpoint that receives turns.
pub fn responses_url(cfg: &CuaConfig) -> (r: String)
    ensures
        r@ == cfg.api_base@ + "/responses"@,
{
    let mut s = cfg.api_base.clone();
    s.append("/responses");
    s
}

/// The text that tells the service where the browser is.
pub fn url_context(input: &TurnInput) -> (r: String)
    ensures
        r@ == "current_url="@ + match input.current_url {
            Some(u) => u@,
            None => Seq::empty(),
        },
{
    let mut s = String::from_str("current_url=");
    match &input.current_url {
        Some(u) => s.append(u.as_str()),
        None => {},
    }
    s
}

/// The data URL under which a screenshot is sent.
pub fn image_data_url(image: &CuaToolImage) -> (r: String)
    ensures
        r@ == "data:"@ + image.mime_type@ + ";base64,"@ + image.data_base64@,
{
    let mut s = String::from_str("data:");
    s.append(image.mime_type.as_str());
    s.append(";base64,");
    s.append(image.data_base64.as_str());
    s
}

/// Whether the configuration can authenticate: an API key is required.
pub fn check_api_key(cfg: &CuaConfig) -> (r: Result<(), String>)
    ensures
        r is Ok <==> cfg.api_key@.len() > 0,
        r matches Err(m) ==> m@ == "OPENAI_API_KEY missing"@,
{
    if cfg.api_key.unicode_len() == 0 {
        Err(String::from_str("OPENAI_API_KEY missing"))
    } else {
        Ok(())
    }
}

/// The text of member `key`, if it is a string.
pub open spec fn text_member(v: JsonValue, key: Seq<char>) -> Option<Seq<char>> {
    match v.field(key) {
        Some(f) => f.text(),
        None => None,
    }
}

/// The text of member `key`, or `d` when it is missing or not a string.
pub open spec fn text_member_or(v: JsonValue, key: Seq<char>, d: Seq<char>) -> Seq<char> {
    match text_member(v, key) {
        Some(t) => t,
        None => d,
    }
}

/// The integer of member `key`, or `d` when it is missing or not an integer.
pub open spec fn int_member_or(v: JsonValue, key: Seq<char>, d: i64) -> i64 {
    match v.field(key) {
        Some(f) => match f.integer() {
            Some(i) => i,
            None => d,
        },
        None => d,
    }
}

/// The boolean of member `key`, or `d` when it is missing or not a boolean.
pub open spec fn bool_member_or(v: JsonValue, key: Seq<char>, d: bool) -> bool {
    match v.field(key) {
        Some(f) => match f.boolean() {
            Some(b) => b,
            None => d,
        },
        None => d,
    }
}

/// The elements of member `key`, or none when it is missing or not an array.
pub open spec fn items_member(v: JsonValue, key: Seq<char>) -> Seq<JsonValue> {
    match v.field(key) {
        Some(f) => match f.items() {
            Some(s) => s,
            None => Seq::empty(),
        },
        None => Seq::empty(),
    }
}

/// A scroll delta: member `primary` when present, else member `fallback`.
pub open spec fn scroll_delta(v: JsonValue, primary: Seq<char>, fallback: Seq<char>) -> i64 {
    match v.field(primary) {
        Some(f) => match f.integer() {
            Some(i) => i,
            None => 0,
        },
        None => int_member_or(v, fallback, 0),
    }
}

/// A point of a drag path: an object with integer members `x` and `y`.
pub open spec fn drag_point(p: JsonValue) -> Option<(i64, i64)> {
    match (p.field("x"@), p.field("y"@)) {
        (Some(x), Some(y)) => match (x.integer(), y.integer()) {
            (Some(a), Some(b)) => Some((a, b)),
            _ => None,
        },
        _ => None,
    }
}

/// The well-formed points among `items`, in order.
pub open spec fn drag_points(items: Seq<JsonValue>) -> Seq<(i64, i64)>
    decreases items.len(),
{
    if items.len() == 0 {
        Seq::empty()
    } else {
        let rest = drag_points(items.drop_last());
        match drag_point(items.last()) {
            Some(pt) => rest.push(pt),
            None => rest,
        }
    }
}

/// The kind of an action description: its `type`, else `unknown`.
pub open spec fn action_kind(v: JsonValue) -> Seq<char> {
    text_member_or(v, "type"@, "unknown"@)
}

/// `a` is the decoding of the action description `v`. Missing coordinates
/// default to 0, a missing wait to 300 ms, and an unrecognised kind is kept
/// as `Unknown`.
pub open spec fn decoded_action(v: JsonValue, a: CuaAction) -> bool {
    let kind = action_kind(v);
    if kind == "screenshot"@ {
        a is Screenshot
    } else if kind == "click"@ {
        a matches CuaAction::Click { x, y, button } && x == int_member_or(v, "x"@, 0)
            && y == int_member_or(v, "y"@, 0) && opt_text(button) == text_member(v, "button"@)
    } else if kind == "double_click"@ {
        a matches CuaAction::DoubleClick { x, y } && x == int_member_or(v, "x"@, 0)
            && y == int_member_or(v, "y"@, 0)
    } else if kind == "move"@ {
        a matches CuaAction::Move { x, y } && x == int_member_or(v, "x"@, 0)
            && y == int_member_or(v, "y"@, 0)
    } else if kind == "scroll"@ {
        a matches CuaAction::Scroll { dx, dy } && dx == scroll_delta(v, "x"@, "dx"@)
            && dy == scroll_delta(v, "y"@, "dy"@)
    } else if kind == "type"@ {
        a matches CuaAction::Type { text } && text@ == text_member_or(v, "text"@, ""@)
    } else if kind == "keypress"@ {
        a matches CuaAction::Keypress { key } && key@ == text_member_or(v, "key"@, ""@)
    } else if kind == "drag"@ || kind == "drag_path"@ {
        a matches CuaAction::DragPath { points } && points@ == drag_points(items_member(v, "points"@))
    } else if kind == "wait"@ || kind == "wait_ms"@ {
        a matches CuaAction::WaitMs { ms } && ms == int_member_or(v, "ms"@, 300)
    } else {
        a matches CuaAction::Unknown(k) && k@ == kind
    }
}

/// The text of member `key`, if it is a string.
fn text_of<'a>(v: &'a JsonValue, key: &str) -> (r: Option<&'a String>)
    ensures
        opt_text(match r {
            Some(s) => Some(*s),
            None => None,
        }) == text_member(*v, key@),
{
    match v.get(key) {
        Some(f) => f.as_str(),
        None => None,
    }
}

/// The text of member `key`, or `d`.
fn text_or(v: &JsonValue, key: &str, d: &str) -> (r: String)
    ensures
        r@ == text_member_or(*v, key@, d@),
{
    match text_of(v, key) {
        Some(s) => s.clone(),
        None => String::from_str(d),
    }
}

/// The integer of member `key`, or `d`.
fn int_or(v: &JsonValue, key: &str, d: i64) -> (r: i64)
    ensures
        r == int_member_or(*v, key@, d),
{
    match v.get(key) {
        Some(f) => match f.as_i64() {
            Some(i) => i,
            None => d,
        },
        None => d,
    }
}

/// A scroll delta: member `primary` when present, else member `fallback`.
fn delta_of(v: &JsonValue, primary: &str, fallback: &str) -> (r: i64)
    ensures
        r == scroll_delta(*v, primary@, fallback@),
{
    match v.get(primary) {
        Some(f) => match f.as_i64() {
            Some(i) => i,
            None => 0,
        },
        None => int_or(v, fallback, 0),
    }
}

/// The well-formed points of a drag path description.
fn points_of(v: &JsonValue) -> (r: Vec<(i64, i64)>)
    ensures
        r@ == drag_points(items_member(*v, "points"@)),
{
    proof {
        reveal_strlit("points");
    }
    let mut points: Vec<(i64, i64)> = Vec::new();
    let items = match v.get("points") {
        Some(f) => match f.as_array() {
            Some(a) => a,
            None => {
                return points;
            },
        },
        None => {
            return points;
        },
    };
    let n = items.len();
    let mut i: usize = 0;
    while i < n
        invariant
            n == items@.len(),
            items_member(*v, "points"@) == items@,
            i <= n,
            points@ == drag_points(items@.subrange(0, i as int)),
        decreases n - i,
    {
        assert(items@.subrange(0, i + 1).drop_last() =~= items@.subrange(0, i as int));
        let p = &items[i];
        match (p.get("x"), p.get("y")) {
            (Some(x), Some(y)) => match (x.as_i64(), y.as_i64()) {
                (Some(a), Some(b)) => {
                    points.push((a, b));
                },
                _ => {},
            },
            _ => {},
        }
        i = i + 1;
    }
    assert(items@.subrange(0, n as int) =~= items@);
    points
}

/// Decodes an action description of the service.
pub fn decode_action(v: &JsonValue) -> (a: CuaAction)
    ensures
        decoded_action(*v, a),
{
    let kind = text_or(v, "type", "unknown");
    let k = kind.as_str();
    if same_text(k, "screenshot") {
        CuaAction::Screenshot
    } else if same_text(k, "click") {
        let button = match text_of(v, "button") {
            Some(b) => Some(b.clone()),
            None => None,
        };
        CuaAction::Click { x: int_or(v, "x", 0), y: int_or(v, "y", 0), button }
    } else if same_text(k, "double_click") {
        CuaAction::DoubleClick { x: int_or(v, "x", 0), y: int_or(v, "y", 0) }
    } else if same_text(k, "move") {
        CuaAction::Move { x: int_or(v, "x", 0), y: int_or(v, "y", 0) }
    } else if same_text(k, "scroll") {
        CuaAction::Scroll { dx: delta_of(v, "x", "dx"), dy: delta_of(v, "y", "dy") }
    } else if same_text(k, "type") {
        CuaAction::Type { text: text_or(v, "text", "") }
    } else if same_text(k, "keypress") {
        CuaAction::Keypress { key: text_or(v, "key", "") }
    } else if same_text(k, "drag") || same_text(k, "drag_path") {
        CuaAction::DragPath { points: points_of(v) }
    } else if same_text(k, "wait") || same_text(k, "wait_ms") {
        CuaAction::WaitMs { ms: int_or(v, "ms", 300) }
    } else {
        CuaAction::Unknown(kind)
    }
}

/// The kind of an output item, if it has one.
pub open spec fn item_kind(o: JsonValue) -> Option<Seq<char>> {
    text_member(o, "type"@)
}

/// An item that settles the reply: a call for an action, or a done signal.
pub open spec fn is_decisive(o: JsonValue) -> bool {
    item_kind(o) == Some("computer_call"@) || item_kind(o) == Some("done"@)
}

/// The text of the first content part of a message item (the JSON pointer
/// `/content/0/text`).
pub open spec fn first_content_text(o: JsonValue) -> Option<Seq<char>> {
    match o.field("content"@) {
        Some(c) => {
            let first = match c.items() {
                Some(parts) => if parts.len() > 0 { Some(parts[0]) } else { None },
                None => c.field("0"@),
            };
            match first {
                Some(p) => text_member(p, "text"@),
                None => None,
            }
        },
        None => None,
    }
}

/// The text a message item carries.
pub open spec fn message_text(o: JsonValue) -> Option<Seq<char>> {
    if item_kind(o) == Some("message"@) {
        first_content_text(o)
    } else {
        None
    }
}

/// The text of the last message among `items`.
pub open spec fn last_message(items: Seq<JsonValue>) -> Option<Seq<char>>
    decreases items.len(),
{
    if items.len() == 0 {
        None
    } else {
        match message_text(items.last()) {
            Some(t) => Some(t),
            None => last_message(items.drop_last()),
        }
    }
}

/// `out` is what the decisive item `o` of response `rid` says. A call's id
/// defaults to empty, its screenshot requirement to true, and a missing
/// action description to an unknown action.
pub open spec fn decisive_output(o: JsonValue, rid: Seq<char>, out: CuaOutput) -> bool {
    if item_kind(o) == Some("computer_call"@) {
        &&& out matches CuaOutput::ComputerCall { call_id, action, requires_screenshot, response_id, safety_checks }
        &&& call_id@ == text_member_or(o, "call_id"@, ""@)
        &&& requires_screenshot == bool_member_or(o, "requires_screenshot"@, true)
        &&& match o.field("action"@) {
            Some(d) => decoded_action(d, action),
            None => action matches CuaAction::Unknown(k) && k@ == "unknown"@,
        }
        &&& response_id.0@ == rid
        &&& safety_checks@ == items_member(o, "pending_safety_checks"@)
    } else {
        out matches CuaOutput::Done { response_id } && response_id.0@ == rid
    }
}

/// `out` is what the output items of response `rid` say: the first call or
/// done signal wins over any message; without one, the last message is the
/// answer; without a message either, the response counts as done.
pub open spec fn output_of_items(items: Seq<JsonValue>, rid: Seq<char>, out: CuaOutput) -> bool {
    ||| exists|k: int|
        0 <= k < items.len() && #[trigger] is_decisive(items[k])
            && (forall|j: int| 0 <= j < k ==> !is_decisive(#[trigger] items[j]))
            && decisive_output(items[k], rid, out)
    ||| (forall|k: int| 0 <= k < items.len() ==> !is_decisive(#[trigger] items[k])) && match last_message(items) {
        Some(t) => out matches CuaOutput::Message { text } && text@ == t,
        None => out matches CuaOutput::Done { response_id } && response_id.0@ == rid,
    }
}

/// The output items of a response: member `output` when it is an array.
pub open spec fn output_items(v: JsonValue) -> Seq<JsonValue> {
    items_member(v, "output"@)
}

/// `r` is the decoding of response `v`: a response without an `id` is a
/// protocol violation; otherwise its output items decide.
pub open spec fn parsed_output(v: JsonValue, r: Result<CuaOutput, AgentError>) -> bool {
    match text_member(v, "id"@) {
        None => r matches Err(e) && is_reasoner_error(e, "missing id"@),
        Some(rid) => r matches Ok(out) && output_of_items(output_items(v), rid, out),
    }
}

/// The text of the first content part of a message item.
fn content_text(o: &JsonValue) -> (r: Option<&String>)
    ensures
        opt_text(match r {
            Some(s) => Some(*s),
            None => None,
        }) == first_content_text(*o),
{
    let c = match o.get("content") {
        Some(c) => c,
        None => {
            return None;
        },
    };
    let first = match c.as_array() {
        Some(parts) => if parts.len() > 0 {
            Some(&parts[0])
        } else {
            None
        },
        None => c.get("0"),
    };
    match first {
        Some(p) => text_of(p, "text"),
        None => None,
    }
}

/// Builds the output for the decisive item `o` of response `rid`.
fn decisive(o: JsonValue, rid: String) -> (out: CuaOutput)
    requires
        is_decisive(o),
    ensures
        decisive_output(o, rid@, out),
{
    let is_call = match text_of(&o, "type") {
        Some(t) => same_text(t.as_str(), "computer_call"),
        None => false,
    };
    if !is_call {
        return CuaOutput::Done { response_id: ResponseId(rid) };
    }
    let call_id = text_or(&o, "call_id", "");
    let requires_screenshot = match o.get("requires_screenshot") {
        Some(f) => match f.as_bool() {
            Some(b) => b,
            None => true,
        },
        None => true,
    };
    let action = match o.get("action") {
        Some(d) => decode_action(d),
        None => CuaAction::Unknown(String::from_str("unknown")),
    };
    let safety_checks = match o.take("pending_safety_checks") {
        Some(JsonValue::Array(checks)) => checks,
        _ => Vec::new(),
    };
    CuaOutput::ComputerCall { call_id, action, requires_screenshot, response_id: ResponseId(rid), safety_checks }
}

/// Scans output items for the first one that settles the reply; without one,
/// also yields the text of the last message.
fn scan_items(items: &Vec<JsonValue>) -> (r: (Option<usize>, Option<String>))
    ensures
        match r.0 {
            Some(k) => k < items@.len() && is_decisive(items@[k as int])
                && forall|j: int| 0 <= j < k ==> !is_decisive(#[trigger] items@[j]),
            None => (forall|j: int| 0 <= j < items@.len() ==> !is_decisive(#[trigger] items@[j]))
                && opt_text(r.1) == last_message(items@),
        },
{
    let n = items.len();
    let mut pending: Option<String> = None;
    let mut i: usize = 0;
    while i < n
        invariant
            n == items@.len(),
            i <= n,
            forall|j: int| 0 <= j < i ==> !is_decisive(#[trigger] items@[j]),
            opt_text(pending) == last_message(items@.subrange(0, i as int)),
        decreases n - i,
    {
        assert(items@.subrange(0, i + 1).drop_last() =~= items@.subrange(0, i as int));
        match text_of(&items[i], "type") {
            Some(t) => {
                if same_text(t.as_str(), "computer_call") || same_text(t.as_str(), "done") {
                    return (Some(i), pending);
                }
                if same_text(t.as_str(), "message") {
                    match content_text(&items[i]) {
                        Some(text) => {
                            pending = Some(text.clone());
                        },
                        None => {},
                    }
                }
            },
            None => {},
        }
        i = i + 1;
    }
    assert(items@.subrange(0, n as int) =~= items@);
    (None, pending)
}

/// Decodes a response of the service. A call for an action takes precedence
/// over a message; a message is kept only when nothing settles the reply.
pub fn parse_output(v: JsonValue) -> (r: Result<CuaOutput, AgentError>)
    ensures
        parsed_output(v, r),
{
    let rid = match text_of(&v, "id") {
        Some(s) => s.clone(),
        None => {
            return Err(AgentError::Reasoner(String::from_str("missing id")));
        },
    };
    let mut items = match v.take("output") {
        Some(JsonValue::Array(items)) => items,
        _ => Vec::new(),
    };
    let ghost all = items@;
    let (found, pending) = scan_items(&items);
    match found {
        Some(k) => {
            let o = items.remove(k);
            let ghost rid_text = rid@;
            let out = decisive(o, rid);
            assert(decisive_output(all[k as int], rid_text, out));
            assert(output_of_items(all, rid_text, out));
            Ok(out)
        },
        None => match pending {
            Some(text) => Ok(CuaOutput::Message { text }),
            None => Ok(CuaOutput::Done { response_id: ResponseId(rid) }),
        },
    }
}

} // verus!
