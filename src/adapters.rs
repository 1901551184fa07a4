//! Identifiers, image encoding, and the default collaborators: a device that
//! does nothing, a policy that allows everything, a memory store that keeps
//! nothing, and a store that archives screenshots as files.
use crate::model::{opt_text, Action, ActionResult, AgentError, Approval, Scope, Snapshot};
use crate::text::{decimal_pad3, push_decimal_pad3};
use base64::Engine;
use vstd::prelude::*;

verus! {

/// A character of the URL-safe alphabet that identifiers are drawn from.
pub open spec fn is_id_char(c: char) -> bool {
    ||| c == '_'
    ||| c == '-'
    ||| '0' <= c <= '9'
    ||| 'a' <= c <= 'z'
    ||| 'A' <= c <= 'Z'
}

/// A fresh identifier: 21 characters of the URL-safe alphabet.
pub open spec fn is_fresh_id(s: Seq<char>) -> bool {
    s.len() == 21 && forall|i: int| 0 <= i < s.len() ==> is_id_char(#[trigger] s[i])
}

/// Relies on `nanoid::format` with the crate's default random source and its
/// `SAFE` alphabet (the expansion of `nanoid!()`): 21 characters, each drawn
/// from that alphabet. Which ones is left to chance.
#[verifier::external_body]
pub(crate) fn fresh_id() -> (r: String)
    ensures
        is_fresh_id(r@),
{
    nanoid::format(nanoid::rngs::default, &nanoid::alphabet::SAFE, 21)
}

/// The standard base64 encoding (with padding) of some bytes.
pub uninterp spec fn base64_of(bytes: Seq<u8>) -> Seq<char>;

/// The bytes that a text decodes to under standard base64, if it is valid.
pub uninterp spec fn base64_decoding(text: Seq<char>) -> Option<Seq<u8>>;

/// Relies on `base64::engine::general_purpose::STANDARD.encode`; it panics
/// only when the encoded length overflows `usize`, which the bound rules out.
#[verifier::external_body]
fn encode_base64(bytes: &Vec<u8>) -> (r: String)
    requires
        bytes@.len() <= usize::MAX / 2,
    ensures
        r@ == base64_of(bytes@),
{
    base64::engine::general_purpose::STANDARD.encode(bytes)
}

/// Relies on `base64::engine::general_purpose::STANDARD.decode`: the decoded
/// bytes, or the decoder's error message when the text is not valid base64.
#[verifier::external_body]
fn decode_base64(text: &str) -> (r: Result<Vec<u8>, String>)
    ensures
        match r {
            Ok(bytes) => base64_decoding(text@) == Some(bytes@),
            Err(_) => base64_decoding(text@) is None,
        },
{
    base64::engine::general_purpose::STANDARD.decode(text).map_err(|e| e.to_string())
}

/// The snapshot of a page capture: a fresh id, the page's URL and the
/// screenshot in base64.
pub fn captured_snapshot(url: String, png: &Vec<u8>) -> (r: Snapshot)
    requires
        png@.len() <= usize::MAX / 2,
    ensures
        is_fresh_id(r.id@),
        r.url == Some(url),
        r.title is None,
        opt_text(r.image_base64) == Some(base64_of(png@)),
        r.dom_summary is None,
        r.captured_at_ms == 0,
{
    Snapshot {
        id: fresh_id(),
        url: Some(url),
        title: None,
        image_base64: Some(encode_base64(png)),
        dom_summary: None,
        captured_at_ms: 0,
    }
}

/// A device that does nothing: every observation shows an empty page.
#[derive(Clone, Copy)]
pub struct NoopComputer;

impl NoopComputer {
    /// Pretends to open `url`.
    pub fn open_url(&self, url: &str) -> (r: Snapshot)
        ensures
            is_fresh_id(r.id@),
            opt_text(r.url) == Some(url@),
            opt_text(r.title) == Some("noop"@),
            r.image_base64 is None,
            opt_text(r.dom_summary) == Some("<noop/>"@),
            r.captured_at_ms == 0,
    {
        Snapshot {
            id: fresh_id(),
            url: Some(String::from_str(url)),
            title: Some(String::from_str("noop")),
            image_base64: None,
            dom_summary: Some(String::from_str("<noop/>")),
            captured_at_ms: 0,
        }
    }

    /// Observes the empty page.
    pub fn snapshot(&self) -> (r: Snapshot)
        ensures
            is_fresh_id(r.id@),
            opt_text(r.url) == Some("about:blank"@),
            opt_text(r.title) == Some("noop"@),
            r.image_base64 is None,
            opt_text(r.dom_summary) == Some("<noop/>"@),
            r.captured_at_ms == 0,
    {
        Snapshot {
            id: fresh_id(),
            url: Some(String::from_str("about:blank")),
            title: Some(String::from_str("noop")),
            image_base64: None,
            dom_summary: Some(String::from_str("<noop/>")),
            captured_at_ms: 0,
        }
    }

    /// Pretends to perform `action`; the page always counts as changed.
    pub fn act(&self, action: &Action) -> (r: ActionResult)
        ensures
            is_fresh_id(r.snapshot.id@),
            opt_text(r.snapshot.url) == Some("about:blank"@),
            r.changed,
            opt_text(r.message) == Some("noop"@),
    {
        ActionResult { snapshot: self.snapshot(), changed: true, message: Some(String::from_str("noop")) }
    }
}

/// A policy that approves every action.
#[derive(Clone, Copy)]
pub struct AllowAllPolicy;

impl AllowAllPolicy {
    /// Approves `action` whatever the scopes.
    pub fn approve(&self, scopes: &[Scope], action: &Action) -> (r: Approval)
        ensures
            r.granted,
            r.scope is None,
            opt_text(r.reason) == Some("allow all"@),
    {
        Approval { granted: true, scope: None, reason: Some(String::from_str("allow all")) }
    }
}

/// A memory store that keeps nothing.
pub struct NullMemoryStore;

/// A store that archives each snapshot's screenshot as a PNG file in a
/// directory per run under a base directory.
pub struct DiskSnapshotStore {
    base_dir: String,
}

/// A screenshot to write: its file name within the run's directory, and the
/// decoded image.
pub struct SnapshotFile {
    pub name: String,
    pub png: Vec<u8>,
}

/// The file name of a screenshot: `start.png` before the first step,
/// `step_NNN.png` after step NNN.
pub open spec fn snapshot_file_name(step: Option<usize>) -> Seq<char> {
    match step {
        Some(s) => "step_"@ + decimal_pad3(s as nat) + ".png"@,
        None => "start.png"@,
    }
}

impl View for DiskSnapshotStore {
    type V = Seq<char>;

    closed spec fn view(&self) -> Seq<char> {
        self.base_dir@
    }
}

impl DiskSnapshotStore {
    /// A store under the directory `base`.
    pub fn new(base: &str) -> (r: DiskSnapshotStore)
        ensures
            r@ == base@,
    {
        DiskSnapshotStore { base_dir: String::from_str(base) }
    }

    /// The base directory.
    pub fn base_dir(&self) -> (r: &String)
        ensures
            r@ == self@,
    {
        &self.base_dir
    }

    /// What to write for `snapshot`, taken at `step`: nothing when it has no
    /// screenshot, else the file name and the decoded image. A screenshot
    /// that is not valid base64 is a memory error.
    pub fn snapshot_file(
        &self,
        step: Option<usize>,
        snapshot: &Snapshot,
    ) -> (r: Result<Option<SnapshotFile>, AgentError>)
        ensures
            snapshot.image_base64 is None ==> r matches Ok(None),
            snapshot.image_base64 matches Some(b64) ==> match base64_decoding(b64@) {
                Some(bytes) => r matches Ok(Some(f)) && f.name@ == snapshot_file_name(step) && f.png@ == bytes,
                None => r matches Err(AgentError::Memory(m)) && m@.subrange(0, 12) == "b64 decode: "@,
            },
    {
        let b64 = match &snapshot.image_base64 {
            Some(b64) => b64,
            None => {
                return Ok(None);
            },
        };
        match decode_base64(b64.as_str()) {
            Ok(png) => {
                let name = match step {
                    Some(s) => {
                        let mut name = String::from_str("step_");
                        push_decimal_pad3(&mut name, s as u64);
                        name.append(".png");
                        name
                    },
                    None => String::from_str("start.png"),
                };
                Ok(Some(SnapshotFile { name, png }))
            },
            Err(e) => {
                proof {
                    reveal_strlit("b64 decode: ");
                }
                let mut m = String::from_str("b64 decode: ");
                m.append(e.as_str());
                Err(AgentError::Memory(m))
            },
        }
    }
}

} // verus!
