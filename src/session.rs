//! Saved sessions: their identifiers, file locations, the records written
//! after each turn (which keep the first creation time), and the summary
//! shown in listings. Reading and writing the files is the caller's.
use vstd::prelude::*;
use crate::file_patch::{join_path, joined};
use crate::history::{first_with_role};
use crate::text::{byte_prefix, cut_to_bytes, decimal, digits, exceeds_bytes, hexadecimal};
use crate::types::{user_role, is_user_role, ChatMessage};

verus! {

/// Metadata of a saved session (shown in listings).
#[derive(Debug, Clone)]
pub struct SessionMeta {
    pub id: String,
    pub created_at: String,
    pub updated_at: String,
    pub message_count: usize,
    pub preview: String,
}

/// A full saved session.
#[derive(Debug)]
pub struct Session {
    pub id: String,
    pub created_at: String,
    pub updated_at: String,
    pub model: String,
    pub messages: Vec<ChatMessage>,
}

/// The directory of saved sessions under a workspace.
pub fn sessions_dir(workspace_dir: &str) -> (r: String)
    ensures
        r@ == joined(workspace_dir@, "sessions"@),
{
    join_path(workspace_dir, "sessions")
}

/// The file of session `id`.
pub fn session_path(workspace_dir: &str, id: &str) -> (r: String)
    ensures
        r@ == joined(joined(workspace_dir@, "sessions"@), id@ + ".json"@),
{
    let dir = sessions_dir(workspace_dir);
    let mut file = String::from_str(id);
    file.append(".json");
    join_path(dir.as_str(), file.as_str())
}

/// A short session identifier: the creation time in milliseconds since
/// the Unix epoch, in lowercase hexadecimal.
pub fn new_session_id(millis: u64) -> (r: String)
    ensures
        r@ == digits(millis as nat, 16),
{
    hexadecimal(millis)
}

/// A timestamp: seconds since the Unix epoch, in decimal.
pub fn now_iso(secs: u64) -> (r: String)
    ensures
        r@ == digits(secs as nat, 10),
{
    decimal(secs)
}

fn copy_messages(messages: &Vec<ChatMessage>) -> (r: Vec<ChatMessage>)
    ensures
        r@ == messages@,
{
    let mut out: Vec<ChatMessage> = Vec::new();
    let mut i: usize = 0;
    while i < messages.len()
        invariant
            i <= messages@.len(),
            out@ == messages@.subrange(0, i as int),
        decreases messages@.len() - i,
    {
        out.push(messages[i].duplicate());
        assert(out@ =~= messages@.subrange(0, i + 1));
        i = i + 1;
    }
    assert(messages@.subrange(0, i as int) =~= messages@);
    out
}

/// The record of a session saved for the first time at `now`.
pub fn new_session(id: &str, model: &str, messages: &Vec<ChatMessage>, now: &str) -> (r: Session)
    ensures
        r.id@ == id@,
        r.model@ == model@,
        r.created_at@ == now@,
        r.updated_at@ == now@,
        r.messages@ == messages@,
{
    Session {
        id: String::from_str(id),
        created_at: String::from_str(now),
        updated_at: String::from_str(now),
        model: String::from_str(model),
        messages: copy_messages(messages),
    }
}

/// The record of a session saved again at `now`: an existing session keeps
/// its creation time.
pub fn updated_session(
    existing_created_at: Option<String>,
    id: &str,
    model: &str,
    messages: &Vec<ChatMessage>,
    now: &str,
) -> (r: Session)
    ensures
        r.id@ == id@,
        r.model@ == model@,
        r.created_at@ == (match existing_created_at {
            Some(c) => c@,
            None => now@,
        }),
        r.updated_at@ == now@,
        r.messages@ == messages@,
{
    let created_at = match existing_created_at {
        Some(c) => c,
        None => String::from_str(now),
    };
    Session {
        id: String::from_str(id),
        created_at,
        updated_at: String::from_str(now),
        model: String::from_str(model),
        messages: copy_messages(messages),
    }
}

/// The most bytes of the first user message shown in a listing.
pub const PREVIEW_BYTES: usize = 60;

/// A listing's preview: the first user message, cut at the last character
/// boundary within `PREVIEW_BYTES` bytes with `...` when longer, or empty
/// when there is none.
pub open spec fn preview_of(messages: Seq<ChatMessage>) -> Seq<char> {
    match first_with_role(messages, user_role()) {
        Some(i) => {
            let c = messages[i].content@;
            if exceeds_bytes(c, PREVIEW_BYTES as int) {
                byte_prefix(c, PREVIEW_BYTES as int) + "..."@
            } else {
                c
            }
        },
        None => Seq::empty(),
    }
}

pub fn session_preview(messages: &Vec<ChatMessage>) -> (r: String)
    ensures
        r@ == preview_of(messages@),
{
    let mut i: usize = 0;
    assert(messages@.subrange(0, messages@.len() as int) =~= messages@);
    while i < messages.len()
        invariant
            i <= messages@.len(),
            first_with_role(messages@, user_role()) == (match first_with_role(
                messages@.subrange(i as int, messages@.len() as int),
                user_role(),
            ) {
                Some(k) => Some(k + i),
                None => None,
            }),
        decreases messages@.len() - i,
    {
        assert(messages@.subrange(i as int, messages@.len() as int).drop_first() =~= messages@.subrange(
            i + 1,
            messages@.len() as int,
        ));
        if is_user_role(&messages[i].role) {
            let content = messages[i].content.as_str();
            let (cut, truncated) = cut_to_bytes(content, PREVIEW_BYTES);
            if truncated {
                let mut p = cut;
                p.append("...");
                return p;
            } else {
                return messages[i].content.clone();
            }
        }
        i = i + 1;
    }
    assert(messages@.subrange(i as int, messages@.len() as int).len() == 0);
    String::new()
}

/// The listing entry of a session.
pub fn session_meta(session: &Session) -> (r: SessionMeta)
    ensures
        r.id == session.id,
        r.created_at == session.created_at,
        r.updated_at == session.updated_at,
        r.message_count == session.messages@.len(),
        r.preview@ == preview_of(session.messages@),
{
    SessionMeta {
        id: session.id.clone(),
        created_at: session.created_at.clone(),
        updated_at: session.updated_at.clone(),
        message_count: session.messages.len(),
        preview: session_preview(&session.messages),
    }
}

} // verus!
