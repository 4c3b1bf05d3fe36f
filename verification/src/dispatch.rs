//! Command dispatcher: one builder per backend operation exposed to the UI
//! layer. Each builder applies the documented defaults, substitutes path
//! parameters, serializes the body as a single JSON object, and yields the
//! logical operation for the backend proxy to perform.

use vstd::prelude::*;

use crate::json::{build_obj1, build_obj2, json_obj1, json_obj2};
use crate::proxy::BackendOperation;
use crate::strutil::{dec_rep, u32_to_dec};

verus! {

/// Default page size for email listing.
pub const DEFAULT_EMAIL_LIMIT: u32 = 20;

/// Default snooze duration in minutes.
pub const DEFAULT_SNOOZE_MINUTES: u32 = 60;

fn get_op(endpoint: String) -> (op: BackendOperation)
    ensures
        op.endpoint == endpoint,
        op.method@ == "GET"@,
        op.body is None,
{
    BackendOperation { endpoint, method: String::from_str("GET"), body: None }
}

fn post_op(endpoint: String, body: Option<String>) -> (op: BackendOperation)
    ensures
        op.endpoint == endpoint,
        op.method@ == "POST"@,
        op.body == body,
{
    BackendOperation { endpoint, method: String::from_str("POST"), body }
}

/// List emails: `GET /emails?limit=N`; the limit defaults to 20.
pub fn get_emails_op(limit: Option<u32>) -> (op: BackendOperation)
    ensures
        op.endpoint@ == "/emails?limit="@ + dec_rep(
            (match limit {
                Some(l) => l,
                None => DEFAULT_EMAIL_LIMIT,
            }) as nat,
        ),
        op.method@ == "GET"@,
        op.body is None,
{
    let l = match limit {
        Some(l) => l,
        None => DEFAULT_EMAIL_LIMIT,
    };
    let mut e = String::from_str("/emails?limit=");
    e.append(u32_to_dec(l).as_str());
    get_op(e)
}

/// Fetch one email: `GET /emails/{id}`.
pub fn get_email_op(email_id: &str) -> (op: BackendOperation)
    ensures
        op.endpoint@ == "/emails/"@ + email_id@,
        op.method@ == "GET"@,
        op.body is None,
{
    let mut e = String::from_str("/emails/");
    e.append(email_id);
    get_op(e)
}

/// Send a reply: `POST /emails/{id}/reply` with body `{"reply_text": ...}`.
pub fn send_reply_op(email_id: &str, reply_text: &str) -> (op: BackendOperation)
    ensures
        op.endpoint@ == "/emails/"@ + email_id@ + "/reply"@,
        op.method@ == "POST"@,
        op.body matches Some(b) && b@ == json_obj1("reply_text"@, reply_text@),
{
    let mut e = String::from_str("/emails/");
    e.append(email_id);
    e.append("/reply");
    post_op(e, Some(build_obj1("reply_text", reply_text)))
}

/// Mark an email read: `POST /emails/{id}/mark-read`, no body.
pub fn mark_email_read_op(email_id: &str) -> (op: BackendOperation)
    ensures
        op.endpoint@ == "/emails/"@ + email_id@ + "/mark-read"@,
        op.method@ == "POST"@,
        op.body is None,
{
    let mut e = String::from_str("/emails/");
    e.append(email_id);
    e.append("/mark-read");
    post_op(e, None)
}

/// Create a task from an email: `POST /emails/{id}/create-task` with body
/// `{"description": ..., "title": ...}` (keys in lexicographic order, as the
/// backend receives them on the wire).
pub fn create_task_from_email_op(email_id: &str, title: &str, description: &str) -> (op:
    BackendOperation)
    ensures
        op.endpoint@ == "/emails/"@ + email_id@ + "/create-task"@,
        op.method@ == "POST"@,
        op.body matches Some(b) && b@ == json_obj2(
            "description"@,
            description@,
            "title"@,
            title@,
        ),
{
    let mut e = String::from_str("/emails/");
    e.append(email_id);
    e.append("/create-task");
    post_op(e, Some(build_obj2("description", description, "title", title)))
}

/// Snooze an email: `POST /emails/{id}/snooze?minutes=N`; the duration
/// defaults to 60 minutes.
pub fn snooze_email_op(email_id: &str, minutes: Option<u32>) -> (op: BackendOperation)
    ensures
        op.endpoint@ == "/emails/"@ + email_id@ + "/snooze?minutes="@ + dec_rep(
            (match minutes {
                Some(m) => m,
                None => DEFAULT_SNOOZE_MINUTES,
            }) as nat,
        ),
        op.method@ == "POST"@,
        op.body is None,
{
    let m = match minutes {
        Some(m) => m,
        None => DEFAULT_SNOOZE_MINUTES,
    };
    let mut e = String::from_str("/emails/");
    e.append(email_id);
    e.append("/snooze?minutes=");
    e.append(u32_to_dec(m).as_str());
    post_op(e, None)
}

/// Count unread emails: `GET /emails/unread-count`.
pub fn get_unread_count_op() -> (op: BackendOperation)
    ensures
        op.endpoint@ == "/emails/unread-count"@,
        op.method@ == "GET"@,
        op.body is None,
{
    get_op(String::from_str("/emails/unread-count"))
}

/// Summarize an email: `POST /llm/summarize` with body `{"email_content": ...}`.
pub fn summarize_email_op(email_content: &str) -> (op: BackendOperation)
    ensures
        op.endpoint@ == "/llm/summarize"@,
        op.method@ == "POST"@,
        op.body matches Some(b) && b@ == json_obj1("email_content"@, email_content@),
{
    post_op(String::from_str("/llm/summarize"), Some(build_obj1("email_content", email_content)))
}

/// Draft a task from an email: `POST /llm/generate-task` with body
/// `{"email_content": ...}`.
pub fn generate_task_from_email_op(email_content: &str) -> (op: BackendOperation)
    ensures
        op.endpoint@ == "/llm/generate-task"@,
        op.method@ == "POST"@,
        op.body matches Some(b) && b@ == json_obj1("email_content"@, email_content@),
{
    post_op(
        String::from_str("/llm/generate-task"),
        Some(build_obj1("email_content", email_content)),
    )
}

/// Draft a reply: `POST /llm/generate-reply` with body
/// `{"email_content": ..., "instruction": ...}`; the instruction defaults to
/// the empty string.
pub fn generate_reply_op(email_content: &str, instruction: Option<&str>) -> (op: BackendOperation)
    ensures
        op.endpoint@ == "/llm/generate-reply"@,
        op.method@ == "POST"@,
        op.body matches Some(b) && b@ == json_obj2(
            "email_content"@,
            email_content@,
            "instruction"@,
            (match instruction {
                Some(i) => i@,
                None => Seq::<char>::empty(),
            }),
        ),
{
    let instr = match instruction {
        Some(i) => i,
        None => "",
    };
    proof {
        reveal_strlit("");
        assert(""@ =~= Seq::<char>::empty());
    }
    post_op(
        String::from_str("/llm/generate-reply"),
        Some(build_obj2("email_content", email_content, "instruction", instr)),
    )
}

/// Fetch the whole configuration blob: `GET /config`.
pub fn get_config_op() -> (op: BackendOperation)
    ensures
        op.endpoint@ == "/config"@,
        op.method@ == "GET"@,
        op.body is None,
{
    get_op(String::from_str("/config"))
}

/// Push the whole configuration blob: `POST /config` with body
/// `{"config": <blob>}`. The blob is already-serialized JSON and is spliced
/// through opaquely, never inspected.
pub fn save_config_op(config_json: &str) -> (op: BackendOperation)
    ensures
        op.endpoint@ == "/config"@,
        op.method@ == "POST"@,
        op.body matches Some(b) && b@ == "{\"config\":"@ + config_json@ + "}"@,
{
    let mut b = String::from_str("{\"config\":");
    b.append(config_json);
    b.append("}");
    post_op(String::from_str("/config"), Some(b))
}

/// Probe the backend: `GET /health`.
pub fn health_check_op() -> (op: BackendOperation)
    ensures
        op.endpoint@ == "/health"@,
        op.method@ == "GET"@,
        op.body is None,
{
    get_op(String::from_str("/health"))
}

} // verus!
