//! Shared data model and small utilities: the email/notification/config value
//! types carried between the shell and its backend, a display string for an
//! unread-email count, API-key format validation, and path sanitizing for logs.

use vstd::prelude::*;

use crate::strutil::{dec_rep, has_prefix, push_char, str_eq, str_starts_with, u32_to_dec};
use vstd::string::StringSliceAdditionalSpecFns;

verus! {

/// One email as the backend reports it.
#[derive(Debug, Clone)]
pub struct EmailData {
    pub id: String,
    pub subject: String,
    pub sender: String,
    pub sender_email: String,
    pub body: String,
    pub received_time: String,
    pub is_unread: bool,
}

/// Payload of a desktop notification request.
#[derive(Debug, Clone)]
pub struct NotificationData {
    pub title: String,
    pub body: String,
    pub count: u32,
}

/// Configuration of the LLM provider used by the backend.
#[derive(Debug, Clone)]
pub struct LLMConfig {
    pub provider: String,
    pub api_key: String,
    pub model: String,
}

/// Configuration of the periodic email check.
#[derive(Debug, Clone)]
pub struct EmailConfig {
    pub check_interval_minutes: u32,
    pub max_emails_per_check: u32,
}

/// Configuration of desktop notifications, including the quiet-hours range.
#[derive(Debug, Clone)]
pub struct NotificationConfig {
    pub quiet_hours_start: String,
    pub quiet_hours_end: String,
    pub show_desktop_notifications: bool,
    pub notification_position: String,
}

/// The display text for an unread-email count.
pub open spec fn email_count_text(count: nat) -> Seq<char> {
    if count == 0 {
        "No new emails"@
    } else if count == 1 {
        "1 new email"@
    } else {
        dec_rep(count) + " new emails"@
    }
}

/// Format an unread-email count for display.
pub fn format_email_count(count: u32) -> (r: String)
    ensures
        r@ == email_count_text(count as nat),
{
    if count == 0 {
        "No new emails".to_owned()
    } else if count == 1 {
        "1 new email".to_owned()
    } else {
        let s = u32_to_dec(count).concat(" new emails");
        proof {
            assert(s@ =~= email_count_text(count as nat));
        }
        s
    }
}

/// A key is accepted when it is non-empty and, for the known providers, carries
/// the provider's prefix; for unknown providers any key longer than ten bytes
/// passes.
pub open spec fn valid_api_key(key: &str, provider: &str) -> bool {
    key@.len() > 0 && if provider@ == "openai"@ {
        has_prefix(key@, "sk-"@)
    } else if provider@ == "openrouter"@ {
        has_prefix(key@, "sk-or-"@)
    } else {
        key.spec_bytes().len() > 10
    }
}

/// Validate the format of an API key for the given provider.
pub fn is_valid_api_key(key: &str, provider: &str) -> (r: bool)
    ensures
        r == valid_api_key(key, provider),
{
    if key.is_empty() {
        return false;
    }
    if str_eq(provider, "openai") {
        str_starts_with(key, "sk-")
    } else if str_eq(provider, "openrouter") {
        str_starts_with(key, "sk-or-")
    } else {
        key.as_bytes().len() > 10
    }
}

/// What std's `char::is_alphanumeric` returns; the result depends on the
/// character alone.
pub uninterp spec fn is_alphanumeric_char(c: char) -> bool;

/// Relies on std's `char::is_alphanumeric` to classify a character.
#[verifier::external_body]
fn char_is_alphanumeric(c: char) -> (r: bool)
    ensures
        r == is_alphanumeric_char(c),
{
    c.is_alphanumeric()
}

/// How one path character is sanitized: alphanumerics, separators and dots are
/// kept, everything else becomes an underscore.
pub open spec fn sanitize_char(c: char) -> char {
    if is_alphanumeric_char(c) || c == '/' || c == '\\' || c == '.' {
        c
    } else {
        '_'
    }
}

/// The sanitized form of a whole path.
pub open spec fn sanitized(s: Seq<char>) -> Seq<char> {
    s.map_values(|c: char| sanitize_char(c))
}

/// Sanitize a file path for logging.
pub fn sanitize_path(path: &str) -> (r: String)
    ensures
        r@ == sanitized(path@),
{
    let len = path.unicode_len();
    let mut out = String::new();
    let mut i: usize = 0;
    while i < len
        invariant
            len == path@.len(),
            i <= len,
            out@ == sanitized(path@.subrange(0, i as int)),
        decreases len - i,
    {
        let c = path.get_char(i);
        let kept = if char_is_alphanumeric(c) || c == '/' || c == '\\' || c == '.' {
            c
        } else {
            '_'
        };
        push_char(&mut out, kept);
        proof {
            assert(path@.subrange(0, i + 1) =~= path@.subrange(0, i as int).push(path@[i as int]));
            assert(out@ =~= sanitized(path@.subrange(0, i + 1)));
        }
        i += 1;
    }
    proof {
        assert(path@.subrange(0, len as int) =~= path@);
    }
    out
}

} // verus!
