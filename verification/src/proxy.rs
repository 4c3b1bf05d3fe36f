//! Backend proxy: turns a logical backend operation into a concrete request
//! against the fixed loopback base address, and normalizes the outcome of the
//! round trip into a uniform success-or-message result. The proxy itself does
//! no I/O; the surrounding process performs the prepared request and feeds the
//! transport outcome back in.

use vstd::prelude::*;

use crate::strutil::{dec_rep, u32_to_dec};

verus! {

/// A backend HTTP status is a success exactly when it lies in the 2xx range.
pub open spec fn is_success_status(status: int) -> bool {
    200 <= status < 300
}

/// Decide whether a backend response status counts as success.
pub fn status_is_success(status: u16) -> (r: bool)
    ensures
        r == is_success_status(status as int),
{
    200 <= status && status < 300
}

/// A logical backend operation: a path, an HTTP method name, and an optional
/// JSON body. Constructed per call, never stored.
#[derive(Debug, Clone)]
pub struct BackendOperation {
    pub endpoint: String,
    pub method: String,
    pub body: Option<String>,
}

/// The HTTP methods the backend accepts.
#[derive(Debug, Clone, Copy, PartialEq, Eq, Structural)]
pub enum Method {
    Get,
    Post,
    Put,
    Delete,
}

/// The canonical name of a method.
pub open spec fn method_name(m: Method) -> Seq<char> {
    match m {
        Method::Get => "GET"@,
        Method::Post => "POST"@,
        Method::Put => "PUT"@,
        Method::Delete => "DELETE"@,
    }
}

/// `s` spells `GET`, in any mix of upper and lower case.
pub open spec fn spells_get(s: Seq<char>) -> bool {
    s.len() == 3 && (s[0] == 'G' || s[0] == 'g') && (s[1] == 'E' || s[1] == 'e') && (s[2] == 'T'
        || s[2] == 't')
}

/// `s` spells `POST`, in any mix of upper and lower case.
pub open spec fn spells_post(s: Seq<char>) -> bool {
    s.len() == 4 && (s[0] == 'P' || s[0] == 'p') && (s[1] == 'O' || s[1] == 'o') && (s[2] == 'S'
        || s[2] == 's') && (s[3] == 'T' || s[3] == 't')
}

/// `s` spells `PUT`, in any mix of upper and lower case.
pub open spec fn spells_put(s: Seq<char>) -> bool {
    s.len() == 3 && (s[0] == 'P' || s[0] == 'p') && (s[1] == 'U' || s[1] == 'u') && (s[2] == 'T'
        || s[2] == 't')
}

/// `s` spells `DELETE`, in any mix of upper and lower case.
pub open spec fn spells_delete(s: Seq<char>) -> bool {
    s.len() == 6 && (s[0] == 'D' || s[0] == 'd') && (s[1] == 'E' || s[1] == 'e') && (s[2] == 'L'
        || s[2] == 'l') && (s[3] == 'E' || s[3] == 'e') && (s[4] == 'T' || s[4] == 't') && (s[5]
        == 'E' || s[5] == 'e')
}

/// The method a name denotes, case-insensitively; `None` for anything else.
pub open spec fn parse_method_spec(s: Seq<char>) -> Option<Method> {
    if spells_get(s) {
        Some(Method::Get)
    } else if spells_post(s) {
        Some(Method::Post)
    } else if spells_put(s) {
        Some(Method::Put)
    } else if spells_delete(s) {
        Some(Method::Delete)
    } else {
        None
    }
}

/// Recognize a method name, case-insensitively.
pub fn parse_method(s: &str) -> (r: Option<Method>)
    ensures
        r == parse_method_spec(s@),
{
    let len = s.unicode_len();
    if len == 3 {
        let c0 = s.get_char(0);
        let c1 = s.get_char(1);
        let c2 = s.get_char(2);
        if (c0 == 'G' || c0 == 'g') && (c1 == 'E' || c1 == 'e') && (c2 == 'T' || c2 == 't') {
            Some(Method::Get)
        } else if (c0 == 'P' || c0 == 'p') && (c1 == 'U' || c1 == 'u') && (c2 == 'T' || c2 == 't') {
            Some(Method::Put)
        } else {
            None
        }
    } else if len == 4 {
        let c0 = s.get_char(0);
        let c1 = s.get_char(1);
        let c2 = s.get_char(2);
        let c3 = s.get_char(3);
        if (c0 == 'P' || c0 == 'p') && (c1 == 'O' || c1 == 'o') && (c2 == 'S' || c2 == 's') && (c3
            == 'T' || c3 == 't') {
            Some(Method::Post)
        } else {
            None
        }
    } else if len == 6 {
        let c0 = s.get_char(0);
        let c1 = s.get_char(1);
        let c2 = s.get_char(2);
        let c3 = s.get_char(3);
        let c4 = s.get_char(4);
        let c5 = s.get_char(5);
        if (c0 == 'D' || c0 == 'd') && (c1 == 'E' || c1 == 'e') && (c2 == 'L' || c2 == 'l') && (c3
            == 'E' || c3 == 'e') && (c4 == 'T' || c4 == 't') && (c5 == 'E' || c5 == 'e') {
            Some(Method::Delete)
        } else {
            None
        }
    } else {
        None
    }
}

impl Method {
    /// The canonical name, for building the outgoing request.
    pub fn as_str(&self) -> (r: &'static str)
        ensures
            r@ == method_name(*self),
    {
        match self {
            Method::Get => "GET",
            Method::Post => "POST",
            Method::Put => "PUT",
            Method::Delete => "DELETE",
        }
    }
}

/// The fixed loopback base address of the backend service.
pub open spec fn base_url_spec() -> Seq<char> {
    "http://127.0.0.1:8000"@
}

/// A request ready to be performed: full URL, validated method, optional
/// body. A body, when present, is sent with a JSON content type.
#[derive(Debug, Clone)]
pub struct PreparedRequest {
    pub url: String,
    pub method: Method,
    pub body: Option<String>,
}

impl PreparedRequest {
    /// Whether the request declares a JSON content type: exactly when it
    /// carries a body.
    pub fn declares_json_content_type(&self) -> (r: bool)
        ensures
            r == (self.body is Some),
    {
        match &self.body {
            Some(_) => true,
            None => false,
        }
    }
}

/// Validate an operation and build the concrete request against the loopback
/// base address. Rejected locally, before any request is attempted, exactly
/// when the method name is not GET/POST/PUT/DELETE (in any case mix).
pub fn prepare_request(op: &BackendOperation) -> (r: Result<PreparedRequest, String>)
    ensures
        r is Err <==> parse_method_spec(op.method@) is None,
        r matches Err(e) ==> e@ == "Unsupported HTTP method"@,
        r matches Ok(p) ==> {
            &&& p.url@ == base_url_spec() + op.endpoint@
            &&& Some(p.method) == parse_method_spec(op.method@)
            &&& p.body.deep_view() == op.body.deep_view()
        },
{
    let method = match parse_method(op.method.as_str()) {
        Some(m) => m,
        None => {
            return Err("Unsupported HTTP method".to_owned());
        },
    };
    let url = String::from_str("http://127.0.0.1:8000").concat(op.endpoint.as_str());
    let body = match &op.body {
        Some(b) => Some(b.clone()),
        None => None,
    };
    Ok(PreparedRequest { url, method, body })
}

/// The outcome of one backend round trip, normalized: the raw response body
/// on success, a transport failure with the transport's message, or a non-2xx
/// status failure carrying the status code.
#[derive(Debug, Clone)]
pub enum BackendResult {
    Success(String),
    TransportFailure(String),
    StatusFailure(u16),
}

/// The message shown for a non-2xx status.
pub open spec fn status_error_text(status: nat) -> Seq<char> {
    "HTTP "@ + dec_rep(status) + ": "@ + dec_rep(status)
}

/// Classify a completed HTTP response: a 2xx status yields the raw body, any
/// other status a failure carrying the status code.
pub fn classify_response(status: u16, body: String) -> (r: BackendResult)
    ensures
        is_success_status(status as int) ==> (r matches BackendResult::Success(b) && b
            == body),
        !is_success_status(status as int) ==> r == BackendResult::StatusFailure(status),
{
    if status_is_success(status) {
        BackendResult::Success(body)
    } else {
        BackendResult::StatusFailure(status)
    }
}

impl BackendResult {
    /// Collapse the result into the uniform text contract the commands
    /// return: the body on success, otherwise a human-readable message.
    pub fn into_text_result(self) -> (r: Result<String, String>)
        ensures
            self matches BackendResult::Success(b) ==> (r matches Ok(o) && o == b),
            self matches BackendResult::TransportFailure(m) ==> (r matches Err(e) && e == m),
            self matches BackendResult::StatusFailure(s) ==> (r matches Err(e) && e@
                == status_error_text(s as nat)),
    {
        match self {
            BackendResult::Success(b) => Ok(b),
            BackendResult::TransportFailure(m) => Err(m),
            BackendResult::StatusFailure(s) => {
                let digits = u32_to_dec(s as u32);
                let mut msg = String::from_str("HTTP ");
                msg.append(digits.as_str());
                msg.append(": ");
                msg.append(digits.as_str());
                proof {
                    assert(msg@ =~= status_error_text(s as nat));
                }
                Err(msg)
            },
        }
    }
}

} // verus!
