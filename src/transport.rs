use vstd::prelude::*;
use crate::decimal::{decimal_of, render_u64};
use crate::json::DecodeError;

verus! {

/// What a call can fail with. Every kind reaches the caller unchanged.
#[derive(Debug, PartialEq, Eq)]
pub enum RpcError {
    /// The server answered with a status other than 200.
    Transport { code: u16, reason: String, url: String },
    /// The body did not match the expected envelope or record.
    Decode(DecodeError),
    /// The envelope carried a status other than the success value.
    Protocol(String),
    /// No response came back: the request could not be sent or its body not read.
    Unreachable(String),
}

/// The registered reason phrase of an HTTP status code, when it has one.
pub uninterp spec fn canonical_reason_of(code: u16) -> Option<Seq<char>>;

/// Relies on reqwest::StatusCode (http's StatusCode): `from_u16` accepts codes in
/// 100..=999, and `canonical_reason` gives the registered phrase of the code.
#[verifier::external_body]
fn canonical_reason(code: u16) -> (r: Option<String>)
    ensures
        match r {
            Some(t) => canonical_reason_of(code) == Some(t@),
            None => canonical_reason_of(code) is None,
        },
        code < 100 || code > 999 ==> r is None,
{
    reqwest::StatusCode::from_u16(code).ok().and_then(|s| s.canonical_reason()).map(String::from)
}

/// The phrase shown for a status code: its registered phrase, or a marker for an unknown one.
pub open spec fn reason_text(reason: Option<Seq<char>>) -> Seq<char> {
    match reason {
        Some(t) => t,
        None => "<unknown status code>"@,
    }
}

/// The address that a method is posted to: the base address, a slash, the method name.
pub open spec fn url_of(addr: Seq<char>, method: Seq<char>) -> Seq<char> {
    addr + "/"@ + method
}

pub fn method_url(addr: &str, method: &str) -> (r: String)
    ensures
        r@ == url_of(addr@, method@),
{
    let mut u = String::from_str(addr);
    u.append("/");
    u.append(method);
    u
}

/// Where calls go: the server's base address and, optionally, a proxy that carries
/// all traffic. Both are fixed when the endpoint is made.
#[derive(Debug, PartialEq, Eq)]
pub struct Endpoint {
    addr: String,
    proxy: Option<String>,
}

impl Endpoint {
    pub closed spec fn addr_view(&self) -> Seq<char> {
        self.addr@
    }

    pub closed spec fn proxy_view(&self) -> Option<Seq<char>> {
        match self.proxy {
            Some(p) => Some(p@),
            None => None,
        }
    }

    pub fn new(addr: String, proxy: Option<String>) -> (r: Endpoint)
        ensures
            r.addr_view() == addr@,
            r.proxy_view() == match proxy {
                Some(p) => Some(p@),
                None => None,
            },
    {
        Endpoint { addr, proxy }
    }

    pub fn addr(&self) -> (r: &str)
        ensures
            r@ == self.addr_view(),
    {
        self.addr.as_str()
    }

    pub fn proxy(&self) -> (r: Option<&str>)
        ensures
            match r {
                Some(p) => self.proxy_view() == Some(p@),
                None => self.proxy_view() is None,
            },
    {
        match &self.proxy {
            Some(p) => Some(p.as_str()),
            None => None,
        }
    }

    /// The address that `method` is posted to.
    pub fn url_for(&self, method: &str) -> (r: String)
        ensures
            r@ == url_of(self.addr_view(), method@),
    {
        method_url(self.addr.as_str(), method)
    }
}

/// The failure for a response with status `code`, given the code's reason phrase as looked up.
pub fn status_failure(code: u16, reason: Option<String>, url: &str) -> (r: RpcError)
    ensures
        r matches RpcError::Transport { code: c, reason: t, url: u } && c == code && u@ == url@
            && t@ == reason_text(match reason { Some(s) => Some(s@), None => None }),
{
    let t = match reason {
        Some(s) => s,
        None => String::from_str("<unknown status code>"),
    };
    RpcError::Transport { code, reason: t, url: String::from_str(url) }
}

/// Classifies the status of a response to a request sent to `url`: only 200 lets the body through.
pub fn check_status(code: u16, url: &str) -> (r: Result<(), RpcError>)
    ensures
        r is Ok <==> code == 200,
        r matches Err(e) ==> (e matches RpcError::Transport { code: c, reason: t, url: u } && c == code
            && u@ == url@ && t@ == reason_text(canonical_reason_of(code))),
{
    if code == 200 {
        Ok(())
    } else {
        Err(status_failure(code, canonical_reason(code), url))
    }
}

/// The first words of a status failure's text: client errors are the codes 400 to 499.
pub open spec fn status_prefix(code: u16) -> Seq<char> {
    if 400 <= code && code < 500 {
        "HTTP status client error ("@
    } else {
        "HTTP status server error ("@
    }
}

pub open spec fn transport_message(code: u16, reason: Seq<char>, url: Seq<char>) -> Seq<char> {
    status_prefix(code) + decimal_of(code as nat) + " "@ + reason + ") for url ("@ + url + ")"@
}

pub open spec fn decode_detail(e: DecodeError) -> Seq<char> {
    match e {
        DecodeError::Malformed(m) => "malformed body: "@ + m@,
        DecodeError::NotAnObject => "expected an object"@,
        DecodeError::MissingField(k) => "missing field "@ + k@,
        DecodeError::InvalidField(k) => "invalid field "@ + k@,
    }
}

pub open spec fn error_message(e: RpcError) -> Seq<char> {
    match e {
        RpcError::Transport { code, reason, url } => transport_message(code, reason@, url@),
        RpcError::Decode(d) => "error decoding response body: "@ + decode_detail(d),
        RpcError::Protocol(s) => "unexpected response status: "@ + s@,
        RpcError::Unreachable(s) => "error sending request: "@ + s@,
    }
}

impl DecodeError {
    pub fn describe(&self) -> (r: String)
        ensures
            r@ == decode_detail(*self),
    {
        match self {
            DecodeError::Malformed(m) => {
                let mut s = String::from_str("malformed body: ");
                s.append(m.as_str());
                s
            },
            DecodeError::NotAnObject => String::from_str("expected an object"),
            DecodeError::MissingField(k) => {
                let mut s = String::from_str("missing field ");
                s.append(k.as_str());
                s
            },
            DecodeError::InvalidField(k) => {
                let mut s = String::from_str("invalid field ");
                s.append(k.as_str());
                s
            },
        }
    }
}

impl RpcError {
    /// A human-readable account of the failure.
    pub fn describe(&self) -> (r: String)
        ensures
            r@ == error_message(*self),
    {
        match self {
            RpcError::Transport { code, reason, url } => {
                let mut s = if 400 <= *code && *code < 500 {
                    String::from_str("HTTP status client error (")
                } else {
                    String::from_str("HTTP status server error (")
                };
                let c = render_u64(*code as u64);
                s.append(c.as_str());
                s.append(" ");
                s.append(reason.as_str());
                s.append(") for url (");
                s.append(url.as_str());
                s.append(")");
                s
            },
            RpcError::Decode(d) => {
                let mut s = String::from_str("error decoding response body: ");
                let t = d.describe();
                s.append(t.as_str());
                s
            },
            RpcError::Protocol(st) => {
                let mut s = String::from_str("unexpected response status: ");
                s.append(st.as_str());
                s
            },
            RpcError::Unreachable(m) => {
                let mut s = String::from_str("error sending request: ");
                s.append(m.as_str());
                s
            },
        }
    }
}

} // verus!
