//! Requests and replies as plain values. The library builds a request and
//! reads a reply; sending is left to a transport that the caller supplies.

use vstd::prelude::*;

verus! {

/// The HTTP methods that the service is called with.
#[derive(Debug, Clone, Copy, PartialEq, Eq, Structural)]
pub enum HTTPMethod {
    GET,
    POST,
    DELETE,
}

/// One header line of a request.
#[derive(Debug)]
pub struct Header {
    pub name: String,
    pub value: String,
}

/// What a `Header` holds, as plain texts.
pub ghost struct HeaderView {
    pub name: Seq<char>,
    pub value: Seq<char>,
}

impl View for Header {
    type V = HeaderView;

    open spec fn view(&self) -> HeaderView {
        HeaderView { name: self.name@, value: self.value@ }
    }
}

/// A request, ready to be sent.
#[derive(Debug)]
pub struct Request {
    pub method: HTTPMethod,
    pub url: String,
    pub headers: Vec<Header>,
    pub body: Option<String>,
}

/// What a `Request` holds, as plain values.
pub ghost struct RequestView {
    pub method: HTTPMethod,
    pub url: Seq<char>,
    pub headers: Seq<HeaderView>,
    pub body: Option<Seq<char>>,
}

impl View for Request {
    type V = RequestView;

    open spec fn view(&self) -> RequestView {
        RequestView {
            method: self.method,
            url: self.url@,
            headers: Seq::new(self.headers@.len(), |i: int| self.headers@[i]@),
            body: match self.body {
                Some(text) => Some(text@),
                None => None,
            },
        }
    }
}

/// What came of sending a request.
#[derive(Debug)]
pub enum Reply {
    /// The request could not be sent, or no answer came.
    Failed,
    /// The service answered with `status`. `body` is the text of the answer,
    /// `None` where the text could not be read.
    Answered { status: u16, body: Option<String> },
}

/// The header that asks for a JSON answer.
pub open spec fn accept_header() -> HeaderView {
    HeaderView { name: "Accept"@, value: "application/json"@ }
}

/// The header that carries the token.
pub open spec fn token_header(token: Seq<char>) -> HeaderView {
    HeaderView { name: "X-Auth-Token"@, value: token }
}

/// Whether `request` has a header `X-Auth-Token` whose value is `token`.
pub open spec fn carries_token(request: RequestView, token: Seq<char>) -> bool {
    exists|i: int| 0 <= i < request.headers.len() && request.headers[i] == token_header(token)
}

/// A request without a token: it asks for JSON and nothing more.
pub open spec fn open_request_model(method: HTTPMethod, url: Seq<char>) -> RequestView {
    RequestView { method, url, headers: seq![accept_header()], body: None }
}

/// A request to `url` that asks for JSON and carries no token.
pub fn open_request(method: HTTPMethod, url: &str) -> (r: Request)
    ensures
        r@ == open_request_model(method, url@),
{
    let mut headers: Vec<Header> = Vec::new();
    headers.push(Header { name: String::from_str("Accept"), value: String::from_str("application/json") });
    let r = Request { method, url: String::from_str(url), headers, body: None };
    assert(r@.headers =~= seq![accept_header()]);
    r
}

/// `request` with one more header, behind those it has.
pub fn with_header(request: Request, name: &str, value: &str) -> (r: Request)
    ensures
        r@ == (RequestView {
            headers: request@.headers.push(HeaderView { name: name@, value: value@ }),
            ..request@
        }),
{
    let Request { method, url, headers, body } = request;
    let mut headers = headers;
    headers.push(Header { name: String::from_str(name), value: String::from_str(value) });
    let r = Request { method, url, headers, body };
    assert(r@.headers =~= request@.headers.push(HeaderView { name: name@, value: value@ }));
    r
}

/// `request` with `body` as its body, in place of any it had.
pub fn with_body(request: Request, body: String) -> (r: Request)
    ensures
        r@ == (RequestView { body: Some(body@), ..request@ }),
{
    let Request { method, url, headers, body: _ } = request;
    let r = Request { method, url, headers, body: Some(body) };
    assert(r@.headers =~= request@.headers);
    r
}

/// Whether a status code lies in the success range, 200 to 299.
pub open spec fn success_status(status: u16) -> bool {
    200 <= status <= 299
}

/// Whether a status code lies in the success range.
pub fn is_success(status: u16) -> (r: bool)
    ensures
        r == success_status(status),
{
    200 <= status && status <= 299
}

/// Whether `reply` stands for a call that the service carried out: an answer
/// with a success status. A failed exchange is none.
pub open spec fn succeeded_model(reply: Reply) -> bool {
    match reply {
        Reply::Failed => false,
        Reply::Answered { status, body } => success_status(status),
    }
}

/// Whether the service carried the call out.
pub fn succeeded(reply: &Reply) -> (ok: bool)
    ensures
        ok == succeeded_model(*reply),
{
    match reply {
        Reply::Failed => false,
        Reply::Answered { status, body: _ } => is_success(*status),
    }
}

/// The text that `reply` brought, if it brought one.
pub open spec fn reply_text(reply: Reply) -> Option<Seq<char>> {
    match reply {
        Reply::Answered { status, body: Some(text) } => Some(text@),
        _ => None,
    }
}

/// The text of an answer; `None` for a failed exchange and for an answer
/// whose text could not be read.
pub fn into_text(reply: Reply) -> (r: Option<String>)
    ensures
        r.is_some() == reply_text(reply).is_some(),
        r.is_some() ==> r.unwrap()@ == reply_text(reply).unwrap(),
{
    match reply {
        Reply::Answered { status: _, body: Some(text) } => Some(text),
        _ => None,
    }
}

/// Whether `transport` takes every request.
pub open spec fn takes_all<F: Fn(Request) -> Reply>(transport: F) -> bool {
    forall|request: Request| call_requires(transport, (request,))
}

/// Whether `reply` is what `transport` may give when handed a request that
/// holds what `request` says.
pub open spec fn answers<F: Fn(Request) -> Reply>(
    transport: F,
    request: RequestView,
    reply: Reply,
) -> bool {
    exists|sent: Request| sent@ == request && call_ensures(transport, (sent,), reply)
}

/// Hands `request` to `transport` and returns what came back.
pub fn exchange<F: Fn(Request) -> Reply>(transport: &F, request: Request) -> (reply: Reply)
    requires
        takes_all(*transport),
    ensures
        answers(*transport, request@, reply),
{
    let ghost sent = request;
    let reply = transport(request);
    assert(sent@ == request@ && call_ensures(*transport, (sent,), reply));
    reply
}

} // verus!
