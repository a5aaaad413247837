//! Requests and replies as plain values, and the reading of a reply.
//!
//! The library never touches the network. It describes each request it wants
//! sent as an [`HttpRequest`], and decides what a reply means once the caller
//! hands it back as an [`HttpReply`].

use vstd::prelude::*;
use vstd::utf8::{decode_utf8, valid_utf8};
use crate::error::{DomoErr, DomoErrView};

verus! {

/// The request methods that the API uses.
#[derive(Clone, Copy, Debug, PartialEq, Eq, Structural)]
pub enum Method {
    Get,
    Post,
    Put,
    Delete,
}

/// One HTTP request, ready to be sent.
#[derive(Clone, Debug, PartialEq, Eq)]
pub struct HttpRequest {
    pub method: Method,
    /// The full URL, query included.
    pub url: String,
    /// User name and password for HTTP Basic authentication, if it is used.
    pub basic_auth: Option<(String, String)>,
    /// Header names and values, in the order in which they are to be set.
    pub headers: Vec<(String, String)>,
    /// The body text, if the request has a body.
    pub body: Option<String>,
}

/// An `HttpRequest` with its texts as sequences of characters.
pub struct HttpRequestView {
    pub method: Method,
    pub url: Seq<char>,
    pub basic_auth: Option<(Seq<char>, Seq<char>)>,
    pub headers: Seq<(Seq<char>, Seq<char>)>,
    pub body: Option<Seq<char>>,
}

impl View for HttpRequest {
    type V = HttpRequestView;

    open spec fn view(&self) -> HttpRequestView {
        HttpRequestView {
            method: self.method,
            url: self.url@,
            basic_auth: self.basic_auth.deep_view(),
            headers: self.headers.deep_view(),
            body: self.body.deep_view(),
        }
    }
}

/// What came of sending a request.
#[derive(Clone, Debug, PartialEq, Eq)]
pub enum HttpReply {
    /// The request could not be sent, or the response could not be read.
    TransportFailed,
    /// The server answered.
    Response { status: u16, body: Vec<u8> },
}

/// An `HttpReply` with its body as a sequence of bytes.
pub enum HttpReplyView {
    TransportFailed,
    Response { status: u16, body: Seq<u8> },
}

impl View for HttpReply {
    type V = HttpReplyView;

    open spec fn view(&self) -> HttpReplyView {
        match self {
            HttpReply::TransportFailed => HttpReplyView::TransportFailed,
            HttpReply::Response { status, body } => HttpReplyView::Response {
                status: *status,
                body: body@,
            },
        }
    }
}

/// Whether a status code lies in the success class, 200 to 299.
pub open spec fn status_is_success(status: u16) -> bool {
    200 <= status < 300
}

/// The reason phrase that `http_types` (surf's `StatusCode`) gives for a
/// status code, or `None` for a code that it does not know.
pub uninterp spec fn canonical_reason(status: u16) -> Option<Seq<char>>;

/// The reason phrase carried in an error: the canonical one, and the empty
/// text for a status code without one.
pub open spec fn reason_text(status: u16) -> Seq<char> {
    match canonical_reason(status) {
        Some(reason) => reason,
        None => Seq::empty(),
    }
}

/// The body of a response read as text: its characters if the bytes are
/// UTF-8, and the empty text if they are not.
pub open spec fn body_text(body: Seq<u8>) -> Seq<char> {
    if valid_utf8(body) {
        decode_utf8(body)
    } else {
        Seq::empty()
    }
}

/// What a reply from a resource endpoint amounts to: the body of a successful
/// response, or the failure that the reply stands for.
pub open spec fn reply_outcome(reply: HttpReplyView) -> Result<Seq<u8>, DomoErrView> {
    match reply {
        HttpReplyView::TransportFailed => Err(DomoErrView::HttpRequestFailed),
        HttpReplyView::Response { status, body } => if status_is_success(status) {
            Ok(body)
        } else {
            Err(DomoErrView::ApiRequestFailed { status: reason_text(status), body: body_text(body) })
        },
    }
}

/// A response whose status is outside the success class is a failure that
/// carries the reason phrase of the status and the text of the body; it never
/// yields a body.
pub proof fn lemma_failed_status_is_an_error(status: u16, body: Seq<u8>)
    requires
        !status_is_success(status),
    ensures
        reply_outcome(HttpReplyView::Response { status, body }) == Err::<Seq<u8>, DomoErrView>(
            DomoErrView::ApiRequestFailed { status: reason_text(status), body: body_text(body) },
        ),
{
}

/// A response whose status is in the success class yields its body, byte for
/// byte.
pub proof fn lemma_success_yields_the_body(status: u16, body: Seq<u8>)
    requires
        status_is_success(status),
    ensures
        reply_outcome(HttpReplyView::Response { status, body }) == Ok::<Seq<u8>, DomoErrView>(body),
{
}

/// Tests whether `status` lies in the success class.
pub fn is_success(status: u16) -> (ok: bool)
    ensures
        ok == status_is_success(status),
{
    200 <= status && status < 300
}

/// Calls `StatusCode::try_from` and `StatusCode::canonical_reason` of surf
/// (from `http_types`). The contract names the outcome: the phrase of the
/// status code, or nothing where `try_from` rejects the number.
#[verifier::external_body]
fn status_reason(status: u16) -> (reason: Option<String>)
    ensures
        reason.deep_view() == canonical_reason(status),
{
    match surf::StatusCode::try_from(status) {
        Ok(code) => Some(code.canonical_reason().to_string()),
        Err(_) => None,
    }
}

/// Calls `String::from_utf8` of the standard library, which accepts exactly
/// the byte sequences that are valid UTF-8 and then yields the text that they
/// encode.
#[verifier::external_body]
fn utf8_text(bytes: Vec<u8>) -> (text: Option<String>)
    ensures
        text is Some <==> valid_utf8(bytes@),
        text matches Some(t) ==> t@ == decode_utf8(bytes@),
{
    String::from_utf8(bytes).ok()
}

/// Builds the failure for a response outside the success class from the
/// reason phrase of its status and the text of its body. Where one of them is
/// missing, the failure carries the empty text in its place.
pub fn failure_of(reason: Option<String>, text: Option<String>) -> (err: DomoErr)
    ensures
        err@ == (DomoErrView::ApiRequestFailed {
            status: match reason {
                Some(r) => r@,
                None => Seq::empty(),
            },
            body: match text {
                Some(t) => t@,
                None => Seq::empty(),
            },
        }),
{
    let status = match reason {
        Some(reason) => reason,
        None => String::new(),
    };
    let body = match text {
        Some(text) => text,
        None => String::new(),
    };
    DomoErr::ApiRequestFailed { status, body }
}

/// Builds the failure for a response whose status is outside the success
/// class.
pub fn api_failure(status: u16, body: Vec<u8>) -> (err: DomoErr)
    ensures
        err@ == (DomoErrView::ApiRequestFailed {
            status: reason_text(status),
            body: body_text(body@),
        }),
{
    failure_of(status_reason(status), utf8_text(body))
}

/// Reads the reply to a request that returns data: the body of a successful
/// response, otherwise the failure.
pub fn reply_body(reply: HttpReply) -> (result: Result<Vec<u8>, DomoErr>)
    ensures
        match reply_outcome(reply@) {
            Ok(body) => result matches Ok(bytes) && bytes@ == body,
            Err(e) => result matches Err(err) && err@ == e,
        },
{
    match reply {
        HttpReply::TransportFailed => Err(DomoErr::HttpRequestFailed),
        HttpReply::Response { status, body } => {
            if is_success(status) {
                Ok(body)
            } else {
                Err(api_failure(status, body))
            }
        },
    }
}

/// Reads the reply to a request that returns nothing: success for a
/// successful response, otherwise the failure.
pub fn reply_done(reply: HttpReply) -> (result: Result<(), DomoErr>)
    ensures
        match reply_outcome(reply@) {
            Ok(_) => result is Ok,
            Err(e) => result matches Err(err) && err@ == e,
        },
{
    match reply_body(reply) {
        Ok(_) => Ok(()),
        Err(err) => Err(err),
    }
}

} // verus!
