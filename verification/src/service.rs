//! The calling contract of handlers and middleware, and the coercion of what
//! a handler returns into the canonical response.

use vstd::prelude::*;
use vstd::string::*;
use crate::error::GramStdHttpErr;

verus! {

/// The canonical response: a status code and a body.
#[derive(Debug)]
pub struct Response {
    pub status: u16,
    pub body: String,
}

/// Something that answers requests: a handler, or a middleware around one.
pub trait Service<R> {
    type Output;

    /// The requests that the service may be called with: all of them,
    /// unless the service says otherwise.
    open spec fn accepts(&self, req: R) -> bool {
        true
    }

    /// `out` is an answer of the service to `req`: nothing is said of it,
    /// unless the service says more.
    open spec fn answers(&self, req: R, out: Self::Output) -> bool {
        true
    }

    fn call(&self, req: R) -> (out: Self::Output)
        requires
            self.accepts(req),
        ensures
            self.answers(req, out),
    ;
}

/// Middleware: it takes the service inside and gives the service that
/// stands around it.
pub trait ServiceTransform<S> {
    type Service;

    /// The inner services that the transform may be applied to: all of
    /// them, unless the transform says otherwise.
    open spec fn admits(&self, inner: S) -> bool {
        true
    }

    /// `outer` is the result of the transform on `inner`: nothing is said
    /// of it, unless the transform says more.
    open spec fn wraps(&self, inner: S, outer: Self::Service) -> bool {
        true
    }

    fn transform(&self, inner: S) -> (outer: Self::Service)
        requires
            self.admits(inner),
        ensures
            self.wraps(inner, outer),
    ;
}

/// What can be turned into a response.
pub trait IntoResponse<Res>: Sized {
    /// `res` is the response that `self` turns into: nothing is said of
    /// it, unless the type says more.
    open spec fn becomes(self, res: Res) -> bool {
        true
    }

    fn into_response(self) -> (res: Res)
        ensures
            self.becomes(res),
    ;
}

/// A result that a caller turns into a response in a way of its own.
pub trait HttpResult<Res> {
    fn get_res(self) -> Res;
}

/// The status of a response made from a body alone.
pub const STATUS_OK: u16 = 200;

/// The status of an error response whose own status is not a status code.
pub const STATUS_BAD_REQUEST: u16 = 400;

/// The numbers that are status codes.
pub open spec fn valid_status(code: u16) -> bool {
    100 <= code < 1000
}

/// The status that is sent for `status`: itself where it is a status code,
/// 400 where it is not.
pub open spec fn sent_status(status: u16) -> u16 {
    if valid_status(status) {
        status
    } else {
        STATUS_BAD_REQUEST
    }
}

/// The response that stands for an error: its status as it is sent, and its
/// message as the body.
pub open spec fn error_response(res: Response, status: u16, msg: Seq<char>) -> bool {
    res.status == sent_status(status) && res.body@ == msg
}

/// The response with the status 200 and the body `body`.
pub open spec fn text_response(res: Response, body: Seq<char>) -> bool {
    res.status == STATUS_OK && res.body@ == body
}

/// `hyper::StatusCode::from_u16` followed by `as_u16`: the code itself
/// where it lies between 100 and 999, nothing otherwise.
#[verifier::external_body]
fn status_from_u16(code: u16) -> (status: Option<u16>)
    ensures
        status == if valid_status(code) {
            Some(code)
        } else {
            None::<u16>
        },
{
    match hyper::StatusCode::from_u16(code) {
        Ok(status) => Some(status.as_u16()),
        Err(_) => None,
    }
}

/// The status that is sent for `status`.
pub fn status_to_send(status: u16) -> (code: u16)
    ensures
        code == sent_status(status),
        valid_status(code),
{
    match status_from_u16(status) {
        Some(code) => code,
        None => STATUS_BAD_REQUEST,
    }
}

/// The response for a handler's error.
pub fn handle_gram_err(e: GramStdHttpErr) -> (res: Response)
    ensures
        error_response(res, e.status, e.msg@),
{
    Response { status: status_to_send(e.status), body: e.msg }
}

impl Response {
    /// The response with the status 200 and the body `body`.
    pub fn new(body: String) -> (res: Self)
        ensures
            text_response(res, body@),
    {
        Response { status: STATUS_OK, body }
    }
}

impl IntoResponse<Response> for Response {
    open spec fn becomes(self, res: Response) -> bool {
        res == self
    }

    fn into_response(self) -> (res: Response) {
        self
    }
}

impl IntoResponse<Response> for &'static str {
    open spec fn becomes(self, res: Response) -> bool {
        text_response(res, self@)
    }

    fn into_response(self) -> (res: Response) {
        Response::new(String::from_str(self))
    }
}

impl IntoResponse<Response> for String {
    open spec fn becomes(self, res: Response) -> bool {
        text_response(res, self@)
    }

    fn into_response(self) -> (res: Response) {
        Response::new(self)
    }
}

impl IntoResponse<Response> for Result<String, GramStdHttpErr> {
    open spec fn becomes(self, res: Response) -> bool {
        match self {
            Ok(text) => text_response(res, text@),
            Err(e) => error_response(res, e.status, e.msg@),
        }
    }

    fn into_response(self) -> (res: Response) {
        match self {
            Ok(text) => text.into_response(),
            Err(e) => handle_gram_err(e),
        }
    }
}

impl<R, E> IntoResponse<Response> for Result<R, E> where
    R: IntoResponse<Response>,
    E: IntoResponse<Response>,
 {
    open spec fn becomes(self, res: Response) -> bool {
        match self {
            Ok(value) => value.becomes(res),
            Err(e) => e.becomes(res),
        }
    }

    fn into_response(self) -> (res: Response) {
        match self {
            Ok(value) => value.into_response(),
            Err(e) => e.into_response(),
        }
    }
}

impl<R, F, O> Service<R> for F where F: Fn(R) -> O, O: IntoResponse<Response> {
    type Output = Response;

    open spec fn accepts(&self, req: R) -> bool {
        self.requires((req,))
    }

    open spec fn answers(&self, req: R, out: Response) -> bool {
        exists|value: O| self.ensures((req,), value) && #[trigger] value.becomes(out)
    }

    fn call(&self, req: R) -> (out: Response) {
        let value = self(req);
        value.into_response()
    }
}

impl<S, F, S1> ServiceTransform<S> for F where F: Fn(S) -> S1 {
    type Service = S1;

    open spec fn admits(&self, inner: S) -> bool {
        self.requires((inner,))
    }

    open spec fn wraps(&self, inner: S, outer: S1) -> bool {
        self.ensures((inner,), outer)
    }

    fn transform(&self, inner: S) -> (outer: S1) {
        self(inner)
    }
}

} // verus!
