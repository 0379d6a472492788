//! The gateway's dispatch: where each classified request goes.
use crate::conf::Conf;
use crate::ops::S3Ops;
use crate::request::{S3Error, S3Request};
use crate::text::str_eq;
use vstd::prelude::*;
use vstd::utf8::*;

verus! {

/// Where a request is served.
#[derive(Debug, Clone, Copy, PartialEq, Eq, Structural)]
pub enum Route {
    /// No operation matches: answered as a bad request before any store is touched.
    Reject,
    /// Read from the local queue, falling back to the remote store on a miss.
    LocalGet,
    /// Written to the local queue, to be flushed to the remote store.
    LocalPut,
    /// Passed through to the remote store.
    Remote(S3Ops),
}

/// Object reads and writes go through the local queue; every other operation
/// goes to the remote store.
pub open spec fn route_of(op: Option<S3Ops>) -> Route {
    match op {
        None => Route::Reject,
        Some(S3Ops::GetObject) => Route::LocalGet,
        Some(S3Ops::PutObject) => Route::LocalPut,
        Some(o) => Route::Remote(o),
    }
}

/// The base64 text (standard alphabet, padded) of a byte string.
pub uninterp spec fn base64_text(b: Seq<u8>) -> Seq<char>;

/// Relies on base64::encode, standard alphabet with padding, over the UTF-8 bytes of `s`.
#[verifier::external_body]
fn base64_encode(s: &str) -> (r: String)
    ensures
        r@ == base64_text(encode_utf8(s@)),
{
    base64::encode(s.as_bytes())
}

pub const X_AMZ_REQUEST_ID: &'static str = "x-amz-request-id";

pub const X_AMZ_ID_2: &'static str = "x-amz-id-2";

/// The headers that tag every response with the request id and the host id,
/// given the host id already encoded.
pub fn id_headers(reqid: &str, encoded_hostid: &str) -> (r: Vec<(String, String)>)
    ensures
        r@.len() == 2,
        r@[0].0@ == X_AMZ_REQUEST_ID@,
        r@[0].1@ == reqid@,
        r@[1].0@ == X_AMZ_ID_2@,
        r@[1].1@ == encoded_hostid@,
{
    let mut h: Vec<(String, String)> = Vec::new();
    h.push((X_AMZ_REQUEST_ID.to_owned(), reqid.to_owned()));
    h.push((X_AMZ_ID_2.to_owned(), encoded_hostid.to_owned()));
    h
}

/// The HTTP status of an error response, from its code.
pub open spec fn status_of(code: Seq<char>) -> u16 {
    if code == "BadRequest"@ {
        400
    } else if code == "Forbidden"@ {
        403
    } else if code == "NoSuchKey"@ {
        404
    } else if code == "NotImplemented"@ {
        501
    } else {
        500
    }
}

pub fn error_status(e: &S3Error) -> (r: u16)
    ensures
        r == status_of(e.code@),
{
    let code = e.code.as_str();
    if str_eq(code, "BadRequest") {
        400
    } else if str_eq(code, "Forbidden") {
        403
    } else if str_eq(code, "NoSuchKey") {
        404
    } else if str_eq(code, "NotImplemented") {
        501
    } else {
        500
    }
}

#[derive(Debug)]
pub struct Daemon {
    pub conf: Conf,
}

impl Daemon {
    pub fn new(conf: Conf) -> (r: Daemon)
        ensures
            r.conf == conf,
    {
        Daemon { conf }
    }

    /// Only requests from the local host are served; `remote_addr` is the
    /// peer's address as text, for the message.
    pub fn check_auth(&self, remote_is_loopback: bool, remote_addr: &str) -> (r: Result<(), S3Error>)
        ensures
            r is Ok <==> remote_is_loopback,
            r matches Err(e) ==> e.code@ == "Forbidden"@ && e.message@ == "Received request from non-local address "@
                + remote_addr@,
    {
        if remote_is_loopback {
            Ok(())
        } else {
            let mut message = "Received request from non-local address ".to_owned();
            message.append(remote_addr);
            Err(S3Error { code: "Forbidden".to_owned(), message })
        }
    }

    /// Where a parsed request is served.
    pub fn handle_request(&self, req: &S3Request) -> (r: Route)
        ensures
            r == route_of(req.op_kind),
    {
        match req.op_kind {
            None => Route::Reject,
            Some(S3Ops::GetObject) => Route::LocalGet,
            Some(S3Ops::PutObject) => Route::LocalPut,
            Some(o) => Route::Remote(o),
        }
    }

    /// Whether a parsed request is served, and where: a request that no
    /// operation matches is a bad request before anything else; any other is
    /// served only to a peer on the local host.
    pub fn authorize(&self, req: &S3Request, remote_is_loopback: bool, remote_addr: &str) -> (r: Result<Route, S3Error>)
        ensures
            route_of(req.op_kind) == Route::Reject ==> (r matches Err(e) && e.code@ == "BadRequest"@
                && e.message@ == "No such operation"@),
            route_of(req.op_kind) != Route::Reject ==> (r is Ok <==> remote_is_loopback),
            r matches Ok(rt) ==> rt == route_of(req.op_kind),
            route_of(req.op_kind) != Route::Reject ==> (r matches Err(e) ==> e.code@ == "Forbidden"@),
    {
        let route = self.handle_request(req);
        match route {
            Route::Reject => Err(S3Error::bad_request("No such operation")),
            _ => match self.check_auth(remote_is_loopback, remote_addr) {
                Ok(()) => Ok(route),
                Err(e) => Err(e),
            },
        }
    }

    /// The id headers of a response: the request id, and the host id in base64.
    pub fn headers_ids(&self, reqid: &str, hostid: &str) -> (r: Vec<(String, String)>)
        ensures
            r@.len() == 2,
            r@[0].0@ == X_AMZ_REQUEST_ID@,
            r@[0].1@ == reqid@,
            r@[1].0@ == X_AMZ_ID_2@,
            r@[1].1@ == base64_text(encode_utf8(hostid@)),
    {
        let encoded = base64_encode(hostid);
        id_headers(reqid, encoded.as_str())
    }

    /// The id headers of the response to `req`.
    pub fn set_headers_ids(&self, req: &S3Request) -> (r: Vec<(String, String)>)
        ensures
            r@.len() == 2,
            r@[0].0@ == X_AMZ_REQUEST_ID@,
            r@[0].1@ == req.reqid@,
            r@[1].0@ == X_AMZ_ID_2@,
            r@[1].1@ == base64_text(encode_utf8(req.hostid@)),
    {
        self.headers_ids(req.reqid.as_str(), req.hostid.as_str())
    }
}

} // verus!
