//! The resolver for requests on the service root.
use crate::ops::{HttpMethod, S3Ops};
use crate::request::S3Request;
use crate::resources::service_op;
use vstd::prelude::*;

verus! {

/// The service root answers only the listing of buckets.
pub fn resolve(req: &S3Request) -> (r: Option<S3Ops>)
    ensures
        r == service_op(req.method),
{
    match req.method {
        HttpMethod::Get => Some(S3Ops::ListBuckets),
        _ => None,
    }
}

} // verus!
