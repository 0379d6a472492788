//! Resolvers for requests on an object, one per object facet.
use crate::ops::{HttpMethod, S3Ops};
use crate::request::S3Request;
use crate::resources::{object_op, S3ObjectSubResource};
use vstd::prelude::*;

verus! {

/// The header whose presence turns a write into a server-side copy.
pub const X_AMZ_COPY_SOURCE: &'static str = "x-amz-copy-source";

/// The object root: a `PUT` with a copy source is a copy, without one an upload.
pub fn match_object(req: &S3Request) -> (r: Option<S3Ops>)
    ensures
        r == object_op(S3ObjectSubResource::Root, req.method, req.spec_has_copy_source()),
{
    match req.method {
        HttpMethod::Get => Some(S3Ops::GetObject),
        HttpMethod::Head => Some(S3Ops::HeadObject),
        HttpMethod::Put => {
            if req.has_header(X_AMZ_COPY_SOURCE) {
                Some(S3Ops::CopyObject)
            } else {
                Some(S3Ops::PutObject)
            }
        },
        HttpMethod::Delete => Some(S3Ops::DeleteObject),
        _ => None,
    }
}

pub fn resolve_acl(req: &S3Request) -> (r: Option<S3Ops>)
    ensures
        r == object_op(S3ObjectSubResource::Acl, req.method, req.spec_has_copy_source()),
{
    match req.method {
        HttpMethod::Get => Some(S3Ops::GetObjectAcl),
        HttpMethod::Put => Some(S3Ops::PutObjectAcl),
        _ => None,
    }
}

pub fn resolve_legal_hold(req: &S3Request) -> (r: Option<S3Ops>)
    ensures
        r == object_op(S3ObjectSubResource::LegalHold, req.method, req.spec_has_copy_source()),
{
    match req.method {
        HttpMethod::Get => Some(S3Ops::GetObjectLegalHold),
        HttpMethod::Put => Some(S3Ops::PutObjectLegalHold),
        _ => None,
    }
}

pub fn resolve_restore(req: &S3Request) -> (r: Option<S3Ops>)
    ensures
        r == object_op(S3ObjectSubResource::Restore, req.method, req.spec_has_copy_source()),
{
    match req.method {
        HttpMethod::Post => Some(S3Ops::RestoreObject),
        _ => None,
    }
}

pub fn resolve_retention(req: &S3Request) -> (r: Option<S3Ops>)
    ensures
        r == object_op(S3ObjectSubResource::Retention, req.method, req.spec_has_copy_source()),
{
    match req.method {
        HttpMethod::Get => Some(S3Ops::GetObjectRetention),
        HttpMethod::Put => Some(S3Ops::PutObjectRetention),
        _ => None,
    }
}

/// Content selection streams events, a protocol outside the operation set:
/// no method selects an operation here.
pub fn resolve_select_object_content(req: &S3Request) -> (r: Option<S3Ops>)
    ensures
        r == object_op(S3ObjectSubResource::SelectObjectContent, req.method, req.spec_has_copy_source()),
{
    None
}

pub fn resolve_tagging(req: &S3Request) -> (r: Option<S3Ops>)
    ensures
        r == object_op(S3ObjectSubResource::Tagging, req.method, req.spec_has_copy_source()),
{
    match req.method {
        HttpMethod::Get => Some(S3Ops::GetObjectTagging),
        HttpMethod::Put => Some(S3Ops::PutObjectTagging),
        HttpMethod::Delete => Some(S3Ops::DeleteObjectTagging),
        _ => None,
    }
}

pub fn resolve_torrent(req: &S3Request) -> (r: Option<S3Ops>)
    ensures
        r == object_op(S3ObjectSubResource::Torrent, req.method, req.spec_has_copy_source()),
{
    match req.method {
        HttpMethod::Get => Some(S3Ops::GetObjectTorrent),
        _ => None,
    }
}

pub fn resolve_uploads(req: &S3Request) -> (r: Option<S3Ops>)
    ensures
        r == object_op(S3ObjectSubResource::Uploads, req.method, req.spec_has_copy_source()),
{
    match req.method {
        HttpMethod::Get => Some(S3Ops::ListMultipartUploads),
        HttpMethod::Post => Some(S3Ops::CreateMultipartUpload),
        _ => None,
    }
}

/// A multipart upload: a `PUT` with a copy source copies a part, without one uploads it.
pub fn resolve_upload_id(req: &S3Request) -> (r: Option<S3Ops>)
    ensures
        r == object_op(S3ObjectSubResource::UploadId, req.method, req.spec_has_copy_source()),
{
    match req.method {
        HttpMethod::Get => Some(S3Ops::ListParts),
        HttpMethod::Put => {
            if req.has_header(X_AMZ_COPY_SOURCE) {
                Some(S3Ops::UploadPartCopy)
            } else {
                Some(S3Ops::UploadPart)
            }
        },
        HttpMethod::Post => Some(S3Ops::CompleteMultipartUpload),
        HttpMethod::Delete => Some(S3Ops::AbortMultipartUpload),
        _ => None,
    }
}

pub fn resolve_versions(req: &S3Request) -> (r: Option<S3Ops>)
    ensures
        r == object_op(S3ObjectSubResource::Versions, req.method, req.spec_has_copy_source()),
{
    match req.method {
        HttpMethod::Get => Some(S3Ops::ListObjectVersions),
        _ => None,
    }
}

} // verus!
