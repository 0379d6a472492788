//! Resolvers for requests on a bucket, one per bucket facet.
use crate::ops::{HttpMethod, S3Ops};
use crate::request::S3Request;
use crate::resources::{bucket_op, S3BucketSubResource};
use crate::text::str_eq;
use vstd::prelude::*;

verus! {

/// The bucket root: listing (version 2 when `list-type=2`), head, create, delete.
pub fn resolve(req: &S3Request) -> (r: Option<S3Ops>)
    ensures
        r == bucket_op(S3BucketSubResource::Root, req.method, req.spec_has_id(), req.spec_list_v2()),
{
    match req.method {
        HttpMethod::Get => {
            proof {
                reveal_strlit("2");
                reveal_strlit("");
            }
            assert(""@.len() == 0 && "2"@.len() == 1);
            if str_eq(req.get_param_str("list-type"), "2") {
                Some(S3Ops::ListObjectsV2)
            } else {
                Some(S3Ops::ListObjects)
            }
        },
        HttpMethod::Head => Some(S3Ops::HeadBucket),
        HttpMethod::Put => Some(S3Ops::CreateBucket),
        HttpMethod::Delete => Some(S3Ops::DeleteBucket),
        _ => None,
    }
}

pub fn resolve_accelerate(req: &S3Request) -> (r: Option<S3Ops>)
    ensures
        r == bucket_op(S3BucketSubResource::Accelerate, req.method, req.spec_has_id(), req.spec_list_v2()),
{
    match req.method {
        HttpMethod::Get => Some(S3Ops::GetBucketAccelerateConfiguration),
        HttpMethod::Put => Some(S3Ops::PutBucketAccelerateConfiguration),
        _ => None,
    }
}

pub fn resolve_acl(req: &S3Request) -> (r: Option<S3Ops>)
    ensures
        r == bucket_op(S3BucketSubResource::Acl, req.method, req.spec_has_id(), req.spec_list_v2()),
{
    match req.method {
        HttpMethod::Get => Some(S3Ops::GetBucketAcl),
        HttpMethod::Put => Some(S3Ops::PutBucketAcl),
        _ => None,
    }
}

pub fn resolve_analytics(req: &S3Request) -> (r: Option<S3Ops>)
    ensures
        r == bucket_op(S3BucketSubResource::Analytics, req.method, req.spec_has_id(), req.spec_list_v2()),
{
    match req.method {
        HttpMethod::Get => {
            if req.has_param("id") {
                Some(S3Ops::GetBucketAnalyticsConfiguration)
            } else {
                Some(S3Ops::ListBucketAnalyticsConfigurations)
            }
        },
        HttpMethod::Put => Some(S3Ops::PutBucketAnalyticsConfiguration),
        HttpMethod::Delete => Some(S3Ops::DeleteBucketAnalyticsConfiguration),
        _ => None,
    }
}

pub fn resolve_cors(req: &S3Request) -> (r: Option<S3Ops>)
    ensures
        r == bucket_op(S3BucketSubResource::Cors, req.method, req.spec_has_id(), req.spec_list_v2()),
{
    match req.method {
        HttpMethod::Get => Some(S3Ops::GetBucketCors),
        HttpMethod::Put => Some(S3Ops::PutBucketCors),
        HttpMethod::Delete => Some(S3Ops::DeleteBucketCors),
        _ => None,
    }
}

pub fn resolve_encryption(req: &S3Request) -> (r: Option<S3Ops>)
    ensures
        r == bucket_op(S3BucketSubResource::Encryption, req.method, req.spec_has_id(), req.spec_list_v2()),
{
    match req.method {
        HttpMethod::Get => Some(S3Ops::GetBucketEncryption),
        HttpMethod::Put => Some(S3Ops::PutBucketEncryption),
        HttpMethod::Delete => Some(S3Ops::DeleteBucketEncryption),
        _ => None,
    }
}

pub fn resolve_intelligent_tiering(req: &S3Request) -> (r: Option<S3Ops>)
    ensures
        r == bucket_op(S3BucketSubResource::IntelligentTiering, req.method, req.spec_has_id(), req.spec_list_v2()),
{
    match req.method {
        HttpMethod::Get => {
            if req.has_param("id") {
                Some(S3Ops::GetBucketIntelligentTieringConfiguration)
            } else {
                Some(S3Ops::ListBucketIntelligentTieringConfigurations)
            }
        },
        HttpMethod::Put => Some(S3Ops::PutBucketIntelligentTieringConfiguration),
        HttpMethod::Delete => Some(S3Ops::DeleteBucketIntelligentTieringConfiguration),
        _ => None,
    }
}

pub fn resolve_inventory(req: &S3Request) -> (r: Option<S3Ops>)
    ensures
        r == bucket_op(S3BucketSubResource::Inventory, req.method, req.spec_has_id(), req.spec_list_v2()),
{
    match req.method {
        HttpMethod::Get => {
            if req.has_param("id") {
                Some(S3Ops::GetBucketInventoryConfiguration)
            } else {
                Some(S3Ops::ListBucketInventoryConfigurations)
            }
        },
        HttpMethod::Put => Some(S3Ops::PutBucketInventoryConfiguration),
        HttpMethod::Delete => Some(S3Ops::DeleteBucketInventoryConfiguration),
        _ => None,
    }
}

pub fn resolve_lifecycle(req: &S3Request) -> (r: Option<S3Ops>)
    ensures
        r == bucket_op(S3BucketSubResource::Lifecycle, req.method, req.spec_has_id(), req.spec_list_v2()),
{
    match req.method {
        HttpMethod::Get => Some(S3Ops::GetBucketLifecycleConfiguration),
        HttpMethod::Put => Some(S3Ops::PutBucketLifecycleConfiguration),
        HttpMethod::Delete => Some(S3Ops::DeleteBucketLifecycle),
        _ => None,
    }
}

pub fn resolve_location(req: &S3Request) -> (r: Option<S3Ops>)
    ensures
        r == bucket_op(S3BucketSubResource::Location, req.method, req.spec_has_id(), req.spec_list_v2()),
{
    match req.method {
        HttpMethod::Get => Some(S3Ops::GetBucketLocation),
        _ => None,
    }
}

pub fn resolve_logging(req: &S3Request) -> (r: Option<S3Ops>)
    ensures
        r == bucket_op(S3BucketSubResource::Logging, req.method, req.spec_has_id(), req.spec_list_v2()),
{
    match req.method {
        HttpMethod::Get => Some(S3Ops::GetBucketLogging),
        HttpMethod::Put => Some(S3Ops::PutBucketLogging),
        _ => None,
    }
}

pub fn resolve_metrics(req: &S3Request) -> (r: Option<S3Ops>)
    ensures
        r == bucket_op(S3BucketSubResource::Metrics, req.method, req.spec_has_id(), req.spec_list_v2()),
{
    match req.method {
        HttpMethod::Get => {
            if req.has_param("id") {
                Some(S3Ops::GetBucketMetricsConfiguration)
            } else {
                Some(S3Ops::ListBucketMetricsConfigurations)
            }
        },
        HttpMethod::Put => Some(S3Ops::PutBucketMetricsConfiguration),
        HttpMethod::Delete => Some(S3Ops::DeleteBucketMetricsConfiguration),
        _ => None,
    }
}

pub fn resolve_notification(req: &S3Request) -> (r: Option<S3Ops>)
    ensures
        r == bucket_op(S3BucketSubResource::Notification, req.method, req.spec_has_id(), req.spec_list_v2()),
{
    match req.method {
        HttpMethod::Get => Some(S3Ops::GetBucketNotificationConfiguration),
        HttpMethod::Put => Some(S3Ops::PutBucketNotificationConfiguration),
        _ => None,
    }
}

pub fn resolve_object_lock(req: &S3Request) -> (r: Option<S3Ops>)
    ensures
        r == bucket_op(S3BucketSubResource::ObjectLock, req.method, req.spec_has_id(), req.spec_list_v2()),
{
    match req.method {
        HttpMethod::Get => Some(S3Ops::GetObjectLockConfiguration),
        HttpMethod::Put => Some(S3Ops::PutObjectLockConfiguration),
        _ => None,
    }
}

pub fn resolve_ownership_controls(req: &S3Request) -> (r: Option<S3Ops>)
    ensures
        r == bucket_op(S3BucketSubResource::OwnershipControls, req.method, req.spec_has_id(), req.spec_list_v2()),
{
    match req.method {
        HttpMethod::Get => Some(S3Ops::GetBucketOwnershipControls),
        HttpMethod::Put => Some(S3Ops::PutBucketOwnershipControls),
        HttpMethod::Delete => Some(S3Ops::DeleteBucketOwnershipControls),
        _ => None,
    }
}

pub fn resolve_policy(req: &S3Request) -> (r: Option<S3Ops>)
    ensures
        r == bucket_op(S3BucketSubResource::Policy, req.method, req.spec_has_id(), req.spec_list_v2()),
{
    match req.method {
        HttpMethod::Get => Some(S3Ops::GetBucketPolicy),
        HttpMethod::Put => Some(S3Ops::PutBucketPolicy),
        HttpMethod::Delete => Some(S3Ops::DeleteBucketPolicy),
        _ => None,
    }
}

pub fn resolve_policy_status(req: &S3Request) -> (r: Option<S3Ops>)
    ensures
        r == bucket_op(S3BucketSubResource::PolicyStatus, req.method, req.spec_has_id(), req.spec_list_v2()),
{
    match req.method {
        HttpMethod::Get => Some(S3Ops::GetBucketPolicyStatus),
        _ => None,
    }
}

pub fn resolve_public_access_block(req: &S3Request) -> (r: Option<S3Ops>)
    ensures
        r == bucket_op(S3BucketSubResource::PublicAccessBlock, req.method, req.spec_has_id(), req.spec_list_v2()),
{
    match req.method {
        HttpMethod::Get => Some(S3Ops::GetPublicAccessBlock),
        HttpMethod::Put => Some(S3Ops::PutPublicAccessBlock),
        HttpMethod::Delete => Some(S3Ops::DeletePublicAccessBlock),
        _ => None,
    }
}

pub fn resolve_replication(req: &S3Request) -> (r: Option<S3Ops>)
    ensures
        r == bucket_op(S3BucketSubResource::Replication, req.method, req.spec_has_id(), req.spec_list_v2()),
{
    match req.method {
        HttpMethod::Get => Some(S3Ops::GetBucketReplication),
        HttpMethod::Put => Some(S3Ops::PutBucketReplication),
        HttpMethod::Delete => Some(S3Ops::DeleteBucketReplication),
        _ => None,
    }
}

pub fn resolve_request_payment(req: &S3Request) -> (r: Option<S3Ops>)
    ensures
        r == bucket_op(S3BucketSubResource::RequestPayment, req.method, req.spec_has_id(), req.spec_list_v2()),
{
    match req.method {
        HttpMethod::Get => Some(S3Ops::GetBucketRequestPayment),
        HttpMethod::Put => Some(S3Ops::PutBucketRequestPayment),
        _ => None,
    }
}

pub fn resolve_tagging(req: &S3Request) -> (r: Option<S3Ops>)
    ensures
        r == bucket_op(S3BucketSubResource::Tagging, req.method, req.spec_has_id(), req.spec_list_v2()),
{
    match req.method {
        HttpMethod::Get => Some(S3Ops::GetBucketTagging),
        HttpMethod::Put => Some(S3Ops::PutBucketTagging),
        HttpMethod::Delete => Some(S3Ops::DeleteBucketTagging),
        _ => None,
    }
}

pub fn resolve_versioning(req: &S3Request) -> (r: Option<S3Ops>)
    ensures
        r == bucket_op(S3BucketSubResource::Versioning, req.method, req.spec_has_id(), req.spec_list_v2()),
{
    match req.method {
        HttpMethod::Get => Some(S3Ops::GetBucketVersioning),
        HttpMethod::Put => Some(S3Ops::PutBucketVersioning),
        _ => None,
    }
}

pub fn resolve_website(req: &S3Request) -> (r: Option<S3Ops>)
    ensures
        r == bucket_op(S3BucketSubResource::Website, req.method, req.spec_has_id(), req.spec_list_v2()),
{
    match req.method {
        HttpMethod::Get => Some(S3Ops::GetBucketWebsite),
        HttpMethod::Put => Some(S3Ops::PutBucketWebsite),
        HttpMethod::Delete => Some(S3Ops::DeleteBucketWebsite),
        _ => None,
    }
}

} // verus!
