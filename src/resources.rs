//! The resource that a request addresses, and the classification of a request
//! into a protocol operation.
use crate::bucket;
use crate::object;
use crate::ops::{HttpMethod, S3Ops};
use crate::request::S3Request;
use crate::service;
use crate::text::str_eq;
use vstd::prelude::*;

verus! {

/// What the path of a request addresses.
#[derive(Debug)]
pub enum S3Resource {
    Service,
    Bucket(S3BucketResource),
    Object(S3ObjectResource),
}

#[derive(Debug)]
pub struct S3BucketResource {
    pub bucket: String,
    pub sub_resource: S3BucketSubResource,
}

#[derive(Debug)]
pub struct S3ObjectResource {
    pub bucket: String,
    pub key: String,
    pub sub_resource: S3ObjectSubResource,
}

/// A bucket facet selected by a reserved query parameter name.
#[derive(Debug, PartialEq, Eq, Clone, Copy, Structural)]
pub enum S3BucketSubResource {
    /// The bucket itself, no facet.
    Root,
    Accelerate,
    Acl,
    Analytics,
    Cors,
    Encryption,
    IntelligentTiering,
    Inventory,
    Lifecycle,
    Location,
    Logging,
    Metrics,
    Notification,
    ObjectLock,
    OwnershipControls,
    Policy,
    PolicyStatus,
    PublicAccessBlock,
    Replication,
    RequestPayment,
    Tagging,
    Versioning,
    Website,
}

/// An object facet selected by a reserved query parameter name.
#[derive(Debug, PartialEq, Eq, Clone, Copy, Structural)]
pub enum S3ObjectSubResource {
    /// The object itself, no facet.
    Root,
    Acl,
    LegalHold,
    Restore,
    Retention,
    SelectObjectContent,
    Tagging,
    Torrent,
    Uploads,
    UploadId,
    Versions,
}

impl S3BucketSubResource {
    /// The bucket facet that a query parameter name selects, `Root` for any other name.
    pub open spec fn spec_from_key(k: Seq<char>) -> S3BucketSubResource {
        if k == "accelerate"@ {
            S3BucketSubResource::Accelerate
        } else if k == "acl"@ {
            S3BucketSubResource::Acl
        } else if k == "analytics"@ {
            S3BucketSubResource::Analytics
        } else if k == "cors"@ {
            S3BucketSubResource::Cors
        } else if k == "encryption"@ {
            S3BucketSubResource::Encryption
        } else if k == "intelligent-tiering"@ {
            S3BucketSubResource::IntelligentTiering
        } else if k == "inventory"@ {
            S3BucketSubResource::Inventory
        } else if k == "lifecycle"@ {
            S3BucketSubResource::Lifecycle
        } else if k == "location"@ {
            S3BucketSubResource::Location
        } else if k == "logging"@ {
            S3BucketSubResource::Logging
        } else if k == "metrics"@ {
            S3BucketSubResource::Metrics
        } else if k == "notification"@ {
            S3BucketSubResource::Notification
        } else if k == "object-lock"@ {
            S3BucketSubResource::ObjectLock
        } else if k == "ownershipControls"@ {
            S3BucketSubResource::OwnershipControls
        } else if k == "policy"@ {
            S3BucketSubResource::Policy
        } else if k == "policyStatus"@ {
            S3BucketSubResource::PolicyStatus
        } else if k == "publicAccessBlock"@ {
            S3BucketSubResource::PublicAccessBlock
        } else if k == "replication"@ {
            S3BucketSubResource::Replication
        } else if k == "requestPayment"@ {
            S3BucketSubResource::RequestPayment
        } else if k == "tagging"@ {
            S3BucketSubResource::Tagging
        } else if k == "versioning"@ {
            S3BucketSubResource::Versioning
        } else if k == "website"@ {
            S3BucketSubResource::Website
        } else {
            S3BucketSubResource::Root
        }
    }

    pub fn from_key(k: &str) -> (r: S3BucketSubResource)
        ensures
            r == Self::spec_from_key(k@),
    {
        if str_eq(k, "accelerate") {
            S3BucketSubResource::Accelerate
        } else if str_eq(k, "acl") {
            S3BucketSubResource::Acl
        } else if str_eq(k, "analytics") {
            S3BucketSubResource::Analytics
        } else if str_eq(k, "cors") {
            S3BucketSubResource::Cors
        } else if str_eq(k, "encryption") {
            S3BucketSubResource::Encryption
        } else if str_eq(k, "intelligent-tiering") {
            S3BucketSubResource::IntelligentTiering
        } else if str_eq(k, "inventory") {
            S3BucketSubResource::Inventory
        } else if str_eq(k, "lifecycle") {
            S3BucketSubResource::Lifecycle
        } else if str_eq(k, "location") {
            S3BucketSubResource::Location
        } else if str_eq(k, "logging") {
            S3BucketSubResource::Logging
        } else if str_eq(k, "metrics") {
            S3BucketSubResource::Metrics
        } else if str_eq(k, "notification") {
            S3BucketSubResource::Notification
        } else if str_eq(k, "object-lock") {
            S3BucketSubResource::ObjectLock
        } else if str_eq(k, "ownershipControls") {
            S3BucketSubResource::OwnershipControls
        } else if str_eq(k, "policy") {
            S3BucketSubResource::Policy
        } else if str_eq(k, "policyStatus") {
            S3BucketSubResource::PolicyStatus
        } else if str_eq(k, "publicAccessBlock") {
            S3BucketSubResource::PublicAccessBlock
        } else if str_eq(k, "replication") {
            S3BucketSubResource::Replication
        } else if str_eq(k, "requestPayment") {
            S3BucketSubResource::RequestPayment
        } else if str_eq(k, "tagging") {
            S3BucketSubResource::Tagging
        } else if str_eq(k, "versioning") {
            S3BucketSubResource::Versioning
        } else if str_eq(k, "website") {
            S3BucketSubResource::Website
        } else {
            S3BucketSubResource::Root
        }
    }
}

impl S3ObjectSubResource {
    /// The object facet that a query parameter name selects, `Root` for any other name.
    pub open spec fn spec_from_key(k: Seq<char>) -> S3ObjectSubResource {
        if k == "acl"@ {
            S3ObjectSubResource::Acl
        } else if k == "legal-hold"@ {
            S3ObjectSubResource::LegalHold
        } else if k == "restore"@ {
            S3ObjectSubResource::Restore
        } else if k == "retention"@ {
            S3ObjectSubResource::Retention
        } else if k == "select"@ {
            S3ObjectSubResource::SelectObjectContent
        } else if k == "tagging"@ {
            S3ObjectSubResource::Tagging
        } else if k == "torrent"@ {
            S3ObjectSubResource::Torrent
        } else if k == "uploads"@ {
            S3ObjectSubResource::Uploads
        } else if k == "uploadId"@ {
            S3ObjectSubResource::UploadId
        } else if k == "versions"@ {
            S3ObjectSubResource::Versions
        } else {
            S3ObjectSubResource::Root
        }
    }

    pub fn from_key(k: &str) -> (r: S3ObjectSubResource)
        ensures
            r == Self::spec_from_key(k@),
    {
        if str_eq(k, "acl") {
            S3ObjectSubResource::Acl
        } else if str_eq(k, "legal-hold") {
            S3ObjectSubResource::LegalHold
        } else if str_eq(k, "restore") {
            S3ObjectSubResource::Restore
        } else if str_eq(k, "retention") {
            S3ObjectSubResource::Retention
        } else if str_eq(k, "select") {
            S3ObjectSubResource::SelectObjectContent
        } else if str_eq(k, "tagging") {
            S3ObjectSubResource::Tagging
        } else if str_eq(k, "torrent") {
            S3ObjectSubResource::Torrent
        } else if str_eq(k, "uploads") {
            S3ObjectSubResource::Uploads
        } else if str_eq(k, "uploadId") {
            S3ObjectSubResource::UploadId
        } else if str_eq(k, "versions") {
            S3ObjectSubResource::Versions
        } else {
            S3ObjectSubResource::Root
        }
    }
}

impl S3Resource {
    /// The bucket named by the path; only bucket and object resources have one.
    pub open spec fn spec_bucket(&self) -> Seq<char> {
        match self {
            S3Resource::Bucket(b) => b.bucket@,
            S3Resource::Object(o) => o.bucket@,
            S3Resource::Service => Seq::empty(),
        }
    }

    /// The object key named by the path; only object resources have one.
    pub open spec fn spec_key(&self) -> Seq<char> {
        match self {
            S3Resource::Object(o) => o.key@,
            _ => Seq::empty(),
        }
    }

    pub fn get_bucket(&self) -> (r: &str)
        requires
            !(self is Service),
        ensures
            r@ == self.spec_bucket(),
    {
        match self {
            S3Resource::Bucket(b) => b.bucket.as_str(),
            S3Resource::Object(o) => o.bucket.as_str(),
            S3Resource::Service => "",
        }
    }

    pub fn get_key(&self) -> (r: &str)
        requires
            self is Object,
        ensures
            r@ == self.spec_key(),
    {
        match self {
            S3Resource::Object(o) => o.key.as_str(),
            _ => "",
        }
    }
}

/// The operation of a request on the service root.
pub open spec fn service_op(m: HttpMethod) -> Option<S3Ops> {
    match m {
        HttpMethod::Get => Some(S3Ops::ListBuckets),
        _ => None,
    }
}

/// The operation of a request on a bucket. `has_id` tells whether the query
/// holds an `id` parameter, `list_v2` whether it holds `list-type=2`.
pub open spec fn bucket_op(
    sub: S3BucketSubResource,
    m: HttpMethod,
    has_id: bool,
    list_v2: bool,
) -> Option<S3Ops> {
    match sub {
        S3BucketSubResource::Root => match m {
            HttpMethod::Get => if list_v2 {
                Some(S3Ops::ListObjectsV2)
            } else {
                Some(S3Ops::ListObjects)
            },
            HttpMethod::Head => Some(S3Ops::HeadBucket),
            HttpMethod::Put => Some(S3Ops::CreateBucket),
            HttpMethod::Delete => Some(S3Ops::DeleteBucket),
            _ => None,
        },
        S3BucketSubResource::Accelerate => match m {
            HttpMethod::Get => Some(S3Ops::GetBucketAccelerateConfiguration),
            HttpMethod::Put => Some(S3Ops::PutBucketAccelerateConfiguration),
            _ => None,
        },
        S3BucketSubResource::Acl => match m {
            HttpMethod::Get => Some(S3Ops::GetBucketAcl),
            HttpMethod::Put => Some(S3Ops::PutBucketAcl),
            _ => None,
        },
        S3BucketSubResource::Analytics => match m {
            HttpMethod::Get => if has_id {
                Some(S3Ops::GetBucketAnalyticsConfiguration)
            } else {
                Some(S3Ops::ListBucketAnalyticsConfigurations)
            },
            HttpMethod::Put => Some(S3Ops::PutBucketAnalyticsConfiguration),
            HttpMethod::Delete => Some(S3Ops::DeleteBucketAnalyticsConfiguration),
            _ => None,
        },
        S3BucketSubResource::Cors => match m {
            HttpMethod::Get => Some(S3Ops::GetBucketCors),
            HttpMethod::Put => Some(S3Ops::PutBucketCors),
            HttpMethod::Delete => Some(S3Ops::DeleteBucketCors),
            _ => None,
        },
        S3BucketSubResource::Encryption => match m {
            HttpMethod::Get => Some(S3Ops::GetBucketEncryption),
            HttpMethod::Put => Some(S3Ops::PutBucketEncryption),
            HttpMethod::Delete => Some(S3Ops::DeleteBucketEncryption),
            _ => None,
        },
        S3BucketSubResource::IntelligentTiering => match m {
            HttpMethod::Get => if has_id {
                Some(S3Ops::GetBucketIntelligentTieringConfiguration)
            } else {
                Some(S3Ops::ListBucketIntelligentTieringConfigurations)
            },
            HttpMethod::Put => Some(S3Ops::PutBucketIntelligentTieringConfiguration),
            HttpMethod::Delete => Some(S3Ops::DeleteBucketIntelligentTieringConfiguration),
            _ => None,
        },
        S3BucketSubResource::Inventory => match m {
            HttpMethod::Get => if has_id {
                Some(S3Ops::GetBucketInventoryConfiguration)
            } else {
                Some(S3Ops::ListBucketInventoryConfigurations)
            },
            HttpMethod::Put => Some(S3Ops::PutBucketInventoryConfiguration),
            HttpMethod::Delete => Some(S3Ops::DeleteBucketInventoryConfiguration),
            _ => None,
        },
        S3BucketSubResource::Lifecycle => match m {
            HttpMethod::Get => Some(S3Ops::GetBucketLifecycleConfiguration),
            HttpMethod::Put => Some(S3Ops::PutBucketLifecycleConfiguration),
            HttpMethod::Delete => Some(S3Ops::DeleteBucketLifecycle),
            _ => None,
        },
        S3BucketSubResource::Location => match m {
            HttpMethod::Get => Some(S3Ops::GetBucketLocation),
            _ => None,
        },
        S3BucketSubResource::Logging => match m {
            HttpMethod::Get => Some(S3Ops::GetBucketLogging),
            HttpMethod::Put => Some(S3Ops::PutBucketLogging),
            _ => None,
        },
        S3BucketSubResource::Metrics => match m {
            HttpMethod::Get => if has_id {
                Some(S3Ops::GetBucketMetricsConfiguration)
            } else {
                Some(S3Ops::ListBucketMetricsConfigurations)
            },
            HttpMethod::Put => Some(S3Ops::PutBucketMetricsConfiguration),
            HttpMethod::Delete => Some(S3Ops::DeleteBucketMetricsConfiguration),
            _ => None,
        },
        S3BucketSubResource::Notification => match m {
            HttpMethod::Get => Some(S3Ops::GetBucketNotificationConfiguration),
            HttpMethod::Put => Some(S3Ops::PutBucketNotificationConfiguration),
            _ => None,
        },
        S3BucketSubResource::ObjectLock => match m {
            HttpMethod::Get => Some(S3Ops::GetObjectLockConfiguration),
            HttpMethod::Put => Some(S3Ops::PutObjectLockConfiguration),
            _ => None,
        },
        S3BucketSubResource::OwnershipControls => match m {
            HttpMethod::Get => Some(S3Ops::GetBucketOwnershipControls),
            HttpMethod::Put => Some(S3Ops::PutBucketOwnershipControls),
            HttpMethod::Delete => Some(S3Ops::DeleteBucketOwnershipControls),
            _ => None,
        },
        S3BucketSubResource::Policy => match m {
            HttpMethod::Get => Some(S3Ops::GetBucketPolicy),
            HttpMethod::Put => Some(S3Ops::PutBucketPolicy),
            HttpMethod::Delete => Some(S3Ops::DeleteBucketPolicy),
            _ => None,
        },
        S3BucketSubResource::PolicyStatus => match m {
            HttpMethod::Get => Some(S3Ops::GetBucketPolicyStatus),
            _ => None,
        },
        S3BucketSubResource::PublicAccessBlock => match m {
            HttpMethod::Get => Some(S3Ops::GetPublicAccessBlock),
            HttpMethod::Put => Some(S3Ops::PutPublicAccessBlock),
            HttpMethod::Delete => Some(S3Ops::DeletePublicAccessBlock),
            _ => None,
        },
        S3BucketSubResource::Replication => match m {
            HttpMethod::Get => Some(S3Ops::GetBucketReplication),
            HttpMethod::Put => Some(S3Ops::PutBucketReplication),
            HttpMethod::Delete => Some(S3Ops::DeleteBucketReplication),
            _ => None,
        },
        S3BucketSubResource::RequestPayment => match m {
            HttpMethod::Get => Some(S3Ops::GetBucketRequestPayment),
            HttpMethod::Put => Some(S3Ops::PutBucketRequestPayment),
            _ => None,
        },
        S3BucketSubResource::Tagging => match m {
            HttpMethod::Get => Some(S3Ops::GetBucketTagging),
            HttpMethod::Put => Some(S3Ops::PutBucketTagging),
            HttpMethod::Delete => Some(S3Ops::DeleteBucketTagging),
            _ => None,
        },
        S3BucketSubResource::Versioning => match m {
            HttpMethod::Get => Some(S3Ops::GetBucketVersioning),
            HttpMethod::Put => Some(S3Ops::PutBucketVersioning),
            _ => None,
        },
        S3BucketSubResource::Website => match m {
            HttpMethod::Get => Some(S3Ops::GetBucketWebsite),
            HttpMethod::Put => Some(S3Ops::PutBucketWebsite),
            HttpMethod::Delete => Some(S3Ops::DeleteBucketWebsite),
            _ => None,
        },
    }
}

/// The operation of a request on an object. `copy` tells whether the request
/// carries the copy-source header. `SelectObjectContent` is a streaming
/// protocol that the operation set leaves out, so its facet selects nothing.
pub open spec fn object_op(sub: S3ObjectSubResource, m: HttpMethod, copy: bool) -> Option<S3Ops> {
    match sub {
        S3ObjectSubResource::Root => match m {
            HttpMethod::Get => Some(S3Ops::GetObject),
            HttpMethod::Head => Some(S3Ops::HeadObject),
            HttpMethod::Put => if copy {
                Some(S3Ops::CopyObject)
            } else {
                Some(S3Ops::PutObject)
            },
            HttpMethod::Delete => Some(S3Ops::DeleteObject),
            _ => None,
        },
        S3ObjectSubResource::Acl => match m {
            HttpMethod::Get => Some(S3Ops::GetObjectAcl),
            HttpMethod::Put => Some(S3Ops::PutObjectAcl),
            _ => None,
        },
        S3ObjectSubResource::LegalHold => match m {
            HttpMethod::Get => Some(S3Ops::GetObjectLegalHold),
            HttpMethod::Put => Some(S3Ops::PutObjectLegalHold),
            _ => None,
        },
        S3ObjectSubResource::Restore => match m {
            HttpMethod::Post => Some(S3Ops::RestoreObject),
            _ => None,
        },
        S3ObjectSubResource::Retention => match m {
            HttpMethod::Get => Some(S3Ops::GetObjectRetention),
            HttpMethod::Put => Some(S3Ops::PutObjectRetention),
            _ => None,
        },
        S3ObjectSubResource::SelectObjectContent => None,
        S3ObjectSubResource::Tagging => match m {
            HttpMethod::Get => Some(S3Ops::GetObjectTagging),
            HttpMethod::Put => Some(S3Ops::PutObjectTagging),
            HttpMethod::Delete => Some(S3Ops::DeleteObjectTagging),
            _ => None,
        },
        S3ObjectSubResource::Torrent => match m {
            HttpMethod::Get => Some(S3Ops::GetObjectTorrent),
            _ => None,
        },
        S3ObjectSubResource::Uploads => match m {
            HttpMethod::Get => Some(S3Ops::ListMultipartUploads),
            HttpMethod::Post => Some(S3Ops::CreateMultipartUpload),
            _ => None,
        },
        S3ObjectSubResource::UploadId => match m {
            HttpMethod::Get => Some(S3Ops::ListParts),
            HttpMethod::Put => if copy {
                Some(S3Ops::UploadPartCopy)
            } else {
                Some(S3Ops::UploadPart)
            },
            HttpMethod::Post => Some(S3Ops::CompleteMultipartUpload),
            HttpMethod::Delete => Some(S3Ops::AbortMultipartUpload),
            _ => None,
        },
        S3ObjectSubResource::Versions => match m {
            HttpMethod::Get => Some(S3Ops::ListObjectVersions),
            _ => None,
        },
    }
}

/// The operation of a request, from its method, the resource it addresses and
/// the three predicates on its query and headers that the rules consult.
pub open spec fn classify(
    m: HttpMethod,
    res: S3Resource,
    has_id: bool,
    list_v2: bool,
    copy: bool,
) -> Option<S3Ops> {
    match res {
        S3Resource::Service => service_op(m),
        S3Resource::Bucket(b) => bucket_op(b.sub_resource, m, has_id, list_v2),
        S3Resource::Object(o) => object_op(o.sub_resource, m, copy),
    }
}

/// Classifies a request; `None` means that no operation matches it.
pub fn resolve_op_kind(req: &S3Request) -> (r: Option<S3Ops>)
    ensures
        r == req.spec_op_kind(),
{
    match &req.resource {
        S3Resource::Service => service::resolve(req),
        S3Resource::Bucket(b) => match b.sub_resource {
            S3BucketSubResource::Root => bucket::resolve(req),
            S3BucketSubResource::Accelerate => bucket::resolve_accelerate(req),
            S3BucketSubResource::Acl => bucket::resolve_acl(req),
            S3BucketSubResource::Analytics => bucket::resolve_analytics(req),
            S3BucketSubResource::Cors => bucket::resolve_cors(req),
            S3BucketSubResource::Encryption => bucket::resolve_encryption(req),
            S3BucketSubResource::IntelligentTiering => bucket::resolve_intelligent_tiering(req),
            S3BucketSubResource::Inventory => bucket::resolve_inventory(req),
            S3BucketSubResource::Lifecycle => bucket::resolve_lifecycle(req),
            S3BucketSubResource::Location => bucket::resolve_location(req),
            S3BucketSubResource::Logging => bucket::resolve_logging(req),
            S3BucketSubResource::Metrics => bucket::resolve_metrics(req),
            S3BucketSubResource::Notification => bucket::resolve_notification(req),
            S3BucketSubResource::ObjectLock => bucket::resolve_object_lock(req),
            S3BucketSubResource::OwnershipControls => bucket::resolve_ownership_controls(req),
            S3BucketSubResource::Policy => bucket::resolve_policy(req),
            S3BucketSubResource::PolicyStatus => bucket::resolve_policy_status(req),
            S3BucketSubResource::PublicAccessBlock => bucket::resolve_public_access_block(req),
            S3BucketSubResource::Replication => bucket::resolve_replication(req),
            S3BucketSubResource::RequestPayment => bucket::resolve_request_payment(req),
            S3BucketSubResource::Tagging => bucket::resolve_tagging(req),
            S3BucketSubResource::Versioning => bucket::resolve_versioning(req),
            S3BucketSubResource::Website => bucket::resolve_website(req),
        },
        S3Resource::Object(o) => match o.sub_resource {
            S3ObjectSubResource::Root => object::match_object(req),
            S3ObjectSubResource::Acl => object::resolve_acl(req),
            S3ObjectSubResource::LegalHold => object::resolve_legal_hold(req),
            S3ObjectSubResource::Restore => object::resolve_restore(req),
            S3ObjectSubResource::Retention => object::resolve_retention(req),
            S3ObjectSubResource::SelectObjectContent => object::resolve_select_object_content(req),
            S3ObjectSubResource::Tagging => object::resolve_tagging(req),
            S3ObjectSubResource::Torrent => object::resolve_torrent(req),
            S3ObjectSubResource::Uploads => object::resolve_uploads(req),
            S3ObjectSubResource::UploadId => object::resolve_upload_id(req),
            S3ObjectSubResource::Versions => object::resolve_versions(req),
        },
    }
}

/// A `PUT` on an object is a copy exactly when the copy-source header is
/// present and an upload otherwise, and a `PUT` on a multipart upload is a
/// part copy or a part upload by the same header alone: the query takes no part.
pub proof fn lemma_copy_source_selects(req: S3Request)
    requires
        req.well_formed(),
        req.method == HttpMethod::Put,
    ensures
        req.resource matches S3Resource::Object(o) && o.sub_resource == S3ObjectSubResource::Root
            ==> req.op_kind == if req.spec_has_copy_source() {
            Some(S3Ops::CopyObject)
        } else {
            Some(S3Ops::PutObject)
        },
        req.resource matches S3Resource::Object(o) && o.sub_resource == S3ObjectSubResource::UploadId
            ==> req.op_kind == if req.spec_has_copy_source() {
            Some(S3Ops::UploadPartCopy)
        } else {
            Some(S3Ops::UploadPart)
        },
{
}

/// A `GET` on a bucket root lists objects with version 2 exactly when the
/// query gives `list-type` the value `2`, and with version 1 otherwise,
/// whatever other parameters the query holds.
pub proof fn lemma_list_type_selects(req: S3Request)
    requires
        req.well_formed(),
        req.method == HttpMethod::Get,
        req.resource matches S3Resource::Bucket(b) && b.sub_resource == S3BucketSubResource::Root,
    ensures
        req.op_kind == if req.spec_param("list-type"@) == Some("2"@) {
            Some(S3Ops::ListObjectsV2)
        } else {
            Some(S3Ops::ListObjects)
        },
{
}

} // verus!
