use s3d::ops::{HttpMethod, S3Ops};
use s3d::request::S3Request;
use s3d::resources::{S3BucketSubResource, S3ObjectSubResource, S3Resource};

fn request(method: HttpMethod, path: &str, query: &[(&str, &str)], copy: bool) -> S3Request {
    let params: Vec<(String, String)> = query.iter().map(|(k, v)| (k.to_string(), v.to_string())).collect();
    let mut headers = vec![("host".to_string(), "localhost:33333".to_string())];
    if copy {
        headers.push(("x-amz-copy-source".to_string(), "src/key".to_string()));
    }
    S3Request::from_parts(method, path.to_string(), params, headers, "req-1".to_string(), "localhost:33333".to_string())
}

#[test]
fn classifies_every_documented_operation() {
    let table: Vec<(HttpMethod, &str, &[(&str, &str)], bool, Option<S3Ops>)> = vec![
        (HttpMethod::Get, "/", &[], false, Some(S3Ops::ListBuckets)),
        (HttpMethod::Put, "/", &[], false, None),
        (HttpMethod::Get, "/b", &[], false, Some(S3Ops::ListObjects)),
        (HttpMethod::Get, "/b", &[("list-type", "2")], false, Some(S3Ops::ListObjectsV2)),
        (HttpMethod::Get, "/b", &[("list-type", "1")], false, Some(S3Ops::ListObjects)),
        (HttpMethod::Head, "/b", &[], false, Some(S3Ops::HeadBucket)),
        (HttpMethod::Put, "/b", &[], false, Some(S3Ops::CreateBucket)),
        (HttpMethod::Delete, "/b", &[], false, Some(S3Ops::DeleteBucket)),
        (HttpMethod::Post, "/b", &[], false, None),
        (HttpMethod::Get, "/b", &[("accelerate", "")], false, Some(S3Ops::GetBucketAccelerateConfiguration)),
        (HttpMethod::Put, "/b", &[("accelerate", "")], false, Some(S3Ops::PutBucketAccelerateConfiguration)),
        (HttpMethod::Get, "/b", &[("acl", "")], false, Some(S3Ops::GetBucketAcl)),
        (HttpMethod::Put, "/b", &[("acl", "")], false, Some(S3Ops::PutBucketAcl)),
        (HttpMethod::Get, "/b", &[("analytics", ""), ("id", "x")], false, Some(S3Ops::GetBucketAnalyticsConfiguration)),
        (HttpMethod::Get, "/b", &[("analytics", "")], false, Some(S3Ops::ListBucketAnalyticsConfigurations)),
        (HttpMethod::Put, "/b", &[("analytics", ""), ("id", "x")], false, Some(S3Ops::PutBucketAnalyticsConfiguration)),
        (HttpMethod::Delete, "/b", &[("analytics", ""), ("id", "x")], false, Some(S3Ops::DeleteBucketAnalyticsConfiguration)),
        (HttpMethod::Get, "/b", &[("cors", "")], false, Some(S3Ops::GetBucketCors)),
        (HttpMethod::Put, "/b", &[("cors", "")], false, Some(S3Ops::PutBucketCors)),
        (HttpMethod::Delete, "/b", &[("cors", "")], false, Some(S3Ops::DeleteBucketCors)),
        (HttpMethod::Get, "/b", &[("encryption", "")], false, Some(S3Ops::GetBucketEncryption)),
        (HttpMethod::Put, "/b", &[("encryption", "")], false, Some(S3Ops::PutBucketEncryption)),
        (HttpMethod::Delete, "/b", &[("encryption", "")], false, Some(S3Ops::DeleteBucketEncryption)),
        (HttpMethod::Get, "/b", &[("intelligent-tiering", ""), ("id", "x")], false, Some(S3Ops::GetBucketIntelligentTieringConfiguration)),
        (HttpMethod::Get, "/b", &[("intelligent-tiering", "")], false, Some(S3Ops::ListBucketIntelligentTieringConfigurations)),
        (HttpMethod::Put, "/b", &[("intelligent-tiering", "")], false, Some(S3Ops::PutBucketIntelligentTieringConfiguration)),
        (HttpMethod::Delete, "/b", &[("intelligent-tiering", "")], false, Some(S3Ops::DeleteBucketIntelligentTieringConfiguration)),
        (HttpMethod::Get, "/b", &[("inventory", ""), ("id", "x")], false, Some(S3Ops::GetBucketInventoryConfiguration)),
        (HttpMethod::Get, "/b", &[("inventory", "")], false, Some(S3Ops::ListBucketInventoryConfigurations)),
        (HttpMethod::Put, "/b", &[("inventory", "")], false, Some(S3Ops::PutBucketInventoryConfiguration)),
        (HttpMethod::Delete, "/b", &[("inventory", "")], false, Some(S3Ops::DeleteBucketInventoryConfiguration)),
        (HttpMethod::Get, "/b", &[("lifecycle", "")], false, Some(S3Ops::GetBucketLifecycleConfiguration)),
        (HttpMethod::Put, "/b", &[("lifecycle", "")], false, Some(S3Ops::PutBucketLifecycleConfiguration)),
        (HttpMethod::Delete, "/b", &[("lifecycle", "")], false, Some(S3Ops::DeleteBucketLifecycle)),
        (HttpMethod::Get, "/b", &[("location", "")], false, Some(S3Ops::GetBucketLocation)),
        (HttpMethod::Put, "/b", &[("location", "")], false, None),
        (HttpMethod::Get, "/b", &[("logging", "")], false, Some(S3Ops::GetBucketLogging)),
        (HttpMethod::Put, "/b", &[("logging", "")], false, Some(S3Ops::PutBucketLogging)),
        (HttpMethod::Get, "/b", &[("metrics", ""), ("id", "x")], false, Some(S3Ops::GetBucketMetricsConfiguration)),
        (HttpMethod::Get, "/b", &[("metrics", "")], false, Some(S3Ops::ListBucketMetricsConfigurations)),
        (HttpMethod::Put, "/b", &[("metrics", "")], false, Some(S3Ops::PutBucketMetricsConfiguration)),
        (HttpMethod::Delete, "/b", &[("metrics", "")], false, Some(S3Ops::DeleteBucketMetricsConfiguration)),
        (HttpMethod::Get, "/b", &[("notification", "")], false, Some(S3Ops::GetBucketNotificationConfiguration)),
        (HttpMethod::Put, "/b", &[("notification", "")], false, Some(S3Ops::PutBucketNotificationConfiguration)),
        (HttpMethod::Get, "/b", &[("object-lock", "")], false, Some(S3Ops::GetObjectLockConfiguration)),
        (HttpMethod::Put, "/b", &[("object-lock", "")], false, Some(S3Ops::PutObjectLockConfiguration)),
        (HttpMethod::Get, "/b", &[("ownershipControls", "")], false, Some(S3Ops::GetBucketOwnershipControls)),
        (HttpMethod::Put, "/b", &[("ownershipControls", "")], false, Some(S3Ops::PutBucketOwnershipControls)),
        (HttpMethod::Delete, "/b", &[("ownershipControls", "")], false, Some(S3Ops::DeleteBucketOwnershipControls)),
        (HttpMethod::Get, "/b", &[("policy", "")], false, Some(S3Ops::GetBucketPolicy)),
        (HttpMethod::Put, "/b", &[("policy", "")], false, Some(S3Ops::PutBucketPolicy)),
        (HttpMethod::Delete, "/b", &[("policy", "")], false, Some(S3Ops::DeleteBucketPolicy)),
        (HttpMethod::Get, "/b", &[("policyStatus", "")], false, Some(S3Ops::GetBucketPolicyStatus)),
        (HttpMethod::Get, "/b", &[("publicAccessBlock", "")], false, Some(S3Ops::GetPublicAccessBlock)),
        (HttpMethod::Put, "/b", &[("publicAccessBlock", "")], false, Some(S3Ops::PutPublicAccessBlock)),
        (HttpMethod::Delete, "/b", &[("publicAccessBlock", "")], false, Some(S3Ops::DeletePublicAccessBlock)),
        (HttpMethod::Get, "/b", &[("replication", "")], false, Some(S3Ops::GetBucketReplication)),
        (HttpMethod::Put, "/b", &[("replication", "")], false, Some(S3Ops::PutBucketReplication)),
        (HttpMethod::Delete, "/b", &[("replication", "")], false, Some(S3Ops::DeleteBucketReplication)),
        (HttpMethod::Get, "/b", &[("requestPayment", "")], false, Some(S3Ops::GetBucketRequestPayment)),
        (HttpMethod::Put, "/b", &[("requestPayment", "")], false, Some(S3Ops::PutBucketRequestPayment)),
        (HttpMethod::Get, "/b", &[("tagging", "")], false, Some(S3Ops::GetBucketTagging)),
        (HttpMethod::Put, "/b", &[("tagging", "")], false, Some(S3Ops::PutBucketTagging)),
        (HttpMethod::Delete, "/b", &[("tagging", "")], false, Some(S3Ops::DeleteBucketTagging)),
        (HttpMethod::Get, "/b", &[("versioning", "")], false, Some(S3Ops::GetBucketVersioning)),
        (HttpMethod::Put, "/b", &[("versioning", "")], false, Some(S3Ops::PutBucketVersioning)),
        (HttpMethod::Get, "/b", &[("website", "")], false, Some(S3Ops::GetBucketWebsite)),
        (HttpMethod::Put, "/b", &[("website", "")], false, Some(S3Ops::PutBucketWebsite)),
        (HttpMethod::Delete, "/b", &[("website", "")], false, Some(S3Ops::DeleteBucketWebsite)),
        (HttpMethod::Get, "/b/k", &[], false, Some(S3Ops::GetObject)),
        (HttpMethod::Head, "/b/k", &[], false, Some(S3Ops::HeadObject)),
        (HttpMethod::Put, "/b/k", &[], false, Some(S3Ops::PutObject)),
        (HttpMethod::Put, "/b/k", &[], true, Some(S3Ops::CopyObject)),
        (HttpMethod::Delete, "/b/k", &[], false, Some(S3Ops::DeleteObject)),
        (HttpMethod::Post, "/b/k", &[], false, None),
        (HttpMethod::Get, "/b/k", &[("acl", "")], false, Some(S3Ops::GetObjectAcl)),
        (HttpMethod::Put, "/b/k", &[("acl", "")], false, Some(S3Ops::PutObjectAcl)),
        (HttpMethod::Get, "/b/k", &[("legal-hold", "")], false, Some(S3Ops::GetObjectLegalHold)),
        (HttpMethod::Put, "/b/k", &[("legal-hold", "")], false, Some(S3Ops::PutObjectLegalHold)),
        (HttpMethod::Post, "/b/k", &[("restore", "")], false, Some(S3Ops::RestoreObject)),
        (HttpMethod::Get, "/b/k", &[("restore", "")], false, None),
        (HttpMethod::Get, "/b/k", &[("retention", "")], false, Some(S3Ops::GetObjectRetention)),
        (HttpMethod::Put, "/b/k", &[("retention", "")], false, Some(S3Ops::PutObjectRetention)),
        (HttpMethod::Post, "/b/k", &[("select", ""), ("select-type", "2")], false, None),
        (HttpMethod::Get, "/b/k", &[("tagging", "")], false, Some(S3Ops::GetObjectTagging)),
        (HttpMethod::Put, "/b/k", &[("tagging", "")], false, Some(S3Ops::PutObjectTagging)),
        (HttpMethod::Delete, "/b/k", &[("tagging", "")], false, Some(S3Ops::DeleteObjectTagging)),
        (HttpMethod::Get, "/b/k", &[("torrent", "")], false, Some(S3Ops::GetObjectTorrent)),
        (HttpMethod::Get, "/b/k", &[("uploads", "")], false, Some(S3Ops::ListMultipartUploads)),
        (HttpMethod::Post, "/b/k", &[("uploads", "")], false, Some(S3Ops::CreateMultipartUpload)),
        (HttpMethod::Get, "/b/k", &[("uploadId", "u1")], false, Some(S3Ops::ListParts)),
        (HttpMethod::Put, "/b/k", &[("partNumber", "1"), ("uploadId", "u1")], false, Some(S3Ops::UploadPart)),
        (HttpMethod::Put, "/b/k", &[("partNumber", "1"), ("uploadId", "u1")], true, Some(S3Ops::UploadPartCopy)),
        (HttpMethod::Post, "/b/k", &[("uploadId", "u1")], false, Some(S3Ops::CompleteMultipartUpload)),
        (HttpMethod::Delete, "/b/k", &[("uploadId", "u1")], false, Some(S3Ops::AbortMultipartUpload)),
        (HttpMethod::Get, "/b/k", &[("versions", "")], false, Some(S3Ops::ListObjectVersions)),
        (HttpMethod::Options, "/b/k", &[], false, None),
        (HttpMethod::Other, "/b", &[], false, None),
    ];
    for (method, path, query, copy, expected) in table {
        let req = request(method, path, query, copy);
        assert_eq!(req.op_kind, expected, "{:?} {} {:?} copy={}", method, path, query, copy);
    }
}

#[test]
fn copy_source_header_selects_copy() {
    assert_eq!(request(HttpMethod::Put, "/b/k", &[], false).op_kind, Some(S3Ops::PutObject));
    assert_eq!(request(HttpMethod::Put, "/b/k", &[], true).op_kind, Some(S3Ops::CopyObject));
    assert_eq!(request(HttpMethod::Put, "/b/k", &[("uploadId", "u"), ("partNumber", "2")], false).op_kind, Some(S3Ops::UploadPart));
    assert_eq!(request(HttpMethod::Put, "/b/k", &[("uploadId", "u"), ("partNumber", "2")], true).op_kind, Some(S3Ops::UploadPartCopy));
}

#[test]
fn copy_source_header_name_ignores_case() {
    let headers = vec![("X-Amz-Copy-Source".to_string(), "src/key".to_string())];
    let req = S3Request::from_parts(HttpMethod::Put, "/b/k".to_string(), vec![], headers, String::new(), String::new());
    assert!(req.has_header("x-amz-copy-source"));
    assert_eq!(req.op_kind, Some(S3Ops::CopyObject));
}

#[test]
fn list_type_two_selects_v2_whatever_else() {
    let with = [("prefix", "a/"), ("list-type", "2"), ("delimiter", "/"), ("max-keys", "10")];
    assert_eq!(request(HttpMethod::Get, "/b", &with, false).op_kind, Some(S3Ops::ListObjectsV2));
    let without = [("prefix", "a/"), ("delimiter", "/"), ("max-keys", "10")];
    assert_eq!(request(HttpMethod::Get, "/b", &without, false).op_kind, Some(S3Ops::ListObjects));
    let later_wins = [("list-type", "2"), ("list-type", "1")];
    assert_eq!(request(HttpMethod::Get, "/b", &later_wins, false).op_kind, Some(S3Ops::ListObjects));
}

#[test]
fn list_v2_scenario_keeps_prefix_parameter() {
    let req = S3Request::new(HttpMethod::Get, Some("localhost:33333"), "/mybucket?list-type=2&prefix=images/", vec![]).unwrap();
    assert_eq!(req.op_kind, Some(S3Ops::ListObjectsV2));
    assert_eq!(req.get_param_str("prefix"), "images/");
    assert!(req.has_param("list-type"));
    assert!(!req.has_param("delimiter"));
    assert_eq!(req.get_param_str("delimiter"), "");
    assert_eq!(req.get_bucket(), "mybucket");
    assert_eq!(req.hostid, "localhost:33333");
    assert!(!req.reqid.is_empty());
}

#[test]
fn first_sub_resource_in_url_order_wins() {
    let req = request(HttpMethod::Get, "/b", &[("tagging", ""), ("acl", "")], false);
    match &req.resource {
        S3Resource::Bucket(b) => assert_eq!(b.sub_resource, S3BucketSubResource::Tagging),
        other => panic!("unexpected {:?}", other),
    }
    assert_eq!(req.op_kind, Some(S3Ops::GetBucketTagging));
    let req = request(HttpMethod::Get, "/b/k", &[("acl", ""), ("tagging", "")], false);
    match &req.resource {
        S3Resource::Object(o) => assert_eq!(o.sub_resource, S3ObjectSubResource::Acl),
        other => panic!("unexpected {:?}", other),
    }
    assert_eq!(req.op_kind, Some(S3Ops::GetObjectAcl));
}

#[test]
fn path_splits_into_bucket_and_key() {
    let req = request(HttpMethod::Get, "/mybucket/dir/sub/file.txt", &[], false);
    assert_eq!(req.get_bucket(), "mybucket");
    assert_eq!(req.get_key(), "dir/sub/file.txt");
    let req = request(HttpMethod::Get, "/mybucket/", &[], false);
    assert!(matches!(req.resource, S3Resource::Bucket(_)));
    let req = request(HttpMethod::Get, "/", &[("acl", "")], false);
    assert!(matches!(req.resource, S3Resource::Service));
    assert_eq!(req.op_kind, Some(S3Ops::ListBuckets));
}

#[test]
fn unknown_query_names_leave_no_sub_resource() {
    let req = request(HttpMethod::Get, "/b/k", &[("versionId", "3"), ("response-content-type", "x")], false);
    match &req.resource {
        S3Resource::Object(o) => assert_eq!(o.sub_resource, S3ObjectSubResource::Root),
        other => panic!("unexpected {:?}", other),
    }
    assert_eq!(req.op_kind, Some(S3Ops::GetObject));
}

#[test]
fn sub_resource_names_parse() {
    assert_eq!(S3BucketSubResource::from_key("intelligent-tiering"), S3BucketSubResource::IntelligentTiering);
    assert_eq!(S3BucketSubResource::from_key("publicAccessBlock"), S3BucketSubResource::PublicAccessBlock);
    assert_eq!(S3BucketSubResource::from_key("Acl"), S3BucketSubResource::Root);
    assert_eq!(S3ObjectSubResource::from_key("legal-hold"), S3ObjectSubResource::LegalHold);
    assert_eq!(S3ObjectSubResource::from_key("select"), S3ObjectSubResource::SelectObjectContent);
    assert_eq!(S3ObjectSubResource::from_key("prefix"), S3ObjectSubResource::Root);
}

#[test]
fn missing_host_is_a_bad_request() {
    let err = S3Request::new(HttpMethod::Get, None, "/b/k", vec![]).unwrap_err();
    assert_eq!(err.code, "BadRequest");
}

#[test]
fn new_decodes_query_and_path() {
    let req = S3Request::new(HttpMethod::Put, Some("127.0.0.1:33333"), "/b/k?uploadId=abc%2Bd&partNumber=3", vec![("x-amz-copy-source".to_string(), "/src/k".to_string())]).unwrap();
    assert_eq!(req.op_kind, Some(S3Ops::UploadPartCopy));
    assert_eq!(req.get_param_str("uploadId"), "abc+d");
    assert_eq!(req.get_key(), "k");
    assert_eq!(req.path, "/b/k");
}

#[test]
fn list_v2_scenario_through_url_parsing() {
    let req = S3Request::new(HttpMethod::Get, Some("localhost"), "/mybucket?list-type=2&prefix=images/", vec![]).unwrap();
    assert_eq!(req.op_kind, Some(S3Ops::ListObjectsV2));
    assert_eq!(req.path, "/mybucket");
    assert_eq!(req.params, vec![("list-type".to_string(), "2".to_string()), ("prefix".to_string(), "images/".to_string())]);
    assert_eq!(req.get_param_str("prefix"), "images/");
}

#[test]
fn unparsable_target_is_a_bad_request() {
    let e = S3Request::new(HttpMethod::Get, Some("localhost"), "http://[::1", vec![]).unwrap_err();
    assert_eq!(e.code, "BadRequest");
}
