use s3d::cli::{parse_bucket_and_key, parse_tag, ListCmd, ListPlan, TagCmd, TagPlan};
use s3d::conf::{Conf, DEFAULT_PORT};
use s3d::daemon::{error_status, id_headers, Daemon, Route};
use s3d::naming::{camel, camel_cased, char_cases, snake, snake_cased, unprefix, CharCase, SmithyType};
use s3d::ops::{HttpMethod, S3Ops};
use s3d::request::{S3Error, S3Request};
use s3d::utils::parse_bucket_and_prefix;

#[test]
fn bucket_and_key_split_at_first_slash() {
    assert_eq!(parse_bucket_and_key("b/k/x"), Ok(("b".to_string(), "k/x".to_string())));
    assert_eq!(parse_bucket_and_key("b/"), Ok(("b".to_string(), "".to_string())));
    assert_eq!(parse_bucket_and_key("b"), Err("Missing key".to_string()));
    assert_eq!(parse_bucket_and_key(""), Err("Missing key".to_string()));
    assert_eq!(s3d::utils::parse_bucket_and_key("x/y"), Ok(("x".to_string(), "y".to_string())));
}

#[test]
fn bucket_and_prefix_default_to_empty() {
    assert_eq!(parse_bucket_and_prefix("b/p/q"), Ok(("b".to_string(), "p/q".to_string())));
    assert_eq!(parse_bucket_and_prefix("b"), Ok(("b".to_string(), "".to_string())));
    assert_eq!(parse_bucket_and_prefix(""), Ok(("".to_string(), "".to_string())));
}

#[test]
fn list_plan_lists_buckets_when_empty() {
    assert!(matches!(ListCmd { bucket_and_prefix: String::new() }.plan(), ListPlan::Buckets));
    match (ListCmd { bucket_and_prefix: "b/img/".to_string() }).plan() {
        ListPlan::Objects { bucket, prefix } => assert_eq!((bucket.as_str(), prefix.as_str()), ("b", "img/")),
        other => panic!("unexpected {:?}", other),
    }
}

#[test]
fn tag_plan_reads_or_writes() {
    let get_bucket = TagCmd { bucket_and_key: "b/".to_string(), tag: None, reset: false };
    assert!(matches!(get_bucket.plan(), Ok(TagPlan::GetBucketTagging { .. })));
    let get_object = TagCmd { bucket_and_key: "b/k".to_string(), tag: None, reset: false };
    assert!(matches!(get_object.plan(), Ok(TagPlan::GetObjectTagging { .. })));
    let put = TagCmd { bucket_and_key: "b/k".to_string(), tag: Some(vec!["a=1".to_string(), "flag".to_string()]), reset: true };
    match put.plan() {
        Ok(TagPlan::PutObjectTagging { bucket, key, tags }) => {
            assert_eq!((bucket.as_str(), key.as_str()), ("b", "k"));
            assert_eq!(tags.len(), 2);
            assert_eq!((tags[0].key.as_str(), tags[0].value.as_deref()), ("a", Some("1")));
            assert_eq!((tags[1].key.as_str(), tags[1].value.as_deref()), ("flag", None));
        }
        other => panic!("unexpected {:?}", other),
    }
    let put_bucket = TagCmd { bucket_and_key: "b/".to_string(), tag: Some(vec![]), reset: false };
    assert!(matches!(put_bucket.plan(), Ok(TagPlan::PutBucketTagging { .. })));
    let bad = TagCmd { bucket_and_key: "b".to_string(), tag: None, reset: false };
    assert_eq!(bad.plan().unwrap_err(), "Missing key");
}

#[test]
fn tag_value_may_hold_equals() {
    let t = parse_tag("k=v=w");
    assert_eq!((t.key.as_str(), t.value.as_deref()), ("k", Some("v=w")));
}

#[test]
fn camel_and_snake_case() {
    assert_eq!(camel("MIXOfUPPERCaseAndCamelCase"), "MixOfUpperCaseAndCamelCase");
    assert_eq!(camel("SSECustomerKey"), "SseCustomerKey");
    assert_eq!(camel("GetBucketACL"), "GetBucketAcl");
    assert_eq!(camel("Content-MD5"), "Content-Md5");
    assert_eq!(camel(""), "");
    assert_eq!(snake("CamelCase"), "camel_case");
    assert_eq!(snake("MIXOfUPPERCaseAndCamelCase"), "mix_of_upper_case_and_camel_case");
    assert_eq!(snake("ListObjectsV2"), "list_objects_v2");
    assert_eq!(snake("S3Ops"), "s3_ops");
    assert_eq!(snake("ETag"), "e_tag");
    assert_eq!(snake("Content-MD5"), "content_md5");
    assert_eq!(snake("already_snake"), "already_snake");
}

#[test]
fn unprefix_drops_namespace() {
    assert_eq!(unprefix("com.amazonaws.s3#GetObject"), "GetObject");
    assert_eq!(unprefix("a#b#c"), "b#c");
    assert_eq!(unprefix("Plain"), "Plain");
}

#[test]
fn always_required_shapes() {
    assert!(SmithyType::Blob.is_always_required());
    assert!(SmithyType::Long.is_always_required());
    assert!(!SmithyType::String.is_always_required());
    assert!(!SmithyType::Structure.is_always_required());
}

#[test]
fn default_conf() {
    let c = Conf::default();
    assert_eq!(c.local.port, DEFAULT_PORT);
    assert_eq!(c.local.port, 33333);
    assert_eq!(c.local.ttl, "1h");
    assert_eq!(c.remotes.len(), 1);
    assert_eq!(c.remotes[0].endpoint, "localhost:9000");
    assert!(c.remotes[0].profile.is_none());
}

fn classified(op: &str) -> S3Request {
    let method = if op == "put" { HttpMethod::Put } else { HttpMethod::Get };
    let path = if op == "list" { "/b" } else if op == "bad" { "/b/k?restore" } else { "/b/k" };
    S3Request::new(method, Some("localhost:33333"), path, vec![]).unwrap()
}

#[test]
fn dispatch_routes_object_reads_and_writes_locally() {
    let d = Daemon::new(Conf::default());
    assert_eq!(d.handle_request(&classified("get")), Route::LocalGet);
    assert_eq!(d.handle_request(&classified("put")), Route::LocalPut);
    assert_eq!(d.handle_request(&classified("list")), Route::Remote(S3Ops::ListObjects));
    assert_eq!(d.handle_request(&classified("bad")), Route::Reject);
}

#[test]
fn response_id_headers() {
    let d = Daemon::new(Conf::default());
    let req = classified("get");
    let h = d.set_headers_ids(&req);
    assert_eq!(h.len(), 2);
    assert_eq!(h[0], ("x-amz-request-id".to_string(), req.reqid.clone()));
    assert_eq!(h[1], ("x-amz-id-2".to_string(), "bG9jYWxob3N0OjMzMzMz".to_string()));
    let h = id_headers("r", "aG9zdA==");
    assert_eq!(h[1].1, "aG9zdA==");
}

#[test]
fn bad_request_error() {
    let e = S3Error::bad_request("No such operation");
    assert_eq!(e.code, "BadRequest");
    assert_eq!(e.message, "No such operation");
}

#[test]
fn header_map_strips_prefix() {
    let headers = vec![
        ("x-amz-meta-color".to_string(), "blue".to_string()),
        ("content-type".to_string(), "text/plain".to_string()),
        ("x-amz-meta-size".to_string(), "9".to_string()),
    ];
    let req = S3Request::from_parts(HttpMethod::Put, "/b/k".to_string(), vec![], headers, String::new(), String::new());
    let m = req.get_header_map("x-amz-meta-");
    assert_eq!(m, vec![("color".to_string(), "blue".to_string()), ("size".to_string(), "9".to_string())]);
    assert!(req.get_header_map("x-none-").is_empty());
}

#[test]
fn only_local_peers_are_served() {
    let d = Daemon::new(Conf::default());
    assert!(d.check_auth(true, "127.0.0.1:5000").is_ok());
    let e = d.check_auth(false, "10.0.0.7:5000").unwrap_err();
    assert_eq!(e.code, "Forbidden");
    assert_eq!(e.message, "Received request from non-local address 10.0.0.7:5000");
}

#[test]
fn malformed_host_is_a_bad_request() {
    let e = S3Request::new(HttpMethod::Get, Some("bad host"), "/b", vec![]).unwrap_err();
    assert_eq!(e.code, "BadRequest");
}

#[test]
fn error_codes_map_to_statuses() {
    let e = |c: &str| S3Error { code: c.to_string(), message: String::new() };
    assert_eq!(error_status(&e("BadRequest")), 400);
    assert_eq!(error_status(&e("Forbidden")), 403);
    assert_eq!(error_status(&e("NoSuchKey")), 404);
    assert_eq!(error_status(&e("NotImplemented")), 501);
    assert_eq!(error_status(&e("InternalError")), 500);
}

#[test]
fn rejected_requests_skip_the_access_check() {
    let d = Daemon::new(Conf::default());
    let e = d.authorize(&classified("bad"), false, "10.0.0.1:1").unwrap_err();
    assert_eq!((e.code.as_str(), e.message.as_str()), ("BadRequest", "No such operation"));
    let e = d.authorize(&classified("get"), false, "10.0.0.1:1").unwrap_err();
    assert_eq!(e.code, "Forbidden");
    assert_eq!(d.authorize(&classified("put"), true, "127.0.0.1:1").unwrap(), Route::LocalPut);
}

#[test]
fn id_headers_for_any_request() {
    let d = Daemon::new(Conf::default());
    let h = d.headers_ids("r1", "host");
    assert_eq!(h[0], ("x-amz-request-id".to_string(), "r1".to_string()));
    assert_eq!(h[1], ("x-amz-id-2".to_string(), "aG9zdA==".to_string()));
}

fn fact(capital: bool, alnum: bool, lower: char, lower_upper: char) -> CharCase {
    CharCase { capital, alnum, lower, lower_upper }
}

#[test]
fn case_conversions_follow_the_given_facts() {
    let cases = vec![fact(false, true, 'x', 'X'), fact(true, true, 'q', 'Q')];
    assert_eq!(snake_cased("xY", &cases), "x_q");
    let cases = vec![fact(true, true, 'a', 'A'), fact(true, true, 'b', 'R'), fact(false, true, 'c', 'C')];
    assert_eq!(camel_cased("ABc", &cases), "ARc");
    let cases = vec![fact(false, false, '-', '-')];
    assert_eq!(snake_cased("-", &cases), "_");
    assert_eq!(camel_cased("-", &cases), "-");
}

#[test]
fn char_cases_read_unicode_tables() {
    let c = char_cases("Aé1-");
    assert_eq!(c[0], fact(true, true, 'a', 'A'));
    assert_eq!(c[1], fact(false, true, 'é', 'É'));
    assert_eq!(c[2], fact(true, true, '1', '1'));
    assert_eq!(c[3], fact(false, false, '-', '-'));
}
