//! A parsed request: method, addressed resource, query parameters and headers.
use crate::ops::{HttpMethod, S3Ops};
use crate::resources::{
    classify, resolve_op_kind, S3BucketResource, S3BucketSubResource, S3ObjectResource,
    S3ObjectSubResource, S3Resource,
};
use crate::text::{
    eq_ignore_ascii_case, find_char, index_of_char, lemma_index_of_char_bounds, starts_with, str_eq,
    text_eq_ignore_case,
};
use crate::uri::{new_request_id, parse_target, target_pairs, target_path};
use vstd::prelude::*;

verus! {

/// The value that a list of query pairs gives to `name`: a later pair
/// overrides an earlier one of the same name.
pub open spec fn param_in(ps: Seq<(String, String)>, name: Seq<char>) -> Option<Seq<char>>
    decreases ps.len(),
{
    if ps.len() == 0 {
        None
    } else if ps.last().0@ == name {
        Some(ps.last().1@)
    } else {
        param_in(ps.drop_last(), name)
    }
}

/// Whether a header of that name, compared without regard to ASCII case, is present.
pub open spec fn header_in(hs: Seq<(String, String)>, name: Seq<char>) -> bool {
    exists|i: int| 0 <= i < hs.len() && text_eq_ignore_case(#[trigger] hs[i].0@, name)
}

/// The headers whose names begin with `prefix`, with the prefix taken off
/// their names, in the order of the headers.
pub open spec fn headers_with_prefix(hs: Seq<(String, String)>, prefix: Seq<char>) -> Seq<(Seq<char>, Seq<char>)>
    decreases hs.len(),
{
    if hs.len() == 0 {
        seq![]
    } else {
        let earlier = headers_with_prefix(hs.drop_last(), prefix);
        if prefix.is_prefix_of(hs.last().0@) {
            earlier.push((hs.last().0@.skip(prefix.len() as int), hs.last().1@))
        } else {
            earlier
        }
    }
}

pub open spec fn pair_view(p: (String, String)) -> (Seq<char>, Seq<char>) {
    (p.0@, p.1@)
}

/// The path with its leading `/` removed.
pub open spec fn strip_root(p: Seq<char>) -> Seq<char> {
    if p.len() > 0 && p[0] == '/' {
        p.drop_first()
    } else {
        p
    }
}

/// The first path segment: the bucket.
pub open spec fn path_bucket(p: Seq<char>) -> Seq<char> {
    let q = strip_root(p);
    q.take(index_of_char(q, '/'))
}

/// What follows the first `/` after the bucket: the key, empty when there is none.
pub open spec fn path_key(p: Seq<char>) -> Seq<char> {
    let q = strip_root(p);
    if index_of_char(q, '/') < q.len() {
        q.skip(index_of_char(q, '/') + 1)
    } else {
        Seq::empty()
    }
}

/// The bucket facet named by the first query pair whose name is a bucket
/// facet, in URL order; `Root` when no name is one.
pub open spec fn first_bucket_sub(ps: Seq<(String, String)>) -> S3BucketSubResource
    decreases ps.len(),
{
    if ps.len() == 0 {
        S3BucketSubResource::Root
    } else {
        let earlier = first_bucket_sub(ps.drop_last());
        if earlier != S3BucketSubResource::Root {
            earlier
        } else {
            S3BucketSubResource::spec_from_key(ps.last().0@)
        }
    }
}

/// The object facet named by the first query pair whose name is an object
/// facet, in URL order; `Root` when no name is one.
pub open spec fn first_object_sub(ps: Seq<(String, String)>) -> S3ObjectSubResource
    decreases ps.len(),
{
    if ps.len() == 0 {
        S3ObjectSubResource::Root
    } else {
        let earlier = first_object_sub(ps.drop_last());
        if earlier != S3ObjectSubResource::Root {
            earlier
        } else {
            S3ObjectSubResource::spec_from_key(ps.last().0@)
        }
    }
}

/// Whether `r` is the resource that a URL path and its query pairs address:
/// the service when bucket and key are both empty, a bucket when only the key
/// is empty, an object otherwise.
pub open spec fn addresses(r: S3Resource, path: Seq<char>, ps: Seq<(String, String)>) -> bool {
    let b = path_bucket(path);
    let k = path_key(path);
    if b.len() == 0 && k.len() == 0 {
        r is Service
    } else if k.len() == 0 {
        &&& r matches S3Resource::Bucket(x)
        &&& x.bucket@ == b
        &&& x.sub_resource == first_bucket_sub(ps)
    } else {
        &&& r matches S3Resource::Object(x)
        &&& x.bucket@ == b
        &&& x.key@ == k
        &&& x.sub_resource == first_object_sub(ps)
    }
}

/// A protocol error: a code such as `BadRequest` and a message.
#[derive(Debug)]
pub struct S3Error {
    pub code: String,
    pub message: String,
}

impl S3Error {
    pub fn bad_request(message: &str) -> (r: S3Error)
        ensures
            r.code@ == "BadRequest"@,
            r.message@ == message@,
    {
        S3Error { code: "BadRequest".to_owned(), message: message.to_owned() }
    }
}

/// A request after parsing: its method, path, query pairs in URL order,
/// headers, identifiers, the resource it addresses and its operation.
#[derive(Debug)]
pub struct S3Request {
    pub method: HttpMethod,
    pub path: String,
    pub params: Vec<(String, String)>,
    pub headers: Vec<(String, String)>,
    /// A unique id for each request.
    pub reqid: String,
    /// An opaque id of the host that handled the request.
    pub hostid: String,
    pub resource: S3Resource,
    pub op_kind: Option<S3Ops>,
}

impl S3Request {
    pub open spec fn spec_param(&self, name: Seq<char>) -> Option<Seq<char>> {
        param_in(self.params@, name)
    }

    pub open spec fn spec_has_id(&self) -> bool {
        self.spec_param("id"@) is Some
    }

    pub open spec fn spec_list_v2(&self) -> bool {
        self.spec_param("list-type"@) == Some("2"@)
    }

    pub open spec fn spec_has_copy_source(&self) -> bool {
        header_in(self.headers@, "x-amz-copy-source"@)
    }

    /// The operation that the classification rules give this request.
    pub open spec fn spec_op_kind(&self) -> Option<S3Ops> {
        classify(
            self.method,
            self.resource,
            self.spec_has_id(),
            self.spec_list_v2(),
            self.spec_has_copy_source(),
        )
    }

    /// Whether the resource and operation are those that the path, query and headers give.
    pub open spec fn well_formed(&self) -> bool {
        &&& addresses(self.resource, self.path@, self.params@)
        &&& self.op_kind == self.spec_op_kind()
    }

    pub fn has_param(&self, name: &str) -> (r: bool)
        ensures
            r == (self.spec_param(name@) is Some),
    {
        self.get_param_index(name).is_some()
    }

    /// The value of the parameter, the empty string when it is absent.
    pub fn get_param_str(&self, name: &str) -> (r: &str)
        ensures
            r@ == match self.spec_param(name@) {
                Some(v) => v,
                None => ""@,
            },
    {
        match self.get_param_index(name) {
            Some(i) => self.params[i].1.as_str(),
            None => "",
        }
    }

    /// The position of the pair that gives the parameter its value.
    fn get_param_index(&self, name: &str) -> (r: Option<usize>)
        ensures
            match r {
                Some(i) => i < self.params@.len() && self.spec_param(name@) == Some(
                    self.params@[i as int].1@,
                ),
                None => self.spec_param(name@) is None,
            },
    {
        let ps = &self.params;
        let mut i: usize = ps.len();
        assert(ps@.take(i as int) =~= ps@);
        while i > 0
            invariant
                ps@ == self.params@,
                i <= ps@.len(),
                param_in(ps@, name@) == param_in(ps@.take(i as int), name@),
            decreases i,
        {
            assert(ps@.take(i as int).drop_last() =~= ps@.take(i - 1));
            if str_eq(ps[i - 1].0.as_str(), name) {
                assert(ps@.take(i as int).last() == ps@[i - 1]);
                return Some(i - 1);
            }
            i = i - 1;
        }
        None
    }

    /// Whether a header of that name is present; names are compared without ASCII case.
    pub fn has_header(&self, name: &str) -> (r: bool)
        ensures
            r == header_in(self.headers@, name@),
    {
        let hs = &self.headers;
        let mut i: usize = 0;
        while i < hs.len()
            invariant
                hs@ == self.headers@,
                i <= hs@.len(),
                forall|j: int| 0 <= j < i ==> !text_eq_ignore_case(#[trigger] hs@[j].0@, name@),
            decreases hs@.len() - i,
        {
            if eq_ignore_ascii_case(hs[i].0.as_str(), name) {
                assert(text_eq_ignore_case(hs@[i as int].0@, name@));
                return true;
            }
            i = i + 1;
        }
        false
    }

    /// The headers whose names begin with `prefix` (such as user metadata),
    /// keyed by the rest of their names.
    pub fn get_header_map(&self, prefix: &str) -> (r: Vec<(String, String)>)
        ensures
            r@.map_values(|p: (String, String)| pair_view(p)) == headers_with_prefix(self.headers@, prefix@),
    {
        let hs = &self.headers;
        let m = prefix.unicode_len();
        let mut out: Vec<(String, String)> = Vec::new();
        let mut i: usize = 0;
        while i < hs.len()
            invariant
                hs@ == self.headers@,
                m == prefix@.len(),
                i <= hs@.len(),
                out@.map_values(|p: (String, String)| pair_view(p)) == headers_with_prefix(hs@.take(i as int), prefix@),
            decreases hs@.len() - i,
        {
            assert(hs@.take(i + 1).drop_last() =~= hs@.take(i as int));
            let name = hs[i].0.as_str();
            if starts_with(name, prefix) {
                let n = name.unicode_len();
                let ghost before = out@;
                out.push((name.substring_char(m, n).to_owned(), hs[i].1.clone()));
                assert(out@.map_values(|p: (String, String)| pair_view(p)) =~= before.map_values(
                    |p: (String, String)| pair_view(p),
                ).push(pair_view(out@.last())));
            }
            i = i + 1;
        }
        assert(hs@.take(hs@.len() as int) =~= hs@);
        out
    }

    pub fn get_bucket(&self) -> (r: &str)
        requires
            !(self.resource is Service),
        ensures
            r@ == self.resource.spec_bucket(),
    {
        self.resource.get_bucket()
    }

    pub fn get_key(&self) -> (r: &str)
        requires
            self.resource is Object,
        ensures
            r@ == self.resource.spec_key(),
    {
        self.resource.get_key()
    }

    /// Builds a request from a URL path, its decoded query pairs in URL order
    /// and the headers, and classifies it.
    pub fn from_parts(
        method: HttpMethod,
        path: String,
        params: Vec<(String, String)>,
        headers: Vec<(String, String)>,
        reqid: String,
        hostid: String,
    ) -> (r: S3Request)
        ensures
            r.well_formed(),
            r.method == method,
            r.path@ == path@,
            r.params@ == params@,
            r.headers@ == headers@,
            r.reqid@ == reqid@,
            r.hostid@ == hostid@,
    {
        let resource = parse_resource(path.as_str(), &params);
        let mut req = S3Request {
            method,
            path,
            params,
            headers,
            reqid,
            hostid,
            resource,
            op_kind: None,
        };
        req.op_kind = resolve_op_kind(&req);
        req
    }

    /// Parses a request from its method, `Host` header, request target and
    /// headers, against the base URL `http://<host>`. A missing `Host` header,
    /// or a host or target that the URL library rejects, is a bad request;
    /// otherwise the request holds the URL's path and decoded query pairs and
    /// is classified.
    pub fn new(
        method: HttpMethod,
        host: Option<&str>,
        target: &str,
        headers: Vec<(String, String)>,
    ) -> (r: Result<S3Request, S3Error>)
        ensures
            host is None ==> (r matches Err(e) && e.code@ == "BadRequest"@),
            host matches Some(h) ==> (r is Ok <==> target_path("http://"@ + h@, target@) is Some),
            r matches Ok(req) ==> {
                &&& host matches Some(h)
                &&& req.path@ == target_path("http://"@ + h@, target@)->Some_0
                &&& req.params@.map_values(|x: (String, String)| (x.0@, x.1@)) == target_pairs(
                    "http://"@ + h@,
                    target@,
                )
                &&& req.well_formed()
                &&& req.method == method
                &&& req.headers@ == headers@
                &&& req.hostid@ == h@
            },
            r matches Err(e) ==> e.code@ == "BadRequest"@,
    {
        let host = match host {
            Some(h) => h,
            None => {
                return Err(S3Error::bad_request("Missing Host header"));
            },
        };
        let mut base = "http://".to_owned();
        base.append(host);
        let (path, params) = match parse_target(base.as_str(), target) {
            Some(parts) => parts,
            None => {
                return Err(S3Error::bad_request("Invalid request URL"));
            },
        };
        let reqid = new_request_id();
        let req = S3Request::from_parts(method, path, params, headers, reqid, host.to_owned());
        Ok(req)
    }
}

/// A bucket parsed from a path holds no `/`, so it names a queue entry
/// that gives it back.
pub proof fn lemma_parsed_bucket_has_no_slash(r: S3Resource, path: Seq<char>, ps: Seq<(String, String)>)
    requires
        addresses(r, path, ps),
    ensures
        !r.spec_bucket().contains('/'),
{
    let q = strip_root(path);
    lemma_index_of_char_bounds(q, '/');
    let b = path_bucket(path);
    assert forall|j: int| 0 <= j < b.len() implies b[j] != '/' by {
        assert(b[j] == q[j]);
    }
}

/// Splits a URL path into bucket and key, and picks the facet named by the
/// first query pair that names one.
pub fn parse_resource(path: &str, params: &Vec<(String, String)>) -> (r: S3Resource)
    ensures
        addresses(r, path@, params@),
{
    let n = path.unicode_len();
    let rest = if n > 0 && path.get_char(0) == '/' {
        path.substring_char(1, n)
    } else {
        path
    };
    assert(rest@ == strip_root(path@));
    let m = rest.unicode_len();
    let i = find_char(rest, '/');
    proof {
        lemma_index_of_char_bounds(rest@, '/');
    }
    let bucket = rest.substring_char(0, i).to_owned();
    let key = if i < m {
        rest.substring_char(i + 1, m).to_owned()
    } else {
        "".to_owned()
    };
    proof {
        reveal_strlit("");
    }
    let ghost ps = params@;
    if bucket.unicode_len() == 0 && key.unicode_len() == 0 {
        S3Resource::Service
    } else if key.unicode_len() == 0 {
        let mut sub = S3BucketSubResource::Root;
        let mut j: usize = 0;
        while j < params.len()
            invariant
                ps == params@,
                j <= ps.len(),
                sub == first_bucket_sub(ps.take(j as int)),
            decreases ps.len() - j,
        {
            assert(ps.take(j + 1).drop_last() =~= ps.take(j as int));
            if sub == S3BucketSubResource::Root {
                sub = S3BucketSubResource::from_key(params[j].0.as_str());
            }
            j = j + 1;
        }
        assert(ps.take(ps.len() as int) =~= ps);
        S3Resource::Bucket(S3BucketResource { bucket, sub_resource: sub })
    } else {
        let mut sub = S3ObjectSubResource::Root;
        let mut j: usize = 0;
        while j < params.len()
            invariant
                ps == params@,
                j <= ps.len(),
                sub == first_object_sub(ps.take(j as int)),
            decreases ps.len() - j,
        {
            assert(ps.take(j + 1).drop_last() =~= ps.take(j as int));
            if sub == S3ObjectSubResource::Root {
                sub = S3ObjectSubResource::from_key(params[j].0.as_str());
            }
            j = j + 1;
        }
        assert(ps.take(ps.len() as int) =~= ps);
        S3Resource::Object(S3ObjectResource { bucket, key, sub_resource: sub })
    }
}

} // verus!
