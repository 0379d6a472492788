//! Parsing of `bucket/key` arguments.
use crate::text::{split_at_first, split_first};
use vstd::prelude::*;

verus! {

/// The part of `s` before its first `/`, and the part after it when there is one.
pub open spec fn split_first_slash(s: Seq<char>) -> (Seq<char>, Option<Seq<char>>) {
    split_at_first(s, '/')
}

/// Parses `bucket/key`; the key is what follows the first `/` and may itself
/// hold `/`. Fails with `Missing key` when there is no `/`.
pub fn parse_bucket_and_key(s: &str) -> (r: Result<(String, String), String>)
    ensures
        match r {
            Ok((b, k)) => split_first_slash(s@) == (b@, Some(k@)),
            Err(e) => split_first_slash(s@).1 is None && e@ == "Missing key"@,
        },
{
    let (bucket, key) = split_first(s, '/');
    match key {
        Some(k) => Ok((bucket, k)),
        None => Err("Missing key".to_owned()),
    }
}

/// Parses `bucket` or `bucket/prefix`; the prefix is empty when there is no
/// `/`. It never fails.
pub fn parse_bucket_and_prefix(s: &str) -> (r: Result<(String, String), String>)
    ensures
        r matches Ok((b, p)) && b@ == split_first_slash(s@).0 && p@ == match split_first_slash(s@).1 {
            Some(p) => p,
            None => Seq::empty(),
        },
{
    let (bucket, prefix) = split_first(s, '/');
    proof {
        reveal_strlit("");
    }
    match prefix {
        Some(p) => Ok((bucket, p)),
        None => Ok((bucket, "".to_owned())),
    }
}

} // verus!
