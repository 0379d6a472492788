//! Calls into the URL and UUID libraries used while parsing a request.
use vstd::prelude::*;

verus! {

/// The path of the URL that `target` resolves to against the absolute URL
/// `base`, or `None` when either does not parse.
pub uninterp spec fn target_path(base: Seq<char>, target: Seq<char>) -> Option<Seq<char>>;

/// The query of that URL, decoded as `application/x-www-form-urlencoded`
/// pairs in URL order.
pub uninterp spec fn target_pairs(base: Seq<char>, target: Seq<char>) -> Seq<(Seq<char>, Seq<char>)>;

/// Relies on url::Url::parse for `base`, url::Url::join for `target`
/// against it, and url::Url::path and url::Url::query_pairs of the result.
/// These depend on the two texts alone.
#[verifier::external_body]
pub(crate) fn parse_target(base: &str, target: &str) -> (r: Option<(String, Vec<(String, String)>)>)
    ensures
        r is Some <==> target_path(base@, target@) is Some,
        r matches Some((p, q)) ==> p@ == target_path(base@, target@)->Some_0 && q@.map_values(
            |x: (String, String)| (x.0@, x.1@),
        ) == target_pairs(base@, target@),
{
    let url = url::Url::parse(base).and_then(|b| b.join(target)).ok()?;
    let pairs = url.query_pairs().map(|(k, v)| (k.into_owned(), v.into_owned())).collect();
    Some((url.path().to_string(), pairs))
}

/// Relies on uuid::Uuid::new_v4 for a random request id, in hyphenated form.
#[verifier::external_body]
pub(crate) fn new_request_id() -> (r: String) {
    uuid::Uuid::new_v4().to_string()
}

} // verus!
