use vstd::prelude::*;
use gloo_history::query::ToQuery;
use gloo_history::HistoryError;

verus! {

#[verifier::external_type_specification]
#[verifier::external_body]
pub struct ExHistoryError(HistoryError);

/// The `application/x-www-form-urlencoded` text of a sequence of key/value
/// pairs, as serde_urlencoded writes it.
pub uninterp spec fn url_query_of(pairs: Seq<(Seq<char>, Seq<char>)>) -> Seq<char>;

/// The characters of each key and value.
pub open spec fn pair_views(pairs: Seq<(String, String)>) -> Seq<(Seq<char>, Seq<char>)> {
    pairs.map_values(|p: (String, String)| (p.0@, p.1@))
}

/// Relies on gloo_history's `ToQuery` for serializable values, which hands the
/// pairs to `serde_urlencoded::to_string`, which succeeds on a sequence of
/// string pairs; the text depends on the pairs alone.
#[verifier::external_body]
pub(crate) fn encode_query(pairs: &Vec<(String, String)>) -> (r: Result<String, HistoryError>)
    ensures
        r is Ok,
        r->Ok_0@ == url_query_of(pair_views(pairs@)),
{
    pairs.to_query().map(|q| q.into_owned())
}

} // verus!
