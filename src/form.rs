//! The `application/x-www-form-urlencoded` decoding of a query string.
use vstd::prelude::*;

verus! {

/// Decoded key/value pairs, in the order they came.
pub type Pairs = Seq<(Seq<char>, Seq<char>)>;

/// The view of decoded pairs.
pub open spec fn pairs_view(v: Seq<(String, String)>) -> Pairs {
    v.map_values(|p: (String, String)| (p.0@, p.1@))
}

/// The pairs that the form encoding `s` decodes to.
pub uninterp spec fn form_pairs(s: Seq<char>) -> Pairs;

/// Relies on `serde_urlencoded::from_str` into a `Vec<(String, String)>`: the
/// `application/x-www-form-urlencoded` pairs of the input, percent-decoded, in order.
/// Into string pairs this never fails: invalid UTF-8 is decoded lossily.
#[verifier::external_body]
pub(crate) fn decode_form(query: &str) -> (r: Option<Vec<(String, String)>>)
    ensures
        r is Some,
        r matches Some(v) ==> pairs_view(v@) == form_pairs(query@),
{
    serde_urlencoded::from_str::<Vec<(String, String)>>(query).ok()
}

} // verus!
