//! Decoding the callback query and rendering the page for its outcome.
use vstd::prelude::*;
use crate::form::{Pairs, pairs_view, form_pairs, decode_form};
use crate::response::{BasicErrorResponse, CodeGrantResponse, opt_view};
use crate::ui::{
    Headings, html_page, error_subheader, LOGGED_IN_TITLE, CLOSE_WINDOW_TEXT, FAILED_TITLE,
    INVALID_RESPONSE_TEXT, INTERNAL_ERROR_TEXT,
};

verus! {

/// Text served at `/` while the listener waits.
pub const PENDING_TEXT: &'static str = "waiting for callback";
/// Text served at `/health`.
pub const HEALTH_OK_TEXT: &'static str = "ok";

/// Why the code grant did not complete.
pub enum Error {
    /// The identity server answered with a well-defined error.
    Oauth { response: BasicErrorResponse },
    /// A response was received but could not be understood.
    Invalid,
    /// The listener stopped without receiving a response.
    Timeout,
}

/// What a run of the listener ends with, as a mathematical value.
pub enum Outcome {
    Success { code: Seq<char>, state: Seq<char> },
    RemoteError { error: Seq<char>, description: Option<Seq<char>>, uri: Option<Seq<char>> },
    Malformed,
    NoResponse,
}

/// The outcome that a parse result stands for.
pub open spec fn outcome_of(r: Result<CodeGrantResponse, Error>) -> Outcome {
    match r {
        Ok(g) => Outcome::Success { code: g.code@, state: g.state@ },
        Err(Error::Oauth { response }) => Outcome::RemoteError {
            error: response.error@,
            description: opt_view(response.error_description),
            uri: opt_view(response.error_uri),
        },
        Err(Error::Invalid) => Outcome::Malformed,
        Err(Error::Timeout) => Outcome::NoResponse,
    }
}

/// How often `key` occurs among `pairs`.
pub open spec fn key_count(pairs: Pairs, key: Seq<char>) -> nat
    decreases pairs.len(),
{
    if pairs.len() == 0 {
        0
    } else {
        key_count(pairs.drop_last(), key) + if pairs.last().0 == key { 1nat } else { 0nat }
    }
}

/// The value at the last occurrence of `key` among `pairs` (empty if it is absent).
pub open spec fn key_value(pairs: Pairs, key: Seq<char>) -> Seq<char>
    decreases pairs.len(),
{
    if pairs.len() == 0 {
        Seq::empty()
    } else if pairs.last().0 == key {
        pairs.last().1
    } else {
        key_value(pairs.drop_last(), key)
    }
}

/// The value of `key` if it occurs at most once.
pub open spec fn optional_value(pairs: Pairs, key: Seq<char>) -> Option<Seq<char>> {
    if key_count(pairs, key) == 0 {
        None
    } else {
        Some(key_value(pairs, key))
    }
}

/// The pairs have the success shape: `code` and `state` once each, and no `error`.
pub open spec fn is_success_shape(pairs: Pairs) -> bool {
    key_count(pairs, "code"@) == 1 && key_count(pairs, "state"@) == 1 && key_count(pairs, "error"@)
        == 0
}

/// The pairs have the error shape: `error` once, `error_description` and
/// `error_uri` at most once each, and not both of `code` and `state`. The two
/// shapes thus exclude each other by the fields that they require.
pub open spec fn is_error_shape(pairs: Pairs) -> bool {
    key_count(pairs, "error"@) == 1 && key_count(pairs, "error_description"@) <= 1 && key_count(
        pairs,
        "error_uri"@,
    ) <= 1 && !(key_count(pairs, "code"@) >= 1 && key_count(pairs, "state"@) >= 1)
}

/// The outcome that decoded pairs stand for.
pub open spec fn classify(pairs: Pairs) -> Outcome {
    if is_success_shape(pairs) {
        Outcome::Success { code: key_value(pairs, "code"@), state: key_value(pairs, "state"@) }
    } else if is_error_shape(pairs) {
        Outcome::RemoteError {
            error: key_value(pairs, "error"@),
            description: optional_value(pairs, "error_description"@),
            uri: optional_value(pairs, "error_uri"@),
        }
    } else {
        Outcome::Malformed
    }
}

/// A query holding just `code` and `state` decodes to a code grant that
/// carries exactly those two values.
pub proof fn lemma_success_round_trip(code: Seq<char>, state: Seq<char>)
    ensures
        classify(seq![("code"@, code), ("state"@, state)]) == (Outcome::Success { code, state }),
{
    reveal_strlit("code");
    reveal_strlit("state");
    reveal_strlit("error");
    let pairs: Pairs = seq![("code"@, code), ("state"@, state)];
    let one: Pairs = seq![("code"@, code)];
    let none = Seq::<(Seq<char>, Seq<char>)>::empty();
    assert("code"@[0] != "state"@[0] && "code"@[0] != "error"@[0] && "state"@[0] != "error"@[0]);
    assert(pairs.drop_last() =~= one);
    assert(one.drop_last() =~= none);
    assert(pairs.last() == ("state"@, state));
    assert(one.last() == ("code"@, code));
    assert(none.len() == 0 && one.len() == 1 && pairs.len() == 2);
    assert(key_count(none, "code"@) == 0 && key_count(none, "state"@) == 0);
    assert(key_count(none, "error"@) == 0);
    assert(key_count(one, "code"@) == 1);
    assert(key_count(one, "state"@) == 0);
    assert(key_count(one, "error"@) == 0);
    assert(key_count(pairs, "code"@) == 1);
    assert(key_count(pairs, "state"@) == 1);
    assert(key_count(pairs, "error"@) == 0);
    assert(key_value(one, "code"@) == code);
    assert(key_value(pairs, "code"@) == code);
    assert(key_value(pairs, "state"@) == state);
}

/// Pairs of neither shape are malformed: they never give a code grant nor a
/// server error.
pub proof fn lemma_shapeless_is_malformed(pairs: Pairs)
    requires
        !is_success_shape(pairs),
        !is_error_shape(pairs),
    ensures
        classify(pairs) == Outcome::Malformed,
{
}

/// The outcome of a callback's raw query: `Malformed` when it is empty, else
/// what its decoded pairs stand for.
pub open spec fn query_outcome(query: Seq<char>) -> Outcome {
    if query.len() == 0 {
        Outcome::Malformed
    } else {
        classify(form_pairs(query))
    }
}

/// The headings shown for an outcome.
pub open spec fn headings_for(o: Outcome) -> (Seq<char>, Seq<char>) {
    match o {
        Outcome::Success { .. } => (LOGGED_IN_TITLE@, CLOSE_WINDOW_TEXT@),
        Outcome::RemoteError { error, description, uri } => (
            FAILED_TITLE@,
            error_subheader(error, description, uri),
        ),
        Outcome::Malformed => (FAILED_TITLE@, INVALID_RESPONSE_TEXT@),
        Outcome::NoResponse => (FAILED_TITLE@, INTERNAL_ERROR_TEXT@),
    }
}

/// The page shown for an outcome.
pub open spec fn page_for(o: Outcome) -> Seq<char> {
    html_page(headings_for(o).0, headings_for(o).1)
}

/// Counts the occurrences of `key` and returns the value at the last one.
fn lookup(pairs: &Vec<(String, String)>, key: &str) -> (r: (usize, Option<String>))
    ensures
        r.0 == key_count(pairs_view(pairs@), key@),
        r.0 == 0 <==> r.1 is None,
        r.1 matches Some(v) ==> v@ == key_value(pairs_view(pairs@), key@),
{
    let key = String::from_str(key);
    let ghost all = pairs_view(pairs@);
    let mut count: usize = 0;
    let mut value: Option<String> = None;
    let mut i: usize = 0;
    while i < pairs.len()
        invariant
            i <= pairs@.len(),
            all == pairs_view(pairs@),
            count == key_count(all.subrange(0, i as int), key@),
            count <= i,
            count == 0 <==> value is None,
            value matches Some(v) ==> v@ == key_value(all.subrange(0, i as int), key@),
        decreases pairs@.len() - i,
    {
        let ghost before = all.subrange(0, i as int);
        let ghost after = all.subrange(0, i as int + 1);
        assert(after.drop_last() =~= before);
        assert(after.last() == all[i as int]);
        if pairs[i].0 == key {
            count = count + 1;
            value = Some(pairs[i].1.clone());
        }
        i = i + 1;
    }
    assert(all.subrange(0, pairs@.len() as int) =~= all);
    (count, value)
}

/// Picks the shape of decoded pairs: a code grant when `code` and `state`
/// occur once each and `error` not at all; the server's error when `error`
/// occurs once, `error_description` and `error_uri` at most once each, and not
/// both of `code` and `state`; `Invalid` otherwise.
pub fn classify_pairs(pairs: &Vec<(String, String)>) -> (r: Result<CodeGrantResponse, Error>)
    ensures
        outcome_of(r) == classify(pairs_view(pairs@)),
{
    let (n_code, code) = lookup(pairs, "code");
    let (n_state, state) = lookup(pairs, "state");
    let (n_error, error) = lookup(pairs, "error");
    let (n_description, description) = lookup(pairs, "error_description");
    let (n_uri, uri) = lookup(pairs, "error_uri");
    if n_code == 1 && n_state == 1 && n_error == 0 {
        match (code, state) {
            (Some(code), Some(state)) => Ok(CodeGrantResponse { code, state }),
            _ => Err(Error::Invalid),
        }
    } else if n_error == 1 && n_description <= 1 && n_uri <= 1 && !(n_code >= 1 && n_state >= 1) {
        match error {
            Some(error) => Err(
                Error::Oauth {
                    response: BasicErrorResponse {
                        error,
                        error_description: description,
                        error_uri: uri,
                    },
                },
            ),
            None => Err(Error::Invalid),
        }
    } else {
        Err(Error::Invalid)
    }
}

/// Parses the raw query of a callback. An empty query is `Invalid`; otherwise
/// the decoded pairs decide as `classify_pairs` says.
pub fn parse_oauth2_response_query(query: &str) -> (r: Result<CodeGrantResponse, Error>)
    ensures
        query@.len() == 0 ==> r is Err && r->Err_0 is Invalid,
        outcome_of(r) == query_outcome(query@),
{
    if query.is_empty() {
        return Err(Error::Invalid);
    }
    match decode_form(query) {
        Some(pairs) => classify_pairs(&pairs),
        None => Err(Error::Invalid),
    }
}

/// The headings for a parse result.
pub fn result_headings(r: &Result<CodeGrantResponse, Error>) -> (h: Headings)
    ensures
        (h.title@, h.subheader@) == headings_for(outcome_of(*r)),
{
    match r {
        Ok(g) => g.to_headings(),
        Err(Error::Oauth { response }) => response.to_headings(),
        Err(Error::Invalid) => Headings::new(FAILED_TITLE, INVALID_RESPONSE_TEXT),
        Err(Error::Timeout) => Headings::new(FAILED_TITLE, INTERNAL_ERROR_TEXT),
    }
}

/// Parses the query of a callback and renders the page for its outcome.
pub fn handle_oauth2_response(query: &str) -> (r: (Result<CodeGrantResponse, Error>, String))
    ensures
        outcome_of(r.0) == query_outcome(query@),
        r.1@ == page_for(outcome_of(r.0)),
{
    let result = parse_oauth2_response_query(query);
    let html = result_headings(&result).html();
    (result, html)
}

} // verus!
