//! Reading a header out of the header map of an HTTP request.

use vstd::prelude::*;

verus! {

#[verifier::external_type_specification]
#[verifier::external_body]
pub struct ExHeaderValue(axum::http::HeaderValue);

#[verifier::external_type_specification]
#[verifier::external_body]
#[verifier::reject_recursive_types(T)]
pub struct ExHeaderMap<T>(axum::http::HeaderMap<T>);

/// The headers of a request that can be read as text: for every spelling
/// under which a header can be asked for, the first value of that header,
/// where that value is made of visible ASCII characters and tabs only.
pub uninterp spec fn header_texts(headers: axum::http::HeaderMap) -> Map<Seq<char>, Seq<char>>;

/// Calls `HeaderMap::get` with the name as text and then
/// `HeaderValue::to_str` on what it found.
///
/// Trusted: `get` yields the first value stored under the name, matching
/// names without regard to case, and nothing for a name that is no valid
/// header name; `to_str` yields the value's text unless the value holds a
/// byte that is neither visible ASCII nor a tab. The result is a copy of
/// that text.
#[verifier::external_body]
pub(crate) fn header_text(headers: &axum::http::HeaderMap, name: &str) -> (found: Option<String>)
    ensures
        found is Some <==> header_texts(*headers).contains_key(name@),
        found matches Some(text) ==> text@ == header_texts(*headers)[name@],
{
    headers.get(name)?.to_str().ok().map(str::to_owned)
}

} // verus!
