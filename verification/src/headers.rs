//! The boundary to the `http` crate's header container.
//!
//! The library's contracts speak of header state through a mathematical
//! model: a map from a header's canonical (lowercase) name, as a sequence of
//! characters, to the ordered sequence of its values, each a sequence of
//! bytes. A name is in the map's domain exactly when the container holds at
//! least one value for it.

use vstd::prelude::*;

verus! {

#[verifier::external_type_specification]
#[verifier::external_body]
pub struct ExHeaderName(http::header::HeaderName);

#[verifier::external_type_specification]
#[verifier::external_body]
pub struct ExHeaderValue(http::header::HeaderValue);

#[verifier::external_type_specification]
#[verifier::external_body]
#[verifier::reject_recursive_types(T)]
pub struct ExHeaderMap<T>(http::header::HeaderMap<T>);

/// The canonical (lowercase) text of a header name, as
/// `http::header::HeaderName::as_str` returns it: a function of the name
/// value alone.
pub uninterp spec fn name_chars(n: http::header::HeaderName) -> Seq<char>;

/// The bytes of a header value, as `http::header::HeaderValue::as_bytes`
/// returns them: a function of the value alone.
pub uninterp spec fn value_bytes(v: http::header::HeaderValue) -> Seq<u8>;

/// The contents of a header container: for each name holding at least one
/// value, the ordered sequence of those values, as
/// `http::header::HeaderMap::get_all` yields them.
pub uninterp spec fn map_entries(m: http::header::HeaderMap) -> Map<Seq<char>, Seq<Seq<u8>>>;

/// The bytes of an optional header value; absence is kept as absence.
pub open spec fn opt_value_bytes(v: Option<http::header::HeaderValue>) -> Option<Seq<u8>> {
    match v {
        Some(hv) => Some(value_bytes(hv)),
        None => None,
    }
}

/// The ordered values a model map holds under a name: empty when the name
/// is not in its domain.
pub open spec fn values_of(m: Map<Seq<char>, Seq<Seq<u8>>>, name: Seq<char>) -> Seq<Seq<u8>> {
    if m.dom().contains(name) {
        m[name]
    } else {
        Seq::empty()
    }
}

/// Whether the container accepts an insert under the name: the success of
/// `http::header::HeaderMap::try_insert`. http decides acceptance from
/// its capacity bookkeeping before touching the contents, a deterministic
/// function of the container's state and the key; a header name behaves
/// in the map as its canonical text alone, since every constructor
/// normalizes (a standard name's text always gets the standard
/// representation).
pub uninterp spec fn insert_accepts(m: http::header::HeaderMap, name: Seq<char>) -> bool;

/// Whether the container accepts an append under the name: the success of
/// `http::header::HeaderMap::try_append`, decided as for
/// [`insert_accepts`].
pub uninterp spec fn append_accepts(m: http::header::HeaderMap, name: Seq<char>) -> bool;

/// Relies on `Clone` for `http::header::HeaderName`: the clone carries the
/// same canonical text.
pub assume_specification[ <http::header::HeaderName as Clone>::clone ](
    n: &http::header::HeaderName,
) -> (r: http::header::HeaderName)
    ensures
        name_chars(r) == name_chars(*n),
;

/// Relies on `Clone` for `http::header::HeaderValue`: the clone carries the
/// same bytes.
pub assume_specification[ <http::header::HeaderValue as Clone>::clone ](
    v: &http::header::HeaderValue,
) -> (r: http::header::HeaderValue)
    ensures
        value_bytes(r) == value_bytes(*v),
;

/// Relies on `http::header::HeaderMap::contains_key`: true exactly when the
/// container holds at least one value for the name; lookup goes by the
/// case-insensitive name, which the canonical text captures.
#[verifier::external_body]
pub fn headers_contains(target: &http::header::HeaderMap, name: &http::header::HeaderName) -> (r:
    bool)
    ensures
        r == map_entries(*target).dom().contains(name_chars(*name)),
{
    target.contains_key(name)
}

/// Relies on `http::header::HeaderMap::try_insert`: it succeeds exactly
/// when the container accepts an insert under the name; on success all
/// previous values under the name are removed and the one given value is
/// associated with it, other names untouched; on failure (the container's
/// size ceiling) the contents are unchanged.
#[verifier::external_body]
pub fn headers_insert(
    target: &mut http::header::HeaderMap,
    name: &http::header::HeaderName,
    value: http::header::HeaderValue,
) -> (r: bool)
    ensures
        r == insert_accepts(*old(target), name_chars(*name)),
        r ==> map_entries(*final(target)) == map_entries(*old(target)).insert(
            name_chars(*name),
            seq![value_bytes(value)],
        ),
        !r ==> map_entries(*final(target)) == map_entries(*old(target)),
{
    target.try_insert(name, value).is_ok()
}

/// Relies on `http::header::HeaderMap::try_append`: it succeeds exactly
/// when the container accepts an append under the name; on success the
/// given value is pushed to the end of the values under the name (a fresh
/// name gets it as its only value), other names untouched; on failure
/// (the container's size ceiling) the contents are unchanged.
#[verifier::external_body]
pub fn headers_append(
    target: &mut http::header::HeaderMap,
    name: &http::header::HeaderName,
    value: http::header::HeaderValue,
) -> (r: bool)
    ensures
        r == append_accepts(*old(target), name_chars(*name)),
        r ==> map_entries(*final(target)) == map_entries(*old(target)).insert(
            name_chars(*name),
            values_of(map_entries(*old(target)), name_chars(*name)).push(value_bytes(value)),
        ),
        !r ==> map_entries(*final(target)) == map_entries(*old(target)),
{
    target.try_append(name, value).is_ok()
}

/// Clones an optional header value, keeping its bytes (or its absence).
pub fn clone_opt_value(v: &Option<http::header::HeaderValue>) -> (r: Option<
    http::header::HeaderValue,
>)
    ensures
        opt_value_bytes(r) == opt_value_bytes(*v),
{
    match v {
        Some(hv) => Some(hv.clone()),
        None => None,
    }
}

} // verus!
