//! Trusted boundary to the JSON parser. Each function here hands a raw
//! response body to `serde_json` and returns plain values; what each
//! returns is a function of the body alone, named by an uninterpreted
//! specification function, and everything downstream is verified against
//! that name.

use vstd::prelude::*;
use crate::text::{strings_view, opt_string_view};

verus! {

/// The raw text of the `data` field of `body`: present exactly when `body`
/// parses as a JSON value carrying that field.
pub uninterp spec fn data_part_of(body: Seq<char>) -> Option<Seq<char>>;

/// The parts of a page body: the rendered texts of the elements of its
/// `data` array, in order, and the string under `pagination.cursor` if the
/// body carries one; present exactly when `body` parses as a JSON value
/// whose `data` field is an array.
pub uninterp spec fn page_parts_of(body: Seq<char>) -> Option<(Seq<Seq<char>>, Option<Seq<char>>)>;

/// The string under the `access_token` field of a token-mint response
/// body, when `body` parses as a JSON value carrying one.
pub uninterp spec fn access_token_of(body: Seq<char>) -> Option<Seq<char>>;

/// The view of a split page.
pub open spec fn parts_view(r: Option<(Vec<String>, Option<String>)>) -> Option<
    (Seq<Seq<char>>, Option<Seq<char>>),
> {
    match r {
        Some(p) => Some((strings_view(p.0@), opt_string_view(p.1))),
        None => None,
    }
}

/// Relies on `serde_json::from_str`, `Value::get` and `Value`'s rendering
/// back to text: parses `body` and hands out the raw text of its `data`
/// field. The result depends on the characters of `body` alone.
#[verifier::external_body]
pub(crate) fn split_data(body: &str) -> (r: Option<String>)
    ensures
        opt_string_view(r) == data_part_of(body@),
{
    let v: serde_json::Value = serde_json::from_str(body).ok()?;
    Some(v.get("data")?.to_string())
}

/// Relies on `serde_json::from_str`, `Value::{get, as_array, as_str}` and
/// `Value`'s rendering back to text: parses `body`, renders each element
/// of its `data` array, and reads `pagination.cursor` where the body
/// carries one. The result depends on the characters of `body` alone.
#[verifier::external_body]
pub(crate) fn split_page(body: &str) -> (r: Option<(Vec<String>, Option<String>)>)
    ensures
        parts_view(r) == page_parts_of(body@),
{
    let v: serde_json::Value = serde_json::from_str(body).ok()?;
    let items = v.get("data")?.as_array()?.iter().map(|item| item.to_string()).collect();
    let cursor = v
        .get("pagination")
        .and_then(|p| p.get("cursor"))
        .and_then(|c| c.as_str())
        .map(|c| c.to_owned());
    Some((items, cursor))
}

/// Relies on `serde_json::from_str` and `Value::{get, as_str}`: parses
/// `body` and hands out the string under its `access_token` field. The
/// result depends on the characters of `body` alone.
#[verifier::external_body]
pub(crate) fn extract_access_token(body: &str) -> (r: Option<String>)
    ensures
        opt_string_view(r) == access_token_of(body@),
{
    let v: serde_json::Value = serde_json::from_str(body).ok()?;
    Some(v.get("access_token")?.as_str()?.to_owned())
}

} // verus!
