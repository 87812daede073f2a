//! Instants: the timestamps of generic records, read and displayed by
//! `bson`. An instant is kept as milliseconds since the Unix epoch.

use crate::json::{json_content, JsonModel};
use vstd::prelude::*;

verus! {

/// The instant that `serde_json::from_value::<bson::DateTime>` reads from a
/// value with the given content, in milliseconds since the Unix epoch; `None`
/// where it returns an error.
pub uninterp spec fn instant_of(m: JsonModel) -> Option<i64>;

/// The text that `bson::DateTime` displays for an instant given in
/// milliseconds since the Unix epoch.
pub uninterp spec fn instant_text(millis: i64) -> Seq<char>;

/// `serde_json::from_value` for a `bson::DateTime`, read off by
/// `bson::DateTime::timestamp_millis`. The result depends on the value's
/// content alone and is named [`instant_of`]; nothing is claimed of the forms
/// that `bson` accepts.
#[verifier::external_body]
pub(crate) fn value_instant(v: &serde_json::Value) -> (r: Option<i64>)
    ensures
        r == instant_of(json_content(*v)),
{
    match serde_json::from_value::<bson::DateTime>(v.clone()) {
        Ok(instant) => Some(instant.timestamp_millis()),
        Err(_) => None,
    }
}

/// `bson::DateTime::from_millis` and the `Display` of the result. The text
/// depends on the instant alone and is named [`instant_text`]; nothing is
/// claimed of its form.
#[verifier::external_body]
pub(crate) fn format_instant(millis: i64) -> (r: String)
    ensures
        r@ == instant_text(millis),
{
    bson::DateTime::from_millis(millis).to_string()
}

} // verus!
