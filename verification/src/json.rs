//! The crate's trusted boundary to `serde_json`, which parses the
//! gateway-info endpoint's response: the two opaque `serde_json` types the
//! signatures need, one wrapper that parses, and one wrapper per extracted
//! field, whose results are named so that callers' contracts can be exact.
//! Everything that interprets the extracted fields is verified code in
//! `topology`.

use vstd::prelude::*;

verus! {

/// Declares `serde_json::Value`, the parsed JSON tree, as an opaque outside
/// type, so that signatures here can carry it.
#[verifier::external_type_specification]
#[verifier::external_body]
pub struct ExJsonValue(serde_json::Value);

/// Declares `serde_json::Error`, the parser's error, as an opaque outside
/// type; verified code maps it to `TopologyError`.
#[verifier::external_type_specification]
#[verifier::external_body]
pub struct ExJsonError(serde_json::Error);

/// Whether a text is one well-formed JSON value, as `serde_json` accepts it.
pub uninterp spec fn is_json_value(s: Seq<char>) -> bool;

/// The `url` member of the text, when the text is well-formed JSON whose
/// `url` member is a string; a function of the text alone.
pub uninterp spec fn gateway_url_of(s: Seq<char>) -> Option<Seq<char>>;

/// The `shards` member of the text, when the text is well-formed JSON whose
/// `shards` member is an integer that fits in a `u64`; a function of the text
/// alone.
pub uninterp spec fn gateway_shards_of(s: Seq<char>) -> Option<u64>;

/// Relies on `serde_json::from_str::<Value>`: parsing succeeds exactly when
/// the input text is one well-formed JSON value, and the result depends on
/// the text alone.
#[verifier::external_body]
pub(crate) fn json_from_str(s: &str) -> (r: Result<serde_json::Value, serde_json::Error>)
    ensures
        r is Ok <==> is_json_value(s@),
{
    serde_json::from_str(s)
}

/// Relies on `serde_json::from_str::<Value>`, `Value::get` and
/// `Value::as_str`: the `url` string of the response, present exactly when
/// the text is well-formed JSON whose `url` member is a string, and a
/// function of the text alone.
#[verifier::external_body]
pub(crate) fn gateway_url_field(body: &str) -> (r: Option<String>)
    ensures
        r is Some <==> gateway_url_of(body@) is Some,
        r matches Some(u) ==> gateway_url_of(body@) == Some(u@),
        !is_json_value(body@) ==> r is None,
{
    serde_json::from_str::<serde_json::Value>(body).ok().and_then(
        |v| v.get("url").and_then(|u| u.as_str().map(|s| s.to_owned())),
    )
}

/// Relies on `serde_json::from_str::<Value>`, `Value::get` and
/// `Value::as_u64`: the `shards` count of the response, present exactly when
/// the text is well-formed JSON whose `shards` member is a `u64` integer, and
/// a function of the text alone.
#[verifier::external_body]
pub(crate) fn gateway_shards_field(body: &str) -> (r: Option<u64>)
    ensures
        r == gateway_shards_of(body@),
        !is_json_value(body@) ==> r is None,
{
    serde_json::from_str::<serde_json::Value>(body).ok().and_then(
        |v| v.get("shards").and_then(|s| s.as_u64()),
    )
}

} // verus!
