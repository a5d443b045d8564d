//! JSON text, read and written by `serde_json`.
//!
//! The library never looks inside a JSON document itself. It asks
//! `serde_json` to split a document into the texts of its parts, or to
//! quote a string, and works on those texts. The functions here make the
//! calls; their contracts are taken on trust.

use vstd::prelude::*;
use std::collections::BTreeMap;
use crate::text::{text_of, texts_of};

verus! {

/// The texts of the elements of the JSON array that `text` holds, as
/// `serde_json` reads them; `None` where `text` is not one JSON array.
pub uninterp spec fn json_array(text: Seq<char>) -> Option<Seq<Seq<char>>>;

/// The members of the JSON object that `text` holds, as `serde_json` reads
/// them, each a key with the text of its value, in the order of the keys;
/// `None` where `text` is not one JSON object.
pub uninterp spec fn json_object(text: Seq<char>) -> Option<Seq<(Seq<char>, Seq<char>)>>;

/// The string that the JSON string literal `text` stands for, as
/// `serde_json` reads it; `None` where `text` is not one JSON string.
pub uninterp spec fn json_string(text: Seq<char>) -> Option<Seq<char>>;

/// The JSON string literal that `serde_json` writes for `s`.
pub uninterp spec fn json_quoted(s: Seq<char>) -> Seq<char>;

/// The character sequences of a list of string pairs.
pub open spec fn pairs_of(v: Seq<(String, String)>) -> Seq<(Seq<char>, Seq<char>)> {
    Seq::new(v.len(), |i: int| (v[i].0@, v[i].1@))
}

/// Calls `serde_json::from_str` for a list of raw values and copies the
/// text of each. The result is what `serde_json` makes of `text` read as an
/// array: nothing more is claimed of it than that it depends on `text`
/// alone.
#[verifier::external_body]
pub(crate) fn read_array(text: &str) -> (r: Option<Vec<String>>)
    ensures
        match r {
            Some(items) => json_array(text@) == Some(texts_of(items@)),
            None => json_array(text@) is None,
        },
{
    let parsed: Result<Vec<Box<serde_json::value::RawValue>>, serde_json::Error> = serde_json::from_str(text);
    parsed.ok().map(|items| items.into_iter().map(|item| item.get().to_string()).collect())
}

/// Calls `serde_json::from_str` for a map from keys to raw values and
/// copies each key with the text of its value, in the map's order. The
/// result is what `serde_json` makes of `text` read as an object: nothing
/// more is claimed of it than that it depends on `text` alone.
#[verifier::external_body]
pub(crate) fn read_object(text: &str) -> (r: Option<Vec<(String, String)>>)
    ensures
        match r {
            Some(members) => json_object(text@) == Some(pairs_of(members@)),
            None => json_object(text@) is None,
        },
{
    let parsed: Result<BTreeMap<String, Box<serde_json::value::RawValue>>, serde_json::Error> = serde_json::from_str(text);
    parsed.ok().map(|members| members.into_iter().map(|(k, v)| (k, v.get().to_string())).collect())
}

/// Calls `serde_json::from_str` for a string. The result is what
/// `serde_json` makes of `text` read as a string literal: nothing more is
/// claimed of it than that it depends on `text` alone.
#[verifier::external_body]
pub(crate) fn read_string(text: &str) -> (r: Option<String>)
    ensures
        text_of(r) == json_string(text@),
{
    let parsed: Result<String, serde_json::Error> = serde_json::from_str(text);
    parsed.ok()
}

/// Calls `serde_json::to_string` on a string slice. It writes the literal
/// into a vector of bytes, which takes every write, and a string is no
/// value that it refuses: so it reports no error. Of the literal nothing
/// more is claimed than that it depends on `s` alone.
#[verifier::external_body]
pub(crate) fn quote(s: &str) -> (r: Option<String>)
    ensures
        r is Some,
        text_of(r) == Some(json_quoted(s@)),
{
    serde_json::to_string(s).ok()
}

} // verus!
