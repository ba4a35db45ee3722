//! The JSON texts that the backend stores beside its records, read and
//! written by `serde_json`.

use crate::entries::distinct_keys;
use vstd::prelude::*;

verus! {

/// The views of a list of texts, in the same order.
pub open spec fn texts_view(texts: Seq<String>) -> Seq<Seq<char>> {
    texts.map_values(|text: String| text@)
}

/// The views of a list of pairs of texts, in the same order.
pub open spec fn pairs_view(pairs: Seq<(String, String)>) -> Seq<(Seq<char>, Seq<char>)> {
    pairs.map_values(|pair: (String, String)| (pair.0@, pair.1@))
}

/// What `serde_json::from_str` reads from a text as a list of strings;
/// `None` where the text is no JSON array of strings.
pub uninterp spec fn json_string_list(text: Seq<char>) -> Option<Seq<Seq<char>>>;

/// What `serde_json::to_string` writes for a list of strings.
pub uninterp spec fn json_of_string_list(list: Seq<Seq<char>>) -> Option<Seq<char>>;

/// What `serde_json::from_str` reads from a text as a map from strings to
/// strings, as its entries in the order of their keys, each key once;
/// `None` where the text is no JSON object of strings.
pub uninterp spec fn json_string_map(text: Seq<char>) -> Option<Seq<(Seq<char>, Seq<char>)>>;

/// What `serde_json` writes for the JSON object that holds the entries of
/// a list, from strings to strings, one after the other in the order of the
/// list.
pub uninterp spec fn json_of_string_map(entries: Seq<(Seq<char>, Seq<char>)>) -> Option<Seq<char>>;

/// Calls `serde_json::from_str` for a `Vec<String>`; an error becomes
/// `None`.
#[verifier::external_body]
pub(crate) fn read_string_list(text: &str) -> (list: Option<Vec<String>>)
    ensures
        match list {
            Some(texts) => json_string_list(text@) == Some(texts_view(texts@)),
            None => json_string_list(text@) is None,
        },
{
    serde_json::from_str::<Vec<String>>(text).ok()
}

/// Calls `serde_json::to_string` on a `Vec<String>`; an error becomes
/// `None`.
#[verifier::external_body]
pub(crate) fn write_string_list(list: &Vec<String>) -> (text: Option<String>)
    ensures
        match text {
            Some(written) => json_of_string_list(texts_view(list@)) == Some(written@),
            None => json_of_string_list(texts_view(list@)) is None,
        },
{
    serde_json::to_string(list).ok()
}

/// Calls `serde_json::from_str` for a `BTreeMap<String, String>` and hands
/// its entries back in the map's order, which is that of the keys; an error
/// becomes `None`. A map holds each key once, so no key is handed back
/// twice.
#[verifier::external_body]
pub(crate) fn read_string_map(text: &str) -> (entries: Option<Vec<(String, String)>>)
    ensures
        match entries {
            Some(pairs) => json_string_map(text@) == Some(pairs_view(pairs@)) && distinct_keys(
                pairs_view(pairs@),
            ),
            None => json_string_map(text@) is None,
        },
{
    let map = serde_json::from_str::<std::collections::BTreeMap<String, String>>(text).ok()?;
    Some(map.into_iter().collect())
}

/// Has a `serde_json::Serializer` write the entries as one map, with
/// `serde::Serializer::collect_map`, which writes entry after entry in the
/// order given; an error becomes `None`.
#[verifier::external_body]
pub(crate) fn write_string_map(entries: &Vec<(String, String)>) -> (text: Option<String>)
    ensures
        match text {
            Some(written) => json_of_string_map(pairs_view(entries@)) == Some(written@),
            None => json_of_string_map(pairs_view(entries@)) is None,
        },
{
    let mut written: Vec<u8> = Vec::new();
    let mut writer = serde_json::Serializer::new(&mut written);
    serde::Serializer::collect_map(&mut writer, entries.iter().map(|(k, v)| (k, v))).ok()?;
    String::from_utf8(written).ok()
}

/// The value of the first entry under a key, where there is one.
pub open spec fn spec_lookup(entries: Seq<(Seq<char>, Seq<char>)>, key: Seq<char>) -> Option<
    Seq<char>,
>
    decreases entries.len(),
{
    if entries.len() == 0 {
        None
    } else if entries.first().0 == key {
        Some(entries.first().1)
    } else {
        spec_lookup(entries.drop_first(), key)
    }
}

/// The value of the first entry under `key`, where there is one.
pub fn lookup<'a>(entries: &'a Vec<(String, String)>, key: &str) -> (value: Option<&'a String>)
    ensures
        match value {
            Some(text) => spec_lookup(pairs_view(entries@), key@) == Some(text@),
            None => spec_lookup(pairs_view(entries@), key@) is None,
        },
{
    let ghost all = pairs_view(entries@);
    let mut i: usize = 0;
    assert(all.skip(0) =~= all);
    while i < entries.len()
        invariant
            i <= entries.len(),
            all == pairs_view(entries@),
            spec_lookup(all, key@) == spec_lookup(all.skip(i as int), key@),
        decreases entries.len() - i,
    {
        let ghost rest = all.skip(i as int);
        assert(rest.first() == all[i as int]);
        assert(rest.drop_first() =~= all.skip(i + 1));
        if crate::utils::str_eq(entries[i].0.as_str(), key) {
            return Some(&entries[i].1);
        }
        i = i + 1;
    }
    assert(all.skip(i as int).len() == 0);
    None
}

} // verus!
