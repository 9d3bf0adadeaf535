//! A TOML document as the `toml` crate reads it: a tree of values, of which
//! the library looks up entries, texts, lists and tables.

use vstd::prelude::*;

verus! {

#[verifier::external_type_specification]
#[verifier::external_body]
pub struct ExTomlValue(toml::Value);

/// The document that a text stands for, where it is TOML.
pub uninterp spec fn toml_of(content: Seq<char>) -> Option<toml::Value>;

/// What stands under a key of a table; nothing for a value that is no table
/// or has no such key.
pub uninterp spec fn toml_get_of(value: toml::Value, key: Seq<char>) -> Option<toml::Value>;

/// The text of a value that is a text.
pub uninterp spec fn toml_str_of(value: toml::Value) -> Option<Seq<char>>;

/// The items of a value that is a list.
pub uninterp spec fn toml_array_of(value: toml::Value) -> Option<Seq<toml::Value>>;

/// The keys of a value that is a table, each with what stands under it, in
/// the order of the table.
pub uninterp spec fn toml_entries_of(value: toml::Value) -> Option<Seq<(Seq<char>, toml::Value)>>;

/// Calls `from_str` of `toml::Value`, which reads a document. The contract
/// only gives the outcome its name.
#[verifier::external_body]
pub(crate) fn toml_parse(content: &str) -> (r: Option<toml::Value>)
    ensures
        r == toml_of(content@),
{
    content.parse::<toml::Value>().ok()
}

/// Calls `Value::get` with a key. The contract only gives the outcome its
/// name.
#[verifier::external_body]
pub(crate) fn toml_get<'a>(value: &'a toml::Value, key: &str) -> (r: Option<&'a toml::Value>)
    ensures
        match r {
            Some(found) => toml_get_of(*value, key@) == Some(*found),
            None => toml_get_of(*value, key@).is_none(),
        },
{
    value.get(key)
}

/// Calls `Value::as_str`. The contract only gives the outcome its name.
#[verifier::external_body]
pub(crate) fn toml_as_str<'a>(value: &'a toml::Value) -> (r: Option<&'a str>)
    ensures
        match r {
            Some(text) => toml_str_of(*value) == Some(text@),
            None => toml_str_of(*value).is_none(),
        },
{
    value.as_str()
}

/// Calls `Value::as_array`. The contract only gives the outcome its name.
#[verifier::external_body]
pub(crate) fn toml_as_array<'a>(value: &'a toml::Value) -> (r: Option<&'a Vec<toml::Value>>)
    ensures
        match r {
            Some(items) => toml_array_of(*value) == Some(items@),
            None => toml_array_of(*value).is_none(),
        },
{
    value.as_array()
}

/// Whether a list of keys with values is the entries of a table.
pub open spec fn are_entries(
    found: Seq<(String, &toml::Value)>,
    entries: Seq<(Seq<char>, toml::Value)>,
) -> bool {
    &&& found.len() == entries.len()
    &&& forall|i: int|
        0 <= i < found.len() ==> (#[trigger] found[i]).0@ == entries[i].0 && *found[i].1
            == entries[i].1
}

/// Calls `Value::as_table` and hands out the entries that the table's `iter`
/// walks, each key copied. The contract only gives the outcome its name.
#[verifier::external_body]
pub(crate) fn toml_entries<'a>(value: &'a toml::Value) -> (r: Option<Vec<(String, &'a toml::Value)>>)
    ensures
        match r {
            Some(found) => toml_entries_of(*value) matches Some(entries) && are_entries(
                found@,
                entries,
            ),
            None => toml_entries_of(*value).is_none(),
        },
{
    value.as_table().map(|table| table.iter().map(|(key, item)| (key.clone(), item)).collect())
}

/// The text under a key of a table, where a text stands there.
pub open spec fn text_at(value: toml::Value, key: Seq<char>) -> Option<Seq<char>> {
    match toml_get_of(value, key) {
        Some(found) => toml_str_of(found),
        None => None,
    }
}

/// Whether something stands under a key of a table.
pub open spec fn has_key(value: toml::Value, key: Seq<char>) -> bool {
    toml_get_of(value, key).is_some()
}

/// Whether one of the items of a list is the text `text`.
pub open spec fn holds_text(items: Seq<toml::Value>, text: Seq<char>) -> bool {
    exists|i: int| 0 <= i < items.len() && toml_str_of(#[trigger] items[i]) == Some(text)
}

/// The text under a key of a table, where a text stands there.
pub fn text_under<'a>(value: &'a toml::Value, key: &str) -> (r: Option<&'a str>)
    ensures
        match r {
            Some(text) => text_at(*value, key@) == Some(text@),
            None => text_at(*value, key@).is_none(),
        },
{
    match toml_get(value, key) {
        Some(found) => toml_as_str(found),
        None => None,
    }
}

/// Whether the text under a key of a table is `text`.
pub fn text_under_is(value: &toml::Value, key: &str, text: &str) -> (r: bool)
    ensures
        r == (text_at(*value, key@) == Some(text@)),
{
    match text_under(value, key) {
        Some(found) => crate::gas::same_text(found, text),
        None => false,
    }
}

/// Whether something stands under a key of a table.
pub fn contains_key(value: &toml::Value, key: &str) -> (r: bool)
    ensures
        r == has_key(*value, key@),
{
    toml_get(value, key).is_some()
}

/// Whether one of the items of a list is the text `text`.
pub fn contains_text(items: &Vec<toml::Value>, text: &str) -> (r: bool)
    ensures
        r == holds_text(items@, text@),
{
    let mut i: usize = 0;
    while i < items.len()
        invariant
            i <= items@.len(),
            forall|j: int| 0 <= j < i ==> toml_str_of(#[trigger] items@[j]) != Some(text@),
        decreases items@.len() - i,
    {
        match toml_as_str(&items[i]) {
            Some(found) => {
                if crate::gas::same_text(found, text) {
                    return true;
                }
            },
            None => {},
        }
        i += 1;
    }
    false
}

} // verus!
