//! The texts of the user interface in the language in use.
//!
//! A language pack is a JSON object. The text for a key is the string that
//! the object holds under the key; a key that the pack lacks, or whose value
//! is no string, stands for itself.

use vstd::prelude::*;

verus! {

/// A JSON value of `serde_json`.
#[verifier::external_type_specification]
#[verifier::external_body]
pub struct ExJsonValue(serde_json::Value);

/// A JSON object of `serde_json`.
#[verifier::external_type_specification]
#[verifier::external_body]
#[verifier::reject_recursive_types(K)]
#[verifier::reject_recursive_types(V)]
pub struct ExJsonMap<K, V>(serde_json::Map<K, V>);

/// What a JSON object holds: for each of its keys the text of the value,
/// where the value is a string, and `None` where it is something else.
pub uninterp spec fn object_texts(object: serde_json::Map<String, serde_json::Value>) -> Map<
    Seq<char>,
    Option<Seq<char>>,
>;

/// What a JSON value holds if it is an object, as `object_texts` says it;
/// `None` for every other value.
pub uninterp spec fn value_texts(value: serde_json::Value) -> Option<
    Map<Seq<char>, Option<Seq<char>>>,
>;

/// The texts of a pack without entries.
pub open spec fn no_texts() -> Map<Seq<char>, Option<Seq<char>>> {
    Map::empty()
}

/// An empty JSON object: `serde_json::Map::new`.
#[verifier::external_body]
fn empty_object() -> (object: serde_json::Map<String, serde_json::Value>)
    ensures
        object_texts(object) == no_texts(),
{
    serde_json::Map::new()
}

/// Looks `key` up in a JSON object with `serde_json::Map::get` and hands out
/// the text of the value found, as `serde_json::Value::as_str` gives it:
/// `None` where the object lacks the key, `Some(None)` where the value under
/// it is no string.
#[verifier::external_body]
fn object_text(object: &serde_json::Map<String, serde_json::Value>, key: &str) -> (found: Option<
    Option<String>,
>)
    ensures
        found is Some == object_texts(*object).contains_key(key@),
        found is Some ==> (found->0 is Some) == (object_texts(*object)[key@] is Some),
        found is Some && found->0 is Some ==> found->0->0@ == object_texts(*object)[key@]->0,
{
    object.get(key).map(|value| value.as_str().map(|text| text.to_owned()))
}

/// A copy of the object that a JSON value is, as
/// `serde_json::Value::as_object` gives it: `None` where the value is no
/// object.
#[verifier::external_body]
fn object_of(value: &serde_json::Value) -> (object: Option<
    serde_json::Map<String, serde_json::Value>,
>)
    ensures
        object is Some == value_texts(*value) is Some,
        object is Some ==> object_texts(object->0) == value_texts(*value)->0,
{
    value.as_object().cloned()
}

/// The text that `key` stands for in a pack that holds `texts`.
pub open spec fn localized(texts: Map<Seq<char>, Option<Seq<char>>>, key: Seq<char>) -> Seq<char> {
    if texts.contains_key(key) && texts[key] is Some {
        texts[key]->0
    } else {
        key
    }
}

/// The language pack in use.
pub struct LanguagePack {
    object: serde_json::Map<String, serde_json::Value>,
}

impl View for LanguagePack {
    type V = Map<Seq<char>, Option<Seq<char>>>;

    closed spec fn view(&self) -> Map<Seq<char>, Option<Seq<char>>> {
        object_texts(self.object)
    }
}

impl LanguagePack {
    /// An empty pack: every key stands for itself.
    pub fn new() -> (pack: LanguagePack)
        ensures
            pack@ == no_texts(),
    {
        LanguagePack { object: empty_object() }
    }
}

/// The text for `key` in the language in use.
pub fn get_localized_text(pack: &LanguagePack, key: &str) -> (text: String)
    ensures
        text@ == localized(pack@, key@),
{
    match object_text(&pack.object, key) {
        Some(Some(text)) => text,
        _ => key.to_owned(),
    }
}

/// The text of the refusal of a pack that is no JSON object.
pub open spec fn not_an_object() -> Seq<char> {
    "Provided localized data is not a JSON object."@
}

/// Replaces the language pack by `localized_data`, which has to be a JSON
/// object. Any other value is refused, and the pack stays as it is.
pub fn set_localized(pack: &mut LanguagePack, localized_data: &serde_json::Value) -> (r: Result<
    (),
    String,
>)
    ensures
        match value_texts(*localized_data) {
            Some(texts) => r is Ok && final(pack)@ == texts,
            None => r is Err && r->Err_0@ == not_an_object() && final(pack)@ == old(pack)@,
        },
{
    match object_of(localized_data) {
        Some(object) => {
            pack.object = object;
            Ok(())
        },
        None => Err("Provided localized data is not a JSON object.".to_owned()),
    }
}

} // verus!
