//! The local settings store: a flat JSON object mapping string keys to
//! string values, kept as one text file. The functions here take the file's
//! current content and return what to write back or what was read; the file
//! I/O itself lives outside the library.

use vstd::prelude::*;

use crate::errors::SettingsError;
use crate::json::{empty_fields, obj_get_string, obj_insert_string, obj_new, obj_parse,
    obj_to_string, parsed_fields};

verus! {

/// The view of an optional borrowed text.
pub open spec fn opt_view(c: Option<&str>) -> Option<Seq<char>> {
    match c {
        Some(s) => Some(s@),
        None => None,
    }
}

/// The string fields held by a settings file with the given content: absent
/// content and content that is not a JSON object both count as no settings,
/// mirroring how a save treats them.
pub open spec fn stored_fields(content: Option<Seq<char>>) -> Map<Seq<char>, Option<Seq<char>>> {
    match content {
        Some(s) => match parsed_fields(s) {
            Some(f) => f,
            None => empty_fields(),
        },
        None => empty_fields(),
    }
}

/// The fields a settings file holds after `key` is set to `value` over the
/// given prior content.
pub open spec fn saved_fields(
    content: Option<Seq<char>>,
    key: Seq<char>,
    value: Seq<char>,
) -> Map<Seq<char>, Option<Seq<char>>> {
    stored_fields(content).insert(key, Some(value))
}

/// What loading `key` from a settings file with the given content yields:
/// the stored string, `NotFound` when the key is absent or its value is not
/// a string, `Malformed` when the content is not a JSON object.
pub open spec fn setting_lookup(content: Seq<char>, key: Seq<char>) -> Result<
    Seq<char>,
    SettingsError,
> {
    match parsed_fields(content) {
        Some(f) => if f.dom().contains(key) {
            match f[key] {
                Some(v) => Ok(v),
                None => Err(SettingsError::NotFound),
            }
        } else {
            Err(SettingsError::NotFound)
        },
        None => Err(SettingsError::Malformed),
    }
}

/// Sets `key` to `value` in the settings held by `content` (the file's
/// current text, or `None` when no file exists yet) and returns the text to
/// write back: the whole map, re-encoded. Content that does not parse as a
/// JSON object is treated as empty rather than rejected.
pub fn save_setting(content: Option<&str>, key: &str, value: &str) -> (r: String)
    ensures
        parsed_fields(r@) == Some(saved_fields(opt_view(content), key@, value@)),
{
    let mut map = match content {
        Some(text) => match obj_parse(text) {
            Some(m) => m,
            None => obj_new(),
        },
        None => obj_new(),
    };
    obj_insert_string(&mut map, key, value);
    obj_to_string(&map)
}

/// Loads the value stored under `key` in the settings held by `content`.
pub fn load_setting(content: &str, key: &str) -> (r: Result<String, SettingsError>)
    ensures
        match r {
            Ok(s) => setting_lookup(content@, key@) == Ok::<Seq<char>, SettingsError>(s@),
            Err(e) => setting_lookup(content@, key@) == Err::<Seq<char>, SettingsError>(e),
        },
{
    match obj_parse(content) {
        Some(m) => match obj_get_string(&m, key) {
            Some(s) => Ok(s),
            None => Err(SettingsError::NotFound),
        },
        None => Err(SettingsError::Malformed),
    }
}

/// Saving a key and then loading that key from the written content yields
/// exactly the saved value, whatever the prior content was.
pub proof fn lemma_setting_round_trip(
    prior: Option<Seq<char>>,
    key: Seq<char>,
    value: Seq<char>,
    written: Seq<char>,
)
    requires
        parsed_fields(written) == Some(saved_fields(prior, key, value)),
    ensures
        setting_lookup(written, key) == Ok::<Seq<char>, SettingsError>(value),
{
}

/// Saving a second, different key does not erase the first: after a save of
/// `k1` wrote `w1` and a save of `k2` over `w1` wrote `w2`, loading `k1`
/// from `w2` still yields the first value.
pub proof fn lemma_second_save_keeps_first(
    prior: Option<Seq<char>>,
    k1: Seq<char>,
    v1: Seq<char>,
    w1: Seq<char>,
    k2: Seq<char>,
    v2: Seq<char>,
    w2: Seq<char>,
)
    requires
        k1 != k2,
        parsed_fields(w1) == Some(saved_fields(prior, k1, v1)),
        parsed_fields(w2) == Some(saved_fields(Some(w1), k2, v2)),
    ensures
        setting_lookup(w2, k1) == Ok::<Seq<char>, SettingsError>(v1),
{
}

/// A key that was absent before a save of a different key is still absent
/// from the written content: loading it fails with `NotFound`.
pub proof fn lemma_setting_absent(
    prior: Option<Seq<char>>,
    key: Seq<char>,
    value: Seq<char>,
    written: Seq<char>,
    other: Seq<char>,
)
    requires
        other != key,
        !stored_fields(prior).dom().contains(other),
        parsed_fields(written) == Some(saved_fields(prior, key, value)),
    ensures
        setting_lookup(written, other) == Err::<Seq<char>, SettingsError>(SettingsError::NotFound),
{
}

} // verus!
