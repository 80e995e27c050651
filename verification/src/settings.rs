//! System settings kept by administrators as key/value text.

use crate::error::{fails_with, provider_error, AppError};
use crate::text::same_text;
use vstd::prelude::*;

verus! {

/// The value of `key` among the rows `entries` read in order; a later row
/// overrides an earlier one (as collecting them into a map does).
pub open spec fn setting_value(entries: Seq<(String, String)>, key: Seq<char>) -> Option<Seq<char>>
    decreases entries.len(),
{
    if entries.len() == 0 {
        None
    } else if entries.last().0@ == key {
        Some(entries.last().1@)
    } else {
        setting_value(entries.drop_last(), key)
    }
}

/// The value of the setting `key`.
pub fn get_setting(settings: &Vec<(String, String)>, key: &str) -> (r: Option<String>)
    ensures
        match setting_value(settings@, key@) {
            Some(v) => r matches Some(x) && x@ == v,
            None => r is None,
        },
{
    let mut i: usize = settings.len();
    assert(settings@.take(i as int) =~= settings@);
    while i > 0
        invariant
            i <= settings@.len(),
            setting_value(settings@, key@) == setting_value(settings@.take(i as int), key@),
        decreases i,
    {
        let ghost t = settings@.take(i as int);
        assert(t.drop_last() =~= settings@.take(i - 1));
        if same_text(settings[i - 1].0.as_str(), key) {
            return Some(settings[i - 1].1.clone());
        }
        i = i - 1;
    }
    assert(settings@.take(0).len() == 0);
    None
}

/// The Brails API key, which every provider call needs.
pub fn brails_api_key(settings: &Vec<(String, String)>) -> (r: Result<String, AppError>)
    ensures
        match setting_value(settings@, "brails_api_key"@) {
            Some(v) => r matches Ok(k) && k@ == v,
            None => fails_with(r, "Brails API key not set"@),
        },
{
    match get_setting(settings, "brails_api_key") {
        Some(k) => Ok(k),
        None => Err(provider_error("Brails API key not set")),
    }
}

} // verus!
