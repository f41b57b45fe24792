//! The settings of the client, and what follows from an attempt to load
//! them.

use vstd::prelude::*;
use vstd::string::{StrSliceExecFns, StringExecFns, StringSliceAdditionalSpecFns};
use vstd::utf8::{
    decode_utf8, encode_utf8, encode_utf8_decode_utf8, encode_utf8_valid_utf8, is_char_boundary,
};
use crate::text::{contains, is_substring, option_view};

verus! {

/// The settings: the credentials for the translation service, the default
/// languages, and whether a log is kept.
#[derive(Debug, Clone)]
pub struct AppConfig {
    pub appid: String,
    pub key: String,
    pub source_lang: String,
    pub target_lang: String,
    pub enable_logging: bool,
}

/// What an attempt to load the settings gave: the settings, or the reason
/// why there are none.
#[derive(Debug, Clone)]
pub enum ConfigResult {
    Loaded(AppConfig),
    Failed(String),
}

/// What to do once the settings have been looked for.
#[derive(Debug, Clone)]
pub enum ConfigStep {
    /// Go on with these settings.
    Use(AppConfig),
    /// Write the example settings, and go on with them.
    CreateExample,
    /// Give up, for this reason.
    Fail(String),
}

/// The words by which a reason tells that there is no settings file yet.
pub const NOT_FOUND: &'static str = "not found";

/// Whether the four texts of the settings are all filled in.
pub fn settings_complete(appid: &str, key: &str, source_lang: &str, target_lang: &str) -> (complete:
    bool)
    ensures
        complete == (appid@.len() > 0 && key@.len() > 0 && source_lang@.len() > 0
            && target_lang@.len() > 0),
{
    !appid.is_empty() && !key.is_empty() && !source_lang.is_empty() && !target_lang.is_empty()
}

/// Whether a log is kept, given what loading the settings gave: as the
/// settings say, and in any case while there are none.
pub fn keeps_log(loaded: &Result<AppConfig, String>) -> (kept: bool)
    ensures
        kept == match *loaded {
            Ok(config) => config.enable_logging,
            Err(_) => true,
        },
{
    match loaded {
        Ok(config) => config.enable_logging,
        Err(_) => true,
    }
}

/// Decides what follows an attempt to load the settings: settings that
/// were loaded are used; where the reason for their absence holds
/// `NOT_FOUND`, the example settings are to be written; any other reason
/// ends the attempt.
pub fn after_load(loaded: ConfigResult) -> (step: ConfigStep)
    ensures
        match loaded {
            ConfigResult::Loaded(config) => step == ConfigStep::Use(config),
            ConfigResult::Failed(reason) => if is_substring(reason@, NOT_FOUND@) {
                step is CreateExample
            } else {
                step == ConfigStep::Fail(reason)
            },
        },
{
    match loaded {
        ConfigResult::Loaded(config) => ConfigStep::Use(config),
        ConfigResult::Failed(reason) => {
            if contains(reason.as_str(), NOT_FOUND) {
                ConfigStep::CreateExample
            } else {
                ConfigStep::Fail(reason)
            }
        },
    }
}

/// A run of `count` stars.
pub open spec fn star_run(count: nat) -> Seq<char> {
    Seq::new(count, |i: int| '*')
}

/// The key as it is shown: a key of at most six bytes as one star for each
/// byte; a longer one as its first three characters, three stars, and what
/// follows byte `n - 6` of its UTF-8 form, `n` being the number of its
/// characters. Nothing where a longer key has fewer than six characters or
/// that byte does not begin a character.
pub open spec fn masked_key(key: Seq<char>) -> Option<Seq<char>> {
    let bytes = encode_utf8(key);
    if bytes.len() <= 6 {
        Some(star_run(bytes.len()))
    } else if key.len() >= 6 && is_char_boundary(bytes, key.len() - 6) {
        Some(key.take(3) + "***"@ + decode_utf8(bytes.skip(key.len() - 6)))
    } else {
        None
    }
}

/// A run of `count` stars.
fn stars(count: usize) -> (run: String)
    ensures
        run@ == star_run(count as nat),
{
    let mut run = String::new();
    let mut i: usize = 0;
    while i < count
        invariant
            i <= count,
            run@ == star_run(i as nat),
        decreases count - i,
    {
        run.push('*');
        assert(run@ =~= star_run((i + 1) as nat));
        i += 1;
    }
    run
}

/// Masks a key for display.
pub fn mask_key(key: &str) -> (shown: Option<String>)
    ensures
        option_view(shown) == masked_key(key@),
{
    let width: usize = key.as_bytes().len();
    if width <= 6 {
        return Some(stars(width));
    }
    let count: usize = key.unicode_len();
    if count < 6 {
        return None;
    }
    let hidden: usize = count - 6;
    if !key.is_char_boundary(hidden) {
        return None;
    }
    assert(hidden <= width) by {
        encode_utf8_valid_utf8(key@);
    }
    let (_, tail) = key.split_at(hidden);
    proof {
        encode_utf8_decode_utf8(tail@);
        assert(key.spec_bytes().subrange(hidden as int, key.spec_bytes().len() as int)
            == key.spec_bytes().skip(hidden as int));
    }
    let mut shown = String::from_str(key.substring_char(0, 3));
    shown.append("***");
    shown.append(tail);
    assert(key@.subrange(0, 3) == key@.take(3));
    Some(shown)
}

} // verus!
