//! The optional configuration file: a JSON object whose one recognized field
//! is a directory path. Any read or parse failure silently yields the
//! all-default configuration.

use vstd::prelude::*;

verus! {

/// The configuration the shell reads at startup. `sdwebui_dir` is empty when
/// the config file is absent, malformed, or does not carry the field.
#[derive(Debug)]
pub struct Config {
    pub sdwebui_dir: String,
}

impl Default for Config {
    fn default() -> (c: Config)
        ensures
            c.sdwebui_dir@ == Seq::<char>::empty(),
    {
        Config { sdwebui_dir: String::new() }
    }
}

/// The string value of the top-level field `key` of `s` parsed as JSON:
/// `Some` exactly when `s` is valid JSON, its top level is an object with
/// that key, and the field's value is a JSON string. What counts as valid
/// JSON is decided by the parser this crate relies on, so the function is
/// named, not defined.
pub uninterp spec fn json_string_field_of(s: Seq<char>, key: Seq<char>) -> Option<Seq<char>>;

/// Relies on serde_json::from_str::<Value>, serde_json::Value::get and
/// serde_json::Value::as_str: parsing depends on the input text alone;
/// `get` returns `None` unless the parsed value is an object holding the
/// key, and `as_str` returns `None` unless the field is a JSON string.
#[verifier::external_body]
fn json_string_field(s: &str, key: &str) -> (r: Option<String>)
    ensures
        (r is Some) == (json_string_field_of(s@, key@) is Some),
        r matches Some(v) ==> v@ == json_string_field_of(s@, key@).unwrap(),
{
    match serde_json::from_str::<serde_json::Value>(s) {
        Ok(parsed) => match parsed.get(key) {
            Some(field) => field.as_str().map(|d| d.to_string()),
            None => None,
        },
        Err(_) => None,
    }
}

/// The character sequences of an optionally read file.
pub open spec fn contents_view(contents: Option<String>) -> Option<Seq<char>> {
    match contents {
        Option::None => Option::<Seq<char>>::None,
        Option::Some(s) => Option::Some(s@),
    }
}

/// The directory the loader yields for given file contents (`None`: the file
/// could not be read at all): the field's string value where the parser finds
/// one, the empty string everywhere else.
pub open spec fn config_dir_of(contents: Option<Seq<char>>) -> Seq<char> {
    match contents {
        Option::None => Seq::<char>::empty(),
        Option::Some(s) => match json_string_field_of(s, "sdwebui_dir"@) {
            Option::Some(d) => d,
            Option::None => Seq::<char>::empty(),
        },
    }
}

/// Builds the configuration from the raw contents of the config file, falling
/// back to the default on every failure. Never panics, whatever the input.
pub fn load_config(contents: Option<String>) -> (c: Config)
    ensures
        c.sdwebui_dir@ == config_dir_of(contents_view(contents)),
{
    match contents {
        None => Config::default(),
        Some(s) => match json_string_field(s.as_str(), "sdwebui_dir") {
            Some(d) => Config { sdwebui_dir: d },
            None => Config::default(),
        },
    }
}

/// Law: for a missing config file, and for any contents in which the parser
/// finds no string field `sdwebui_dir`, the loader yields the all-default
/// configuration.
pub proof fn lemma_malformed_config_defaults(contents: Option<Seq<char>>)
    requires
        contents matches Some(s) ==> json_string_field_of(s, "sdwebui_dir"@) is None,
    ensures
        config_dir_of(contents) == Seq::<char>::empty(),
{
}

} // verus!
