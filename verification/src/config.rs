//! The config store: one JSON document, kept wholesale in `config.json`
//! under a platform-defined configuration directory. The resolved directory
//! is passed in by the caller; the actual file reads and writes happen
//! outside this crate, which plans them and interprets their outcomes.

use vstd::prelude::*;

use crate::errors::RelayError;
use crate::json::{
    json_error_string, json_text_of, parse_error_text_of, parse_json, parsed_json, render_json,
};
use crate::paths::{join_path, joined, platform_sep};

verus! {

/// The fixed name of the configuration document inside the configuration
/// directory.
pub open spec fn config_file_name() -> Seq<char> {
    "config.json"@
}

/// The full path of the configuration document under `config_dir`.
pub fn config_file_path(config_dir: &str) -> (r: String)
    ensures
        r@ == joined(config_dir@, config_file_name(), platform_sep(())),
{
    join_path(config_dir, "config.json")
}

/// Everything one configuration write must put on disk: the file's path and
/// its full new content. A write replaces prior content wholesale; there are
/// no partial or merge semantics.
pub struct ConfigWrite {
    pub path: String,
    pub text: String,
}

/// Plans one configuration write: the document goes to `config.json` under
/// the configuration directory, rendered as compact JSON text. Rendering is
/// deterministic, so planning the same value twice yields the same path and
/// the same text.
pub fn write_config_plan(config_dir: &str, value: &serde_json::Value) -> (r: ConfigWrite)
    ensures
        r.path@ == joined(config_dir@, config_file_name(), platform_sep(())),
        r.text@ == json_text_of(*value),
{
    ConfigWrite { path: config_file_path(config_dir), text: render_json(value) }
}

/// Interprets the outcome of reading the configuration file. A read failure
/// (absent or unreadable file) surfaces as `IOError` carrying the system's
/// error text — never as a default or empty document. Content the parser
/// rejects surfaces as `ParseError` carrying the parser's message. Accepted
/// content is returned as the parsed value, and a rendering that the parser
/// accepts parses back to the rendered value, so a write followed by a read
/// returns the written document unchanged whenever the read parses at all
/// (the parser's nesting-depth limit is the one way it cannot).
pub fn read_config_from(content: Result<String, String>) -> (r: Result<
    serde_json::Value,
    RelayError,
>)
    ensures
        content matches Err(e) ==> r == Err::<serde_json::Value, RelayError>(
            RelayError::IOError(e),
        ),
        content matches Ok(s) ==> {
            &&& (parsed_json(s@) matches Some(v) ==> r == Ok::<serde_json::Value, RelayError>(v))
            &&& (parsed_json(s@) is None ==> (r matches Err(e) && e matches RelayError::ParseError(
                m,
            ) && m@ == parse_error_text_of(s@)))
            &&& (forall|v: serde_json::Value|
                s@ == json_text_of(v) && parsed_json(s@) is Some ==> r == Ok::<
                    serde_json::Value,
                    RelayError,
                >(v))
        },
{
    match content {
        Err(e) => Err(RelayError::IOError(e)),
        Ok(s) => match parse_json(s.as_str()) {
            Ok(v) => Ok(v),
            Err(pe) => Err(RelayError::ParseError(json_error_string(&pe))),
        },
    }
}

/// Interprets the outcome of performing one planned configuration write,
/// directory creation included: success passes through; a failure surfaces
/// as `IOError` carrying the underlying system error text.
pub fn write_config_outcome(outcome: Result<(), String>) -> (r: Result<(), RelayError>)
    ensures
        outcome is Ok ==> r is Ok,
        outcome matches Err(e) ==> r == Err::<(), RelayError>(RelayError::IOError(e)),
{
    match outcome {
        Ok(_) => Ok(()),
        Err(e) => Err(RelayError::IOError(e)),
    }
}

} // verus!
