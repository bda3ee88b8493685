//! The calls into other crates and into parts of the standard library that
//! come without a specification. What is stated of them here is taken on
//! trust: nothing in this file is proved.

use crate::config::{programs_of, Binding, ProgramEntry, Programs};
use vstd::prelude::*;

verus! {

#[verifier::external_type_specification]
#[verifier::external_body]
pub struct ExYamlError(serde_yaml::Error);

/// The table that `serde_yaml::from_str` reads from `text` when asked for a
/// mapping from strings to mappings from strings to strings, or `None`
/// where it reports an error.
pub uninterp spec fn yaml_mapping(text: Seq<char>) -> Option<Programs>;

/// Calls `serde_yaml::from_str` for a two-level mapping of strings and lists
/// what it read, each program once and each of its buttons once, in no
/// particular order. The claim is that the outcome depends on `text` alone.
#[verifier::external_body]
pub(crate) fn yaml_entries(text: &str) -> (r: Result<Vec<ProgramEntry>, serde_yaml::Error>)
    ensures
        match r {
            Ok(entries) => yaml_mapping(text@) == Some(programs_of(entries@)),
            Err(_) => yaml_mapping(text@) is None,
        },
{
    let read: std::collections::HashMap<String, std::collections::HashMap<String, String>> =
        serde_yaml::from_str(text)?;
    Ok(
        read.into_iter().map(
            |(program, bound)|
                ProgramEntry {
                    program,
                    bindings: bound.into_iter().map(
                        |(button, command)| Binding { button, command },
                    ).collect(),
                },
        ).collect(),
    )
}

/// Renders a `serde_yaml::Error` as text through its `Display` impl.
#[verifier::external_body]
pub(crate) fn yaml_error_text(error: &serde_yaml::Error) -> String {
    error.to_string()
}

#[verifier::external_type_specification]
#[verifier::external_body]
pub struct ExRegexError(regex::Error);

/// The texts of the successive non-overlapping matches that
/// `regex::Regex::find_iter` yields in `haystack` for the regular expression
/// that `regex::Regex::new` compiles from `pattern`, or `None` where the
/// pattern is rejected.
pub uninterp spec fn regex_find_iter(pattern: Seq<char>, haystack: Seq<char>) -> Option<
    Seq<Seq<char>>,
>;

/// Compiles `pattern` with `regex::Regex::new` and collects the text of each
/// match that `regex::Regex::find_iter` yields in `haystack`, in order. The
/// claim is that the outcome depends on the two texts alone.
#[verifier::external_body]
pub(crate) fn find_all(pattern: &str, haystack: &str) -> (r: Result<Vec<String>, regex::Error>)
    ensures
        match r {
            Ok(found) => regex_find_iter(pattern@, haystack@) == Some(found.deep_view()),
            Err(_) => regex_find_iter(pattern@, haystack@) is None,
        },
{
    let compiled = regex::Regex::new(pattern)?;
    Ok(compiled.find_iter(haystack).map(|found| found.as_str().to_owned()).collect())
}

/// `str::starts_with` for a string pattern: whether `text` begins with
/// `prefix`.
#[verifier::external_body]
pub(crate) fn starts_with(text: &str, prefix: &str) -> (b: bool)
    ensures
        b == prefix@.is_prefix_of(text@),
{
    text.starts_with(prefix)
}

/// `str::ends_with` for a string pattern: whether `text` ends with `suffix`.
#[verifier::external_body]
pub(crate) fn ends_with(text: &str, suffix: &str) -> (b: bool)
    ensures
        b == suffix@.is_suffix_of(text@),
{
    text.ends_with(suffix)
}

} // verus!
