//! The focused application, read from the window system's reply.
//!
//! The reply is free-form text such as `WM_CLASS(STRING) = "Navigator",
//! "Firefox"`: the first two quoted tokens are the instance and the class of
//! the focused window. A reply without them is no error; it stands for "no
//! particular application".

use crate::outside::{find_all, regex_find_iter};
use vstd::prelude::*;

verus! {

/// Regular expression for one quoted token: as few characters as possible
/// between two double quotes.
pub const QUOTED_TOKEN: &'static str = "\"(.*?)\"";

/// The application that has focus. Both names are empty when the focus
/// could not be told.
#[derive(Debug, Clone, PartialEq, Eq)]
pub struct FocusContext {
    pub instance: String,
    pub class: String,
}

/// What a `FocusContext` holds.
pub struct Focus {
    pub instance: Seq<char>,
    pub class: Seq<char>,
}

impl View for FocusContext {
    type V = Focus;

    open spec fn view(&self) -> Focus {
        Focus { instance: self.instance@, class: self.class@ }
    }
}

/// The focus that stands for "no particular application".
pub open spec fn no_focus() -> Focus {
    Focus { instance: Seq::empty(), class: Seq::empty() }
}

/// A token without its first and its last character, which in a quoted token
/// are the quotes.
pub open spec fn unquoted(token: Seq<char>) -> Seq<char> {
    if token.len() >= 2 {
        token.subrange(1, token.len() - 1)
    } else {
        Seq::empty()
    }
}

/// The focus told by the quoted tokens found in a reply: the first two
/// without their quotes, or no focus where fewer than two were found.
pub open spec fn focus_of(found: Option<Seq<Seq<char>>>) -> Focus {
    match found {
        Some(tokens) => if tokens.len() >= 2 {
            Focus { instance: unquoted(tokens[0]), class: unquoted(tokens[1]) }
        } else {
            no_focus()
        },
        None => no_focus(),
    }
}

/// Removes the first and the last character of `token`.
pub fn unquote(token: &str) -> (inner: String)
    ensures
        inner@ == unquoted(token@),
{
    let len = token.unicode_len();
    if len >= 2 {
        token.substring_char(1, len - 1).to_owned()
    } else {
        String::new()
    }
}

impl FocusContext {
    /// The focus that stands for "no particular application".
    pub fn none() -> (focus: FocusContext)
        ensures
            focus@ == no_focus(),
    {
        FocusContext { instance: String::new(), class: String::new() }
    }

    /// The focus told by the quoted tokens found in a reply, in the order in
    /// which they were found.
    pub fn from_tokens(tokens: &Vec<String>) -> (focus: FocusContext)
        ensures
            focus@ == focus_of(Some(tokens.deep_view())),
    {
        if tokens.len() < 2 {
            FocusContext::none()
        } else {
            FocusContext {
                instance: unquote(tokens[0].as_str()),
                class: unquote(tokens[1].as_str()),
            }
        }
    }
}

/// Reads the focused window's instance and class out of the window system's
/// reply. A reply that holds fewer than two quoted tokens gives empty names.
pub fn get_wm_class(reply: &str) -> (focus: FocusContext)
    ensures
        focus@ == focus_of(regex_find_iter(QUOTED_TOKEN@, reply@)),
{
    match find_all(QUOTED_TOKEN, reply) {
        Ok(tokens) => FocusContext::from_tokens(&tokens),
        Err(_) => FocusContext::none(),
    }
}

} // verus!
