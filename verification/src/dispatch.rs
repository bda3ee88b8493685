//! What one button event leads to, given the focused application.

use crate::button::{button_name, get_button};
use crate::config::{
    bound_command, command_to_run, resolve, run_command, stop_command, BindingTable, Programs,
    DEFAULT_PROGRAM,
};
use crate::event::LogicalInputEvent;
use crate::focus::{focus_of, get_wm_class, QUOTED_TOKEN};
use crate::outside::regex_find_iter;
use vstd::prelude::*;

verus! {

/// The command to run when `button` goes down (`pressed`) or up while
/// `instance` has focus. Only a press runs one.
pub open spec fn dispatched(
    table: Programs,
    instance: Seq<char>,
    button: Seq<char>,
    pressed: bool,
) -> Option<Seq<char>> {
    if pressed {
        command_to_run(table, instance, button)
    } else {
        None
    }
}

/// The command to run in reaction to `event`, given the window system's
/// reply to the focus query, or `None` for its failure. Without a reply the
/// event is skipped.
pub open spec fn reaction(
    table: Programs,
    event: LogicalInputEvent,
    reply: Option<Seq<char>>,
) -> Option<Seq<char>> {
    match reply {
        Some(text) => dispatched(
            table,
            focus_of(regex_find_iter(QUOTED_TOKEN@, text)).instance,
            button_name(event.scancode as int),
            event.pressed,
        ),
        None => None,
    }
}

/// Decides what a button going down or up leads to: a press gives the
/// command to run, if any is bound; a release calls the stop hook and runs
/// nothing.
pub fn dispatch(config: &BindingTable, instance: &String, button: &String, pressed: bool) -> (r:
    Option<String>)
    ensures
        r.deep_view() == dispatched(config@, instance@, button@, pressed),
{
    if pressed {
        run_command(config, instance, button)
    } else {
        let _ = stop_command(config, button);
        None
    }
}

/// Decides what `event` leads to, given the window system's reply to the
/// focus query (`None` where the query failed): the command to run, if any.
pub fn dispatch_event(config: &BindingTable, event: LogicalInputEvent, reply: Option<&str>) -> (r:
    Option<String>)
    ensures
        r.deep_view() == reaction(config@, event, reply.deep_view()),
{
    let button = get_button(event.scancode).to_owned();
    match reply {
        Some(text) => {
            let focus = get_wm_class(text);
            dispatch(config, &focus.instance, &button, event.pressed)
        },
        None => None,
    }
}

/// A reply in which fewer than two quoted tokens are found, the empty reply
/// among them, names no application: the instance is empty. Unless the
/// table binds the button under the empty program name, the button then
/// resolves against `_default` alone.
pub proof fn lemma_unreadable_focus_uses_default(
    found: Option<Seq<Seq<char>>>,
    table: Programs,
    button: Seq<char>,
)
    requires
        found matches Some(tokens) ==> tokens.len() < 2,
        bound_command(table, Seq::empty(), button) is None,
    ensures
        focus_of(found).instance == Seq::<char>::empty(),
        resolve(table, focus_of(found).instance, button) == match bound_command(
            table,
            DEFAULT_PROGRAM@,
            button,
        ) {
            Some(command) => command,
            None => Seq::empty(),
        },
{
}

} // verus!
