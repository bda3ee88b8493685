//! The main loop as a state machine.
//!
//! The loop polls the device; a read that holds a button event takes it to
//! dispatching, where it waits for the window system's word on the focus,
//! reacts, and goes back to polling. The caller does the waiting: in
//! `Polling` it reads from the device, in `Dispatching` it asks for the
//! focus, and it hands what came back to [`Controller::step`], which says
//! where the loop stands next and which command, if any, to run on the way.
//! There is no way out of the loop.

use crate::config::{BindingTable, Programs};
use crate::dispatch::{dispatch_event, reaction};
use crate::event::{decode_event, event_of_bytes, ByteOrder, LogicalInputEvent};
use vstd::prelude::*;

verus! {

/// Where the loop stands.
#[derive(Debug, Clone, Copy, PartialEq, Eq)]
pub enum LoopState {
    /// Waiting for the next read from the device.
    Polling,
    /// Waiting for the focus, to react to `event`.
    Dispatching { event: LogicalInputEvent },
}

/// What the caller hands back.
#[derive(Debug, Clone, PartialEq, Eq)]
pub enum LoopInput {
    /// The bytes that one read from the device returned: none where the read
    /// failed.
    Block { bytes: Vec<u8> },
    /// The window system's reply to the focus query, or `None` where the
    /// query failed.
    Focus { reply: Option<String> },
}

/// One step of the loop: where it stands next, and the command to run
/// before going on, if any.
#[derive(Debug, Clone, PartialEq, Eq)]
pub struct Transition {
    pub next: LoopState,
    pub run: Option<String>,
}

/// What the loop works with: the loaded bindings and the byte order of the
/// device's records.
pub struct Controller {
    pub config: BindingTable,
    pub order: ByteOrder,
}

/// Where the loop stands after `input` arrives in `state`. A read that holds
/// a button event leads from polling to dispatching; everything else leads
/// to polling, an input that the state was not waiting for included.
pub open spec fn next_state(state: LoopState, input: LoopInput, order: ByteOrder) -> LoopState {
    match (state, input) {
        (LoopState::Polling, LoopInput::Block { bytes }) => match event_of_bytes(bytes@, order) {
            Some(event) => LoopState::Dispatching { event },
            None => LoopState::Polling,
        },
        _ => LoopState::Polling,
    }
}

/// The command to run when `input` arrives in `state`: only the focus
/// arriving while dispatching runs one.
pub open spec fn command_run(table: Programs, state: LoopState, input: LoopInput) -> Option<
    Seq<char>,
> {
    match (state, input) {
        (LoopState::Dispatching { event }, LoopInput::Focus { reply }) => reaction(
            table,
            event,
            reply.deep_view(),
        ),
        _ => None,
    }
}

impl Controller {
    /// Takes the loop one step further.
    pub fn step(&self, state: LoopState, input: LoopInput) -> (t: Transition)
        ensures
            t.next == next_state(state, input, self.order),
            t.run.deep_view() == command_run(self.config@, state, input),
    {
        match state {
            LoopState::Polling => {
                let next = match &input {
                    LoopInput::Block { bytes } => match decode_event(bytes.as_slice(), self.order) {
                        Some(event) => LoopState::Dispatching { event },
                        None => LoopState::Polling,
                    },
                    LoopInput::Focus { .. } => LoopState::Polling,
                };
                Transition { next, run: None }
            },
            LoopState::Dispatching { event } => {
                let run = match &input {
                    LoopInput::Focus { reply: Some(text) } => dispatch_event(
                        &self.config,
                        event,
                        Some(text.as_str()),
                    ),
                    LoopInput::Focus { reply: None } => dispatch_event(&self.config, event, None),
                    LoopInput::Block { .. } => None,
                };
                Transition { next: LoopState::Polling, run }
            },
        }
    }
}

/// Dispatching always gives way to polling, whatever arrives: the loop
/// reacts to an event once, or not at all, and reads on.
pub proof fn lemma_dispatching_returns_to_polling(
    event: LogicalInputEvent,
    input: LoopInput,
    order: ByteOrder,
)
    ensures
        next_state(LoopState::Dispatching { event }, input, order) == LoopState::Polling,
{
}

} // verus!
