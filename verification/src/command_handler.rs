//! Command handler trait definition.

use vstd::prelude::*;

use crate::command::Command;
use crate::event::Event;

verus! {

/// Base trait for all command handlers.
pub trait CommandHandler<C: Command, E: Event> {
    /// Whether the handler is ready to process a command: implementations use
    /// this to rule out histories whose replay would not be representable.
    spec fn ready_for(&self, command: &C) -> bool;

    /// Handle a command and return emitted events.
    fn handle(&mut self, command: &C) -> (events: Vec<E>)
        requires
            old(self).ready_for(command),
    ;
}

} // verus!
