//! Command types and trait definition.

use vstd::prelude::*;

verus! {

/// Base trait for all commands: a marker for values that express user intent.
pub trait Command {

}

/// Command to request a restock order.
#[derive(Debug, Clone, PartialEq)]
pub struct RestockOrder {
    pub quantity: i32,
}

impl RestockOrder {
    pub fn new(quantity: i32) -> (command: Self)
        ensures
            command.quantity == quantity,
    {
        Self { quantity }
    }
}

impl Command for RestockOrder {

}

} // verus!
