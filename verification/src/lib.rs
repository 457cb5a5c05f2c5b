//! An event-sourcing core: commands are validated against state rebuilt from a
//! historical event log, and zero or more resulting events are emitted.

pub mod command;
pub mod command_handler;
pub mod event;
pub mod restocker;

pub use command::Command;
pub use command::RestockOrder;
pub use command_handler::CommandHandler;
pub use event::Event;
pub use event::RestockOrdered;
pub use restocker::Aggregate;
pub use restocker::RestockCommandHandler;
pub use restocker::Restocker;
pub use restocker::RestockerState;
