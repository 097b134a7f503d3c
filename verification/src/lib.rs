//! Status-polling and state-reconciliation core for a real-time-protection
//! monitor: the tri-state protection status, the poller's transition
//! detection, the toggle decision table, and the privileged apply protocol.

pub mod command;
pub mod mutator;
pub mod poller;
pub mod shared;
pub mod status;
