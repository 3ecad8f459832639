//! Verified core of a teleoperation controller: the bounded command queue
//! and the session state machine of the command-streaming bridge, plus the
//! bookkeeping of the devices reported by a tracking system.
pub mod command;
pub mod devices;
pub mod guarantees;
pub mod queue;
pub mod session;
