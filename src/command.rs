use vstd::prelude::*;

verus! {

/// Number of commands the queue holds before the producer has to wait.
pub const QUEUE_CAPACITY: usize = 10;

/// One motion update for the robot: forward, strafe and yaw. Each axis is
/// carried as the IEEE-754 bit pattern of a 32-bit float; the bridge never
/// reads the values, it only moves them in order.
#[derive(Clone, Copy, Debug, PartialEq, Eq, Structural)]
pub struct Command {
    pub x: u32,
    pub y: u32,
    pub yaw: u32,
}

impl Command {
    pub fn new(x: u32, y: u32, yaw: u32) -> (r: Command)
        ensures
            r.x == x,
            r.y == y,
            r.yaw == yaw,
    {
        Command { x, y, yaw }
    }
}

/// What can go wrong with a bridge session.
#[derive(Clone, Copy, Debug, PartialEq, Eq, Structural)]
pub enum BridgeError {
    /// The initial connection to the robot could not be established.
    Connection,
    /// The outbound stream broke while commands were being delivered.
    StreamWrite,
    /// The worker did not terminate cleanly during teardown.
    ShutdownJoin,
}

} // verus!
