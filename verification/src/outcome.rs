//! Plain result values handed back to consumers.

use vstd::prelude::*;

verus! {

/// Why the remote side refused to open a channel.
#[derive(Clone, Copy, Debug, PartialEq, Eq, Structural)]
pub enum OpenFailure {
    AdministrativelyProhibited,
    ConnectFailed,
    UnknownChannelType,
    ResourceShortage,
}

/// What one read on a channel gave.
#[derive(Clone, Copy, Debug, PartialEq, Eq, Structural)]
pub enum ReadOutcome {
    /// This many bytes were copied to the front of the caller's buffer.
    Read(usize),
    /// Nothing is buffered and more may arrive; the caller is woken when it does.
    WouldBlock,
    /// Nothing is buffered and nothing more will arrive.
    EndOfStream,
}

/// What one poll for the exit status gave.
#[derive(Clone, Copy, Debug, PartialEq, Eq, Structural)]
pub enum ExitPoll {
    /// The remote process exited with this code.
    Ready(u32),
    /// The channel closed without an exit status; none will ever arrive.
    Lost,
    /// Not known yet; the caller is woken when it is, or when the channel closes.
    Pending,
}

/// What one poll of the protocol engine gave.
pub enum EnginePoll<E> {
    /// No progress yet.
    Pending,
    /// The connection finished.
    Finished,
    /// The connection failed for good.
    Failed(E),
}

/// What the connection driver does after one poll of the engine.
#[derive(Clone, Copy, Debug, PartialEq, Eq, Structural)]
pub enum DriverPoll {
    /// Stay suspended until the transport is ready or somebody wakes the driver.
    Suspended,
    /// The connection finished; the driver ends cleanly.
    Finished,
    /// The connection failed; the error is stored in the session and the driver ends.
    Failed,
}

} // verus!
