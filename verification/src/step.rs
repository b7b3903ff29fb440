//! How the driver and its caller take turns: the driver asks for an [`Action`],
//! the caller performs it and reports the [`Event`].

use crate::error::WrapperError;
use vstd::prelude::*;

verus! {

/// Work on the link, or a delay, that the caller performs for the driver.
#[derive(Clone, Copy, Debug, PartialEq, Eq, Structural)]
pub enum Action {
    /// Set up the packet link.
    Setup,
    /// Wait for this many milliseconds.
    Delay(u8),
    /// Write the first so many bytes of the send buffer as one packet.
    Write(usize),
    /// Read one packet into the receive buffer.
    Read,
    /// Write the first so many bytes of the send buffer as one packet, and read
    /// the response into the receive buffer.
    Exchange(usize),
}

/// What has just happened.
#[derive(Debug)]
pub enum Event<E> {
    /// The operation begins.
    Start,
    /// [`Action::Setup`] was performed.
    SetUp(Result<(), E>),
    /// [`Action::Delay`] was performed.
    Delayed,
    /// [`Action::Write`] was performed.
    Written(Result<(), E>),
    /// [`Action::Read`] was performed. The number is the length of the packet
    /// that now stands in the receive buffer, or zero if there was none.
    Read(Result<usize, E>),
    /// [`Action::Exchange`] was performed. The number is the length of the
    /// response that now stands in the receive buffer.
    Exchanged(Result<usize, E>),
}

/// How an operation goes on.
#[derive(Debug)]
pub enum Next<T> {
    /// The caller performs this action, and reports the event.
    Do(Action),
    /// The operation is over, with this result.
    Return(T),
}

/// Where the initialization stands.
#[derive(Clone, Copy, Debug, PartialEq, Eq, Structural)]
pub enum InitPhase {
    /// The link is being set up.
    SettingUp,
    /// The link settles.
    Settling,
    /// The device has been told to reset.
    Resetting,
    /// The device restarts.
    FirstWait,
    /// Startup messages are dropped.
    FirstDrain,
    /// The device may have more to say.
    SecondWait,
    /// Late startup messages are dropped.
    SecondDrain,
    /// The product ID has been asked for.
    Verifying,
}

/// The result of an operation of which the link reported `outcome`.
pub open spec fn comm_result<T, E>(outcome: Result<T, E>) -> Result<T, WrapperError<E>> {
    match outcome {
        Ok(value) => Ok(value),
        Err(error) => Err(WrapperError::CommError(error)),
    }
}

/// Whether this is the event that reports this action.
pub open spec fn answers<E>(event: Event<E>, action: Action) -> bool {
    match action {
        Action::Setup => event is SetUp,
        Action::Delay(_) => event is Delayed,
        Action::Write(_) => event is Written,
        Action::Read => event is Read,
        Action::Exchange(_) => event is Exchanged,
    }
}

/// Whether a read has brought a packet.
pub open spec fn packet_arrived<E>(outcome: Result<usize, E>) -> bool {
    outcome matches Ok(packet_len) && packet_len > 0
}

/// Wraps an error of the link.
pub fn map_comm_error<T, E>(outcome: Result<T, E>) -> (result: Result<T, WrapperError<E>>)
    ensures
        result == comm_result(outcome),
{
    match outcome {
        Ok(value) => Ok(value),
        Err(error) => Err(WrapperError::CommError(error)),
    }
}

} // verus!
