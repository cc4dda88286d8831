//! The faults that end the stack.

use vstd::prelude::*;

verus! {

/// A fault after which the stack serves no further frame.
#[derive(Clone, Copy, Debug, PartialEq, Eq, Structural)]
pub enum IpStackError {
    /// No further session will be handed out: the task that creates
    /// sessions has ended.
    AcceptError,
    /// The device could not be read.
    DeviceRead,
    /// The device did not take a frame.
    DeviceWrite,
}

impl IpStackError {
    /// A short description, for diagnostics.
    pub fn message(&self) -> (text: &'static str)
        ensures
            text == match *self {
                IpStackError::AcceptError => "accept error",
                IpStackError::DeviceRead => "device read error",
                IpStackError::DeviceWrite => "device write error",
            },
    {
        match self {
            IpStackError::AcceptError => "accept error",
            IpStackError::DeviceRead => "device read error",
            IpStackError::DeviceWrite => "device write error",
        }
    }
}

/// What a call for the next session returns once the queue of new sessions
/// has answered: the session, or the terminal error when the queue is closed.
pub fn accepted<S>(next: Option<S>) -> (outcome: Result<S, IpStackError>)
    ensures
        outcome == match next {
            Some(session) => Result::<S, IpStackError>::Ok(session),
            None => Result::<S, IpStackError>::Err(IpStackError::AcceptError),
        },
{
    match next {
        Some(session) => Ok(session),
        None => Err(IpStackError::AcceptError),
    }
}

} // verus!
