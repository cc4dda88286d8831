//! The channel endpoint through which a session receives its frames.
//!
//! The channel is tokio's unbounded queue. Nothing in this crate is proved
//! about it: the sender is carried through as an opaque value, and the one
//! call that is made on it promises nothing about its result.

use crate::frame::Frame;
use tokio::sync::mpsc::UnboundedSender;
use vstd::prelude::*;

verus! {

/// `tokio::sync::mpsc::UnboundedSender`, known by name only: a proof sees
/// nothing inside a value of it.
#[verifier::external_type_specification]
#[verifier::external_body]
#[verifier::reject_recursive_types(T)]
pub struct ExUnboundedSender<T>(UnboundedSender<T>);

/// Calls `tokio::sync::mpsc::UnboundedSender::send` and says whether the
/// frame was queued; it is not where the receiving half is closed or gone,
/// and the frame is then lost. That depends on another task, so nothing is
/// claimed of the result. The call does not block. tokio ends the process
/// where the count of queued messages would overflow a machine word.
#[verifier::external_body]
pub(crate) fn send_frame(sender: &UnboundedSender<Frame>, frame: Frame) -> (queued: bool) {
    sender.send(frame).is_ok()
}

} // verus!
