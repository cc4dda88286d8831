//! The decision core of a user-space IP stack.
//!
//! A virtual network interface hands over raw IP frames; each frame belongs to
//! one transport flow, and each flow is served by a session that owns an
//! inbound channel. This crate holds everything that is decided between two
//! suspensions of the task that owns the device: how device bytes are framed,
//! which session a frame belongs to, when a session is opened, and when it is
//! retired. Reading and writing the device, parsing and serialising headers,
//! and the sessions themselves are left to the caller.

pub mod flow;
pub mod frame;
pub mod framing;
pub mod table;
pub mod channel;
pub mod dispatch;
pub mod error;

pub use dispatch::Dispatcher;
pub use error::IpStackError;
pub use flow::NetworkTuple;
pub use frame::Frame;
