//! Coordination layer between a callback-driven SSH protocol engine and suspend/resume style
//! consumers.
//!
//! The engine reports what happens on each channel through the event handlers of
//! [`SessionState`]; consumers read a channel's output through [`Channel`], wait for it to open
//! through [`ChannelOpenFuture`] and for its exit status through [`ExitStatusFuture`];
//! [`ConnectionDriver`] keeps the books of the one task that polls the engine. A consumer that
//! has to wait leaves its task handle in the channel, and the event that ends the wait wakes it.
//!
//! The session state has a single owner. Whoever shares it between the engine's handler and the
//! consumers serializes access and passes it to each call by reference.

pub mod channel;
pub mod channel_state;
pub mod driver;
pub mod model;
pub mod outcome;
pub mod session;
pub mod trace;
pub mod wake;

pub use crate::channel::{Channel, ChannelOpenFuture, ExecRequest, ExitStatusFuture, OpenPhase, OpenPoll};
pub use crate::channel_state::ChannelState;
pub use crate::driver::ConnectionDriver;
pub use crate::model::Readiness;
pub use crate::outcome::{DriverPoll, EnginePoll, ExitPoll, OpenFailure, ReadOutcome};
pub use crate::session::SessionState;
pub use crate::wake::Wakes;
