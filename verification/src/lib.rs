//! Bridges a gamepad to streaming network consumers: raw hardware events are
//! translated into a normalized three-field control state, encoded as a
//! fixed-width text message, and fanned out to any number of subscribers.

pub mod broadcast;
pub mod state;
pub mod translate;

pub use broadcast::{Broadcaster, RecvOutcome, SessionStep, Subscription};
pub use state::ControlState;
pub use translate::{PadButton, RawInputEvent};
