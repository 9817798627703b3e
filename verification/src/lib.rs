//! Membership probation: a participant who joins a space is put on probation
//! for a fixed window and is removed when the window ends without any activity
//! from them.
//!
//! The crate holds the decisions only. It never sleeps, locks or talks to the
//! network: the caller owns the ledger, performs the actions that the timer and
//! the router hand out, and reports back what happened.

pub mod channel;
pub mod history;
pub mod key;
pub mod laws;
pub mod ledger;
pub mod router;
pub mod timer;

pub use channel::LastNotifiedChannel;
pub use key::ParticipantKey;
pub use ledger::ActivityLedger;
pub use router::{
    is_trigger, Acknowledgment, EventRouter, InboundMessage, ACKNOWLEDGMENT, DEFAULT_WINDOW_SECS,
    TRIGGER,
};
pub use timer::{ProbationTimer, TimerAction, TimerEvent, TimerState};
