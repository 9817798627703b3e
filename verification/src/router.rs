//! What to do with the events that arrive from outside: a participant joined,
//! a participant wrote a message.

use crate::channel::LastNotifiedChannel;
use crate::key::ParticipantKey;
use crate::ledger::{after_begin, ActivityLedger};
use crate::timer::{ProbationTimer, TimerState};
use vstd::prelude::*;
use vstd::utf8::encode_utf8_decode_utf8;

verus! {

/// The probation window that a router uses unless told otherwise, in seconds.
pub const DEFAULT_WINDOW_SECS: u64 = 10;

/// The message that asks for an acknowledgment. Only the exact text counts.
pub const TRIGGER: &'static str = "!ping";

/// The text of the acknowledgment.
pub const ACKNOWLEDGMENT: &'static str = "Pong!";

/// A message as the router needs it. `space` is `None` for a message that was
/// written outside any space, such as a direct message.
#[derive(Debug)]
pub struct InboundMessage {
    pub author: u64,
    pub space: Option<u64>,
    pub channel: u64,
    pub content: String,
}

/// A reply to send into `channel`.
#[derive(Debug)]
pub struct Acknowledgment {
    pub channel: u64,
    pub text: String,
}

fn same_bytes(a: &[u8], b: &[u8]) -> (same: bool)
    ensures
        same == (a@ == b@),
{
    if a.len() != b.len() {
        return false;
    }
    let mut i: usize = 0;
    while i < a.len()
        invariant
            a.len() == b.len(),
            i <= a.len(),
            forall|j: int| 0 <= j < i ==> a@[j] == b@[j],
        decreases a.len() - i,
    {
        if a[i] != b[i] {
            return false;
        }
        i = i + 1;
    }
    assert(a@ =~= b@);
    true
}

/// Whether `content` is the trigger, character for character.
pub fn is_trigger(content: &str) -> (hit: bool)
    ensures
        hit == (content@ == TRIGGER@),
{
    proof {
        // Two texts with the same bytes are the same text.
        encode_utf8_decode_utf8(content@);
        encode_utf8_decode_utf8(TRIGGER@);
    }
    same_bytes(content.as_bytes(), TRIGGER.as_bytes())
}

/// Turns inbound events into ledger updates and timers.
pub struct EventRouter {
    window_secs: u64,
}

impl EventRouter {
    pub closed spec fn spec_window_secs(&self) -> u64 {
        self.window_secs
    }

    /// A router whose timers run for `window_secs` seconds.
    pub fn new(window_secs: u64) -> (router: Self)
        ensures
            router.window_secs() == window_secs,
    {
        EventRouter { window_secs }
    }

    /// The probation window of the timers that this router creates.
    #[verifier::when_used_as_spec(spec_window_secs)]
    pub fn window_secs(&self) -> (secs: u64)
        ensures
            secs == self.spec_window_secs(),
    {
        self.window_secs
    }

    /// A participant joined a space: their probation begins.
    ///
    /// The ledger gets an entry for them unless it has one, and the timer
    /// that comes back, still [`TimerState::Armed`], is the caller's to run.
    /// Every join gets a timer of its own, also while an earlier one for the
    /// same key is still running; whichever of them ends first takes the
    /// entry, and the other then finds none.
    pub fn on_join(&self, participant: u64, space: u64, ledger: &mut ActivityLedger) -> (timer:
        ProbationTimer)
        ensures
            timer.key() == (ParticipantKey { participant, space }),
            timer.window_secs() == self.window_secs(),
            timer.state() == TimerState::Armed,
            final(ledger)@ == after_begin(old(ledger)@, timer.key()),
    {
        let key = ParticipantKey::new(participant, space);
        ledger.begin_probation(key);
        ProbationTimer::new(key, self.window_secs)
    }

    /// A participant wrote a message.
    ///
    /// Written inside a space, the message counts as activity of its author
    /// there, whether or not the author is on probation, and its channel
    /// becomes the latest one. Written elsewhere, it changes nothing. Either
    /// way the trigger is answered in the channel it came from.
    pub fn on_message(
        &self,
        message: &InboundMessage,
        ledger: &mut ActivityLedger,
        last: &mut LastNotifiedChannel,
    ) -> (reply: Option<Acknowledgment>)
        ensures
            final(ledger)@ == match message.space {
                Some(space) => old(ledger)@.insert(
                    ParticipantKey { participant: message.author, space },
                    true,
                ),
                None => old(ledger)@,
            },
            final(last)@ == match message.space {
                Some(_) => Some(message.channel),
                None => old(last)@,
            },
            match reply {
                Some(ack) => message.content@ == TRIGGER@ && ack.channel == message.channel
                    && ack.text@ == ACKNOWLEDGMENT@,
                None => message.content@ != TRIGGER@,
            },
    {
        if let Some(space) = message.space {
            ledger.record_activity(ParticipantKey::new(message.author, space));
            last.record(message.channel);
        }
        if is_trigger(message.content.as_str()) {
            Some(Acknowledgment { channel: message.channel, text: ACKNOWLEDGMENT.to_owned() })
        } else {
            None
        }
    }
}

impl Default for EventRouter {
    fn default() -> (router: Self)
        ensures
            router.window_secs() == DEFAULT_WINDOW_SECS,
    {
        EventRouter::new(DEFAULT_WINDOW_SECS)
    }
}

} // verus!
