//! The channel in which activity was last seen.

use vstd::prelude::*;

verus! {

/// One slot that remembers the channel of the latest activity, so that a
/// notice asked for from outside has somewhere to go. The last write wins;
/// nothing is kept of earlier ones.
pub struct LastNotifiedChannel {
    slot: Option<u64>,
}

impl View for LastNotifiedChannel {
    type V = Option<u64>;

    closed spec fn view(&self) -> Option<u64> {
        self.slot
    }
}

impl LastNotifiedChannel {
    /// A slot that holds no channel yet.
    pub fn new() -> (slot: Self)
        ensures
            slot@ == None::<u64>,
    {
        LastNotifiedChannel { slot: None }
    }

    /// Remembers `channel` in place of whatever was there.
    pub fn record(&mut self, channel: u64)
        ensures
            final(self)@ == Some(channel),
    {
        self.slot = Some(channel);
    }

    /// The channel of the latest write, if there was one.
    pub fn latest(&self) -> (channel: Option<u64>)
        ensures
            channel == self@,
    {
        self.slot
    }
}

impl Default for LastNotifiedChannel {
    fn default() -> (slot: Self)
        ensures
            slot@ == None::<u64>,
    {
        LastNotifiedChannel::new()
    }
}

} // verus!
