//! The record of who has been active since being put on probation.

use crate::key::ParticipantKey;
use std::collections::HashMap;
use vstd::prelude::*;
use vstd::set_lib::lemma_map_size;

verus! {

broadcast use vstd::std_specs::hash::group_hash_axioms;

/// The slot under which the table keeps a key: the participant in the high
/// half, the space in the low half.
spec fn slot_of(key: ParticipantKey) -> u128 {
    (key.participant as int * 0x1_0000_0000_0000_0000 + key.space as int) as u128
}

/// The key that a slot stands for.
spec fn key_at(slot: u128) -> ParticipantKey {
    ParticipantKey {
        participant: (slot as int / 0x1_0000_0000_0000_0000) as u64,
        space: (slot as int % 0x1_0000_0000_0000_0000) as u64,
    }
}

proof fn lemma_key_survives_slot(key: ParticipantKey)
    ensures
        key_at(slot_of(key)) == key,
{
}

proof fn lemma_slot_survives_key(slot: u128)
    ensures
        slot_of(key_at(slot)) == slot,
{
}

/// Distinct keys never share a slot.
proof fn lemma_slots_are_distinct(a: ParticipantKey, b: ParticipantKey)
    ensures
        slot_of(a) == slot_of(b) <==> a == b,
{
    lemma_key_survives_slot(a);
    lemma_key_survives_slot(b);
}

fn slot(key: ParticipantKey) -> (s: u128)
    ensures
        s == slot_of(key),
{
    (key.participant as u128) * 0x1_0000_0000_0000_0000u128 + (key.space as u128)
}

/// What a ledger says of `key`: `true` when the key has an entry and the flag
/// of that entry is `true`.
pub open spec fn has_activity(entries: Map<ParticipantKey, bool>, key: ParticipantKey) -> bool {
    entries.contains_key(key) && entries[key]
}

/// The entries after a join of `key`: a new entry with the flag `false`, or
/// the entries as they were if the key had one already.
pub open spec fn after_begin(entries: Map<ParticipantKey, bool>, key: ParticipantKey) -> Map<
    ParticipantKey,
    bool,
> {
    if entries.contains_key(key) {
        entries
    } else {
        entries.insert(key, false)
    }
}

/// For each key, whether its participant has been active since being put on
/// probation.
///
/// The ledger is viewed as a `Map<ParticipantKey, bool>`. A key that is absent
/// counts as "no activity", exactly like a key whose flag is `false`. A flag
/// only ever goes from `false` or absent to `true`; the one way back is
/// [`ActivityLedger::take_and_clear`], which removes the key altogether.
///
/// Every mutation takes `&mut self`, so a ledger shared between tasks sits
/// behind a lock and each operation below is one critical section.
pub struct ActivityLedger {
    flags: HashMap<u128, bool>,
}

impl View for ActivityLedger {
    type V = Map<ParticipantKey, bool>;

    closed spec fn view(&self) -> Map<ParticipantKey, bool> {
        Map::new(
            |key: ParticipantKey| self.flags@.contains_key(slot_of(key)),
            |key: ParticipantKey| self.flags@[slot_of(key)],
        )
    }
}

impl ActivityLedger {
    /// An empty ledger: nobody is on probation and nothing is recorded.
    pub fn new() -> (ledger: Self)
        ensures
            ledger@ == Map::<ParticipantKey, bool>::empty(),
    {
        let ledger = ActivityLedger { flags: HashMap::new() };
        assert(ledger@ =~= Map::<ParticipantKey, bool>::empty());
        ledger
    }

    /// Opens the entry of a participant who has just joined, with the flag
    /// `false`. An entry that is already there is left as it is, so activity
    /// that was recorded before the join is not forgotten.
    pub fn begin_probation(&mut self, key: ParticipantKey)
        ensures
            final(self)@ == after_begin(old(self)@, key),
    {
        let s = slot(key);
        if !self.flags.contains_key(&s) {
            self.flags.insert(s, false);
            proof {
                assert forall|other: ParticipantKey| slot_of(other) == s implies other == key by {
                    lemma_slots_are_distinct(other, key);
                }
                assert(self@ =~= old(self)@.insert(key, false));
            }
        } else {
            assert(self@ =~= old(self)@);
        }
    }

    /// Notes that the participant has been active. The entry is created if
    /// there is none; recording twice is the same as recording once.
    pub fn record_activity(&mut self, key: ParticipantKey)
        ensures
            final(self)@ == old(self)@.insert(key, true),
    {
        let s = slot(key);
        self.flags.insert(s, true);
        proof {
            assert forall|other: ParticipantKey| slot_of(other) == s implies other == key by {
                lemma_slots_are_distinct(other, key);
            }
            assert(self@ =~= old(self)@.insert(key, true));
        }
    }

    /// Removes the entry of `key` and says whether it was there with the flag
    /// `true`. Without an entry the answer is `false`: nothing was recorded.
    pub fn take_and_clear(&mut self, key: ParticipantKey) -> (active: bool)
        ensures
            active == has_activity(old(self)@, key),
            final(self)@ == old(self)@.remove(key),
    {
        let s = slot(key);
        let taken = self.flags.remove(&s);
        proof {
            assert forall|other: ParticipantKey| slot_of(other) == s implies other == key by {
                lemma_slots_are_distinct(other, key);
            }
            assert(self@ =~= old(self)@.remove(key));
        }
        match taken {
            Some(flag) => flag,
            None => false,
        }
    }

    /// Whether the ledger holds an entry for `key`, whatever its flag.
    pub fn contains(&self, key: ParticipantKey) -> (present: bool)
        ensures
            present == self@.contains_key(key),
    {
        let s = slot(key);
        self.flags.contains_key(&s)
    }

    /// The number of entries.
    pub fn len(&self) -> (n: usize)
        ensures
            self@.dom().finite(),
            n == self@.len(),
    {
        proof {
            self.lemma_entries_match_slots();
        }
        self.flags.len()
    }

    /// Whether the ledger holds no entry at all.
    pub fn is_empty(&self) -> (empty: bool)
        ensures
            empty == (self@ == Map::<ParticipantKey, bool>::empty()),
    {
        proof {
            self.lemma_entries_match_slots();
            if self@.len() == 0 {
                assert(self@ =~= Map::<ParticipantKey, bool>::empty());
            }
        }
        self.flags.len() == 0
    }

    /// The ledger has as many entries as the table has slots, and finitely
    /// many.
    proof fn lemma_entries_match_slots(&self)
        ensures
            self@.dom().finite(),
            self@.len() == self.flags@.len(),
    {
        let slots = self.flags@.dom();
        let keys = self@.dom();
        let back = |slot: u128| key_at(slot);
        assert forall|a: u128, b: u128| #[trigger] back(a) == #[trigger] back(b) implies a == b by {
            lemma_slot_survives_key(a);
            lemma_slot_survives_key(b);
        }
        assert forall|key: ParticipantKey| slots.map(back).contains(key) == keys.contains(key) by {
            lemma_key_survives_slot(key);
            if keys.contains(key) {
                assert(slots.contains(slot_of(key)));
                assert(back(slot_of(key)) == key);
            }
            if slots.map(back).contains(key) {
                let slot = choose|slot: u128| slots.contains(slot) && back(slot) == key;
                lemma_slot_survives_key(slot);
            }
        }
        assert(slots.map(back) =~= keys);
        slots.lemma_map_finite(back);
        lemma_map_size(slots, keys, back);
    }
}

impl Default for ActivityLedger {
    fn default() -> (ledger: Self)
        ensures
            ledger@ == Map::<ParticipantKey, bool>::empty(),
    {
        ActivityLedger::new()
    }
}

} // verus!
