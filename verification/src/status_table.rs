//! The state of every request that was ever accepted, by identity.
//!
//! An entry is overwritten in place and never removed. The table itself
//! knows no order among the states: which state may follow which is decided
//! by whoever writes to it.

use crate::clock::Timestamp;
use crate::player_cache::CalcStatus;
use vstd::hash_map::StringHashMap;
use vstd::prelude::*;

verus! {

/// The current state of each identity's request.
pub struct StatusTable {
    table: StringHashMap<CalcStatus>,
}

impl View for StatusTable {
    type V = Map<Seq<char>, CalcStatus>;

    /// The table as a mapping from identity to state.
    closed spec fn view(&self) -> Self::V {
        self.table@
    }
}

/// What `ping` leaves of a table: a pending entry of `identity` keeps its
/// sequence number and gets `now` as the time it was last asked for; every
/// other table stays as it is.
pub open spec fn pinged(
    table: Map<Seq<char>, CalcStatus>,
    identity: Seq<char>,
    now: Timestamp,
) -> Map<Seq<char>, CalcStatus> {
    if table.contains_key(identity) && table[identity] is Pending {
        table.insert(identity, CalcStatus::Pending(table[identity].sequence(), now))
    } else {
        table
    }
}

impl StatusTable {
    /// A table without entries.
    pub fn new() -> (table: Self)
        ensures
            table@ == Map::<Seq<char>, CalcStatus>::empty(),
    {
        StatusTable { table: StringHashMap::new() }
    }

    /// The state of `identity`, if it has one.
    pub fn get(&self, identity: &str) -> (status: Option<CalcStatus>)
        ensures
            status == if self@.contains_key(identity@) {
                Some(self@[identity@])
            } else {
                None
            },
    {
        match self.table.get(identity) {
            Some(status) => Some(*status),
            None => None,
        }
    }

    /// Makes `identity` pending with the given sequence number, last asked
    /// for at `now`.
    pub fn set_pending(&mut self, identity: String, sequence: u64, now: Timestamp)
        ensures
            final(self)@ == old(self)@.insert(identity@, CalcStatus::Pending(sequence, now)),
    {
        self.table.insert(identity, CalcStatus::Pending(sequence, now));
    }

    /// Marks `identity` as being calculated, whatever it was before.
    pub fn set_calculating(&mut self, identity: String)
        ensures
            final(self)@ == old(self)@.insert(identity@, CalcStatus::Calculating),
    {
        self.table.insert(identity, CalcStatus::Calculating);
    }

    /// Marks `identity` as done, whatever it was before.
    pub fn set_done(&mut self, identity: String)
        ensures
            final(self)@ == old(self)@.insert(identity@, CalcStatus::Done),
    {
        self.table.insert(identity, CalcStatus::Done);
    }

    /// Marks `identity` as failed, whatever it was before.
    pub fn set_error(&mut self, identity: String)
        ensures
            final(self)@ == old(self)@.insert(identity@, CalcStatus::Error),
    {
        self.table.insert(identity, CalcStatus::Error);
    }

    /// Records that `identity` was asked for at `now`. Only a pending entry
    /// takes note of it.
    pub fn ping(&mut self, identity: String, now: Timestamp)
        ensures
            final(self)@ == pinged(old(self)@, identity@, now),
    {
        match self.get(identity.as_str()) {
            Some(CalcStatus::Pending(sequence, _)) => {
                self.table.insert(identity, CalcStatus::Pending(sequence, now));
            },
            _ => {},
        }
    }
}

} // verus!
