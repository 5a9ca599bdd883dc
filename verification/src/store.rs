//! An explicit model of the host's persistent instance store, the external
//! collaborator every operation writes through.
//!
//! The real store is a durable mapping from symbolic keys to typed values
//! whose lifetime the host manages; the contract uses a small closed key
//! set: one singleton key for the round state, one for the ticket counter,
//! and a keyed family for individual ticket records. This module models
//! exactly that surface — typed get/set per key plus the explicit
//! retention-extension call — so the state machine above it is verified
//! against the store contract the host provides.

use vstd::prelude::*;

use crate::state::LotteryState;
use crate::state::LotteryTicket;

verus! {

/// Storage key for one ticket record: the per-ticket key family of the
/// store, addressing the record by its 1-based ticket id.
#[derive(Clone, Copy, PartialEq, Eq, Structural, Debug)]
pub enum TicketMap {
    Ticket(u64),
}

impl TicketMap {
    /// The ticket id this key addresses.
    pub open spec fn spec_id(self) -> u64 {
        match self {
            TicketMap::Ticket(id) => id,
        }
    }

    /// Reads the ticket id out of the key.
    pub fn id(&self) -> (id: u64)
        ensures
            id == self.spec_id(),
    {
        match self {
            TicketMap::Ticket(id) => *id,
        }
    }
}

/// A ticket write under id `id`: ids are handed out densely from 1, so a
/// write either overwrites the existing slot or appends right after the
/// last one.
pub open spec fn ticket_written(
    tickets: Seq<LotteryTicket>,
    id: u64,
    ticket: LotteryTicket,
) -> Seq<LotteryTicket>
    recommends
        1 <= id <= tickets.len() + 1,
{
    if id <= tickets.len() {
        tickets.update(id - 1, ticket)
    } else {
        tickets.push(ticket)
    }
}

/// The persistent instance store, modeled value-for-value: the two
/// singleton entries may be absent before the first write, ticket records
/// sit in a dense 1-based slot family, and the retention window is tracked
/// by the policy parameters of the latest extension together with a ghost
/// count of how often it was extended.
pub struct LotteryStore {
    state: Option<LotteryState>,
    ticket_counter: Option<u64>,
    tickets: Vec<LotteryTicket>,
    ttl_threshold: u32,
    ttl_extend_to: u32,
    retention_extensions: Ghost<nat>,
}

impl LotteryStore {
    /// The round-state entry, if one has been written.
    pub closed spec fn state_entry(self) -> Option<LotteryState> {
        self.state
    }

    /// The ticket-counter entry, if one has been written.
    pub closed spec fn counter_entry(self) -> Option<u64> {
        self.ticket_counter
    }

    /// The ticket records, slot `i` holding the record keyed by id `i + 1`.
    pub closed spec fn tickets_entry(self) -> Seq<LotteryTicket> {
        self.tickets@
    }

    /// How often the retention window has been extended.
    pub closed spec fn retention_extensions(self) -> nat {
        self.retention_extensions@
    }

    /// Threshold parameter of the latest retention extension.
    pub closed spec fn ttl_threshold(self) -> u32 {
        self.ttl_threshold
    }

    /// Target parameter of the latest retention extension.
    pub closed spec fn ttl_extend_to(self) -> u32 {
        self.ttl_extend_to
    }

    /// A store in which nothing has ever been persisted.
    pub fn new() -> (s: Self)
        ensures
            s.state_entry() is None,
            s.counter_entry() is None,
            s.tickets_entry() == Seq::<LotteryTicket>::empty(),
            s.retention_extensions() == 0,
    {
        LotteryStore {
            state: None,
            ticket_counter: None,
            tickets: Vec::new(),
            ttl_threshold: 0,
            ttl_extend_to: 0,
            retention_extensions: Ghost(0),
        }
    }

    /// Reads the round-state entry.
    pub fn get_state(&self) -> (r: Option<LotteryState>)
        ensures
            r == self.state_entry(),
    {
        self.state
    }

    /// Upserts the round-state entry.
    pub fn set_state(&mut self, st: LotteryState)
        ensures
            final(self).state_entry() == Some(st),
            final(self).counter_entry() == old(self).counter_entry(),
            final(self).tickets_entry() == old(self).tickets_entry(),
            final(self).retention_extensions() == old(self).retention_extensions(),
            final(self).ttl_threshold() == old(self).ttl_threshold(),
            final(self).ttl_extend_to() == old(self).ttl_extend_to(),
    {
        self.state = Some(st);
    }

    /// Reads the ticket-counter entry.
    pub fn get_ticket_counter(&self) -> (r: Option<u64>)
        ensures
            r == self.counter_entry(),
    {
        self.ticket_counter
    }

    /// Upserts the ticket-counter entry.
    pub fn set_ticket_counter(&mut self, count: u64)
        ensures
            final(self).counter_entry() == Some(count),
            final(self).state_entry() == old(self).state_entry(),
            final(self).tickets_entry() == old(self).tickets_entry(),
            final(self).retention_extensions() == old(self).retention_extensions(),
            final(self).ttl_threshold() == old(self).ttl_threshold(),
            final(self).ttl_extend_to() == old(self).ttl_extend_to(),
    {
        self.ticket_counter = Some(count);
    }

    /// Reads the ticket record under the given key, or reports its absence.
    pub fn get_ticket(&self, key: &TicketMap) -> (r: Option<LotteryTicket>)
        ensures
            r == (if 1 <= key.spec_id() && key.spec_id() <= self.tickets_entry().len() {
                Some(self.tickets_entry()[key.spec_id() - 1])
            } else {
                None::<LotteryTicket>
            }),
    {
        let id = key.id();
        if 1 <= id && id <= self.tickets.len() as u64 {
            Some(self.tickets[(id - 1) as usize])
        } else {
            None
        }
    }

    /// Writes the ticket record under its key. Ids are handed out densely
    /// from 1, so a key at most one past the stored records is the only
    /// shape of write the ledger ever issues.
    pub fn set_ticket(&mut self, key: &TicketMap, ticket: LotteryTicket)
        requires
            1 <= key.spec_id(),
            key.spec_id() <= old(self).tickets_entry().len() + 1,
        ensures
            final(self).tickets_entry() == ticket_written(
                old(self).tickets_entry(),
                key.spec_id(),
                ticket,
            ),
            final(self).state_entry() == old(self).state_entry(),
            final(self).counter_entry() == old(self).counter_entry(),
            final(self).retention_extensions() == old(self).retention_extensions(),
            final(self).ttl_threshold() == old(self).ttl_threshold(),
            final(self).ttl_extend_to() == old(self).ttl_extend_to(),
    {
        let id = key.id();
        let idx = (id - 1) as usize;
        if idx < self.tickets.len() {
            self.tickets.set(idx, ticket);
        } else {
            self.tickets.push(ticket);
        }
    }

    /// Asks the host to keep the store's keys alive for at least the given
    /// window. A liveness mechanism, not a correctness one: the model
    /// records the policy parameters and counts the extensions, so that the
    /// operations can promise an extension on every successful write and
    /// none on a failing one.
    pub fn extend_ttl(&mut self, threshold: u32, extend_to: u32)
        ensures
            final(self).ttl_threshold() == threshold,
            final(self).ttl_extend_to() == extend_to,
            final(self).retention_extensions() == old(self).retention_extensions() + 1,
            final(self).state_entry() == old(self).state_entry(),
            final(self).counter_entry() == old(self).counter_entry(),
            final(self).tickets_entry() == old(self).tickets_entry(),
    {
        self.ttl_threshold = threshold;
        self.ttl_extend_to = extend_to;
        self.retention_extensions = Ghost(self.retention_extensions@ + 1);
    }
}

} // verus!
