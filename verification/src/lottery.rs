//! The lottery contract: the operations of the round state manager and the
//! ticket ledger, verified against the store model.
//!
//! Every operation takes the store and the host-supplied inputs it consumes
//! (the ledger timestamp, the contract's own identifier) as plain values,
//! validates its preconditions before issuing any write, and extends the
//! store's retention window after every successful write.

use vstd::prelude::*;

use crate::state::AccountId;
use crate::state::LotteryError;
use crate::state::LotteryState;
use crate::state::LotteryTicket;
use crate::state::empty_state;
use crate::state::initial_state;
use crate::state::spec_winning_ticket_id;
use crate::state::state_after_draw;
use crate::state::state_after_purchase;
use crate::state::winning_ticket_id;
use crate::store::LotteryStore;
use crate::store::TicketMap;
use crate::store::ticket_written;

verus! {

/// Retention threshold handed to every extension: a fixed policy choice.
pub const TTL_THRESHOLD: u32 = 5000;

/// Retention target handed to every extension: a fixed policy choice.
pub const TTL_EXTEND_TO: u32 = 5000;

/// The round state an operation observes: the persisted entry, or the safe
/// zero-value state while nothing has been persisted.
pub open spec fn observed_state(s: LotteryStore, contract_id: AccountId) -> LotteryState {
    match s.state_entry() {
        Some(st) => st,
        None => empty_state(contract_id),
    }
}

/// Ticket sales are permitted: a round state is persisted and active.
pub open spec fn sale_open(s: LotteryStore) -> bool {
    s.state_entry() matches Some(st) && st.active
}

/// A draw is permitted: a round state is persisted, active, and at least
/// one ticket has been sold.
pub open spec fn draw_open(s: LotteryStore) -> bool {
    s.state_entry() matches Some(st) && st.active && st.ticket_count > 0
}

/// Agreement between the singleton entries: the ticket counter mirrors the
/// round state's ticket count, and while the round is active the pot equals
/// ticket count times ticket price.
pub open spec fn state_inv(s: LotteryStore) -> bool {
    match s.state_entry() {
        Some(st) => {
            &&& s.counter_entry() == Some(st.ticket_count)
            &&& (st.active ==> st.pot_amount == st.ticket_count * st.ticket_price)
        },
        None => true,
    }
}

/// Agreement between the round state and the ticket records: every id in
/// `[1, ticket_count]` has a stored record, in its slot, carrying its id.
pub open spec fn tickets_inv(s: LotteryStore) -> bool {
    match s.state_entry() {
        Some(st) => {
            &&& st.ticket_count <= s.tickets_entry().len()
            &&& (forall|i: int|
                0 <= i < st.ticket_count ==> (#[trigger] s.tickets_entry()[i]).ticket_id == i + 1)
        },
        None => true,
    }
}

/// A purchase that goes through stays within the machine's integers: one
/// more ticket and one more ticket price still fit in the counters.
pub open spec fn purchase_fits(s: LotteryStore) -> bool {
    sale_open(s) ==> {
        let st = s.state_entry().unwrap();
        &&& st.ticket_count + 1 <= u64::MAX
        &&& st.pot_amount + st.ticket_price <= u64::MAX
    }
}

/// No observable difference between two store values: a failing operation
/// promises this of the store it was handed.
pub open spec fn store_unchanged(pre: LotteryStore, post: LotteryStore) -> bool {
    &&& post.state_entry() == pre.state_entry()
    &&& post.counter_entry() == pre.counter_entry()
    &&& post.tickets_entry() == pre.tickets_entry()
    &&& post.retention_extensions() == pre.retention_extensions()
    &&& post.ttl_threshold() == pre.ttl_threshold()
    &&& post.ttl_extend_to() == pre.ttl_extend_to()
}

/// The numeric effect of one ticket sale, for a host that keeps the round
/// record itself: the grown ticket count and pot, which only ever move
/// together. Refused while the round is closed, before anything is
/// computed.
pub fn purchase_totals(
    active: bool,
    ticket_count: u64,
    ticket_price: u64,
    pot_amount: u64,
) -> (r: Result<(u64, u64), LotteryError>)
    requires
        active ==> ticket_count + 1 <= u64::MAX && pot_amount + ticket_price <= u64::MAX,
    ensures
        r is Ok <==> active,
        (match r {
            Ok(totals) => totals.0 == ticket_count + 1 && totals.1 == pot_amount + ticket_price,
            Err(e) => e == LotteryError::InactiveLottery,
        }),
{
    if !active {
        return Err(LotteryError::InactiveLottery);
    }
    Ok((ticket_count + 1, pot_amount + ticket_price))
}

/// The decision of a draw, for a host that keeps the ticket records itself:
/// the deterministically selected winning ticket id and the amount the
/// winner is owed. Refused while the round is closed or empty.
pub fn draw_selection(
    active: bool,
    ticket_count: u64,
    pot_amount: u64,
    timestamp: u64,
) -> (r: Result<(u64, u64), LotteryError>)
    ensures
        r is Ok <==> active && ticket_count > 0,
        (match r {
            Ok(sel) => sel.0 == spec_winning_ticket_id(timestamp, ticket_count) && sel.1
                == pot_amount,
            Err(e) => e == LotteryError::InactiveOrEmptyLottery,
        }),
{
    if !active || ticket_count == 0 {
        return Err(LotteryError::InactiveOrEmptyLottery);
    }
    Ok((winning_ticket_id(timestamp, ticket_count), pot_amount))
}

/// The lottery contract. All operations are associated functions over the
/// store and the host-supplied inputs, mirroring the entry points the host
/// invokes.
pub struct CryptoLotteryContract;

impl CryptoLotteryContract {
    /// Starts a new round: unconditionally overwrites the round state with
    /// a fresh active state at the given ticket price, resets the ticket
    /// counter, and extends retention. Old ticket records are left in
    /// place; the reset counter makes them unreachable through the new
    /// round and their slots are overwritten as the new round sells.
    pub fn initialize(
        store: &mut LotteryStore,
        contract_id: AccountId,
        ticket_price: u64,
    ) -> (st: LotteryState)
        ensures
            st == initial_state(ticket_price, contract_id),
            final(store).state_entry() == Some(st),
            final(store).counter_entry() == Some(0u64),
            final(store).tickets_entry() == old(store).tickets_entry(),
            final(store).retention_extensions() == old(store).retention_extensions() + 1,
            final(store).ttl_threshold() == TTL_THRESHOLD,
            final(store).ttl_extend_to() == TTL_EXTEND_TO,
            state_inv(*final(store)),
            tickets_inv(*final(store)),
    {
        let state = LotteryState {
            active: true,
            ticket_count: 0,
            ticket_price: ticket_price,
            pot_amount: 0,
            last_winner: contract_id,
            last_win_amount: 0,
        };
        store.set_state(state);
        store.set_ticket_counter(0);
        store.extend_ttl(TTL_THRESHOLD, TTL_EXTEND_TO);
        state
    }

    /// Reads the current round state; never fails. Absence of prior state
    /// is reported as the safe zero-value state.
    pub fn get_lottery_state(store: &LotteryStore, contract_id: AccountId) -> (st: LotteryState)
        ensures
            st == observed_state(*store, contract_id),
    {
        match store.get_state() {
            Some(st) => st,
            None => LotteryState {
                active: false,
                ticket_count: 0,
                ticket_price: 0,
                pot_amount: 0,
                last_winner: contract_id,
                last_win_amount: 0,
            },
        }
    }

    /// Sells one ticket to `buyer` at the given ledger time: assigns the
    /// next sequential ticket id, records the ticket, advances the counter,
    /// grows the round's ticket count and pot together, and extends
    /// retention. Fails while the round is closed, before any write.
    pub fn buy_ticket(
        store: &mut LotteryStore,
        buyer: AccountId,
        timestamp: u64,
    ) -> (r: Result<u64, LotteryError>)
        requires
            state_inv(*old(store)),
            tickets_inv(*old(store)),
            purchase_fits(*old(store)),
        ensures
            state_inv(*final(store)),
            tickets_inv(*final(store)),
            r is Ok <==> sale_open(*old(store)),
            (match r {
                Ok(id) => {
                    let st = old(store).state_entry().unwrap();
                    &&& id == st.ticket_count + 1
                    &&& final(store).state_entry() == Some(state_after_purchase(st))
                    &&& final(store).counter_entry() == Some(id)
                    &&& final(store).tickets_entry() == ticket_written(
                        old(store).tickets_entry(),
                        id,
                        (LotteryTicket { ticket_id: id, owner: buyer, timestamp: timestamp }),
                    )
                    &&& final(store).retention_extensions() == old(store).retention_extensions()
                        + 1
                    &&& final(store).ttl_threshold() == TTL_THRESHOLD
                    &&& final(store).ttl_extend_to() == TTL_EXTEND_TO
                },
                Err(e) => {
                    &&& e == LotteryError::InactiveLottery
                    &&& store_unchanged(*old(store), *final(store))
                },
            }),
    {
        let state_entry = store.get_state();
        let mut state = match state_entry {
            Some(st) => st,
            None => {
                return Err(LotteryError::InactiveLottery);
            },
        };
        if !state.active {
            return Err(LotteryError::InactiveLottery);
        }

        let counter = match store.get_ticket_counter() {
            Some(c) => c,
            None => 0,
        };
        let ticket_id = counter + 1;

        let ticket = LotteryTicket { ticket_id: ticket_id, owner: buyer, timestamp: timestamp };
        store.set_ticket(&TicketMap::Ticket(ticket_id), ticket);
        store.set_ticket_counter(ticket_id);

        proof {
            let c = state.ticket_count as int;
            let p = state.ticket_price as int;
            assert((c + 1) * p == c * p + p) by (nonlinear_arith);
        }
        state.ticket_count = state.ticket_count + 1;
        state.pot_amount = state.pot_amount + state.ticket_price;
        store.set_state(state);

        store.extend_ttl(TTL_THRESHOLD, TTL_EXTEND_TO);
        Ok(ticket_id)
    }

    /// Draws the winner for the round at the given ledger time: selects the
    /// winning ticket id deterministically from the timestamp, looks the
    /// ticket up, closes the round, pays the pot (as bookkeeping) to the
    /// ticket's owner, and extends retention. Fails before any write while
    /// the round is closed or empty, or when the selected ticket is
    /// missing from the store.
    pub fn draw_winner(
        store: &mut LotteryStore,
        timestamp: u64,
    ) -> (r: Result<AccountId, LotteryError>)
        requires
            state_inv(*old(store)),
        ensures
            state_inv(*final(store)),
            tickets_inv(*old(store)) ==> tickets_inv(*final(store)),
            r is Ok <==> (draw_open(*old(store)) && spec_winning_ticket_id(
                timestamp,
                old(store).state_entry().unwrap().ticket_count,
            ) <= old(store).tickets_entry().len()),
            (match r {
                Ok(winner) => {
                    let st = old(store).state_entry().unwrap();
                    let wid = spec_winning_ticket_id(timestamp, st.ticket_count);
                    &&& winner == old(store).tickets_entry()[wid - 1].owner
                    &&& final(store).state_entry() == Some(state_after_draw(st, winner))
                    &&& final(store).counter_entry() == old(store).counter_entry()
                    &&& final(store).tickets_entry() == old(store).tickets_entry()
                    &&& final(store).retention_extensions() == old(store).retention_extensions()
                        + 1
                    &&& final(store).ttl_threshold() == TTL_THRESHOLD
                    &&& final(store).ttl_extend_to() == TTL_EXTEND_TO
                },
                Err(e) => {
                    &&& store_unchanged(*old(store), *final(store))
                    &&& (e == LotteryError::InactiveOrEmptyLottery <==> !draw_open(*old(store)))
                    &&& (e == LotteryError::TicketNotFound <==> (draw_open(*old(store))
                        && spec_winning_ticket_id(
                            timestamp,
                            old(store).state_entry().unwrap().ticket_count,
                        ) > old(store).tickets_entry().len()))
                },
            }),
    {
        let state_entry = store.get_state();
        let mut state = match state_entry {
            Some(st) => st,
            None => {
                return Err(LotteryError::InactiveOrEmptyLottery);
            },
        };
        if !state.active || state.ticket_count == 0 {
            return Err(LotteryError::InactiveOrEmptyLottery);
        }

        let winning_id = winning_ticket_id(timestamp, state.ticket_count);
        let ticket = match store.get_ticket(&TicketMap::Ticket(winning_id)) {
            Some(t) => t,
            None => {
                return Err(LotteryError::TicketNotFound);
            },
        };

        let winner = ticket.owner;
        state.active = false;
        state.last_winner = winner;
        state.last_win_amount = state.pot_amount;
        state.pot_amount = 0;
        store.set_state(state);

        store.extend_ttl(TTL_THRESHOLD, TTL_EXTEND_TO);
        Ok(winner)
    }
}

} // verus!
