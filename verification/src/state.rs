//! Data model of the lottery: account identifiers, the singleton round
//! state, individual ticket records, error conditions, and spec-level
//! descriptions of every state transition.

use vstd::prelude::*;

verus! {

/// Identifier of a participant account, or of the contract itself.
///
/// Account identity is supplied and authenticated by the host; the lottery
/// never inspects an identifier beyond copying and comparing it, so a plain
/// numeric handle models it.
#[derive(Clone, Copy, PartialEq, Eq, Structural, Debug)]
pub struct AccountId {
    pub value: u64,
}

/// One sold ticket. Immutable once written to the store.
#[derive(Clone, Copy, PartialEq, Eq, Structural, Debug)]
pub struct LotteryTicket {
    /// 1-based sequential identifier, unique within a round's ticket ledger.
    pub ticket_id: u64,
    /// The purchasing account.
    pub owner: AccountId,
    /// Ledger time of purchase, supplied by the host clock.
    pub timestamp: u64,
}

/// The singleton round state, overwritten on every mutating operation.
#[derive(Clone, Copy, PartialEq, Eq, Structural, Debug)]
pub struct LotteryState {
    /// Whether ticket sales and draws are permitted.
    pub active: bool,
    /// Number of tickets sold this round; also the upper bound for winner
    /// selection.
    pub ticket_count: u64,
    /// Fixed price per ticket, set at initialization, immutable for the
    /// round.
    pub ticket_price: u64,
    /// Accumulated bookkeeping value; equals `ticket_count * ticket_price`
    /// while the round is active.
    pub pot_amount: u64,
    /// The most recent winner; defaults to the contract's own identifier
    /// when no winner has ever been drawn.
    pub last_winner: AccountId,
    /// Pot value paid to the last winner.
    pub last_win_amount: u64,
}

/// Why an operation was refused. Every failure is reported before any write
/// is issued, so a failing operation leaves the store untouched.
#[derive(Clone, Copy, PartialEq, Eq, Structural, Debug)]
pub enum LotteryError {
    /// A purchase was attempted while the round is closed.
    InactiveLottery,
    /// A draw was attempted while the round is closed or with zero tickets
    /// sold.
    InactiveOrEmptyLottery,
    /// The selected winning id has no corresponding stored ticket; the store
    /// is the source of truth, so the draw aborts.
    TicketNotFound,
}

/// The state written by `initialize`: a fresh, active round at the given
/// ticket price, with the contract's own identifier as placeholder winner.
pub open spec fn initial_state(ticket_price: u64, contract_id: AccountId) -> LotteryState {
    LotteryState {
        active: true,
        ticket_count: 0,
        ticket_price: ticket_price,
        pot_amount: 0,
        last_winner: contract_id,
        last_win_amount: 0,
    }
}

/// The safe zero-value state reported while nothing has been persisted:
/// inactive, all counters zero, the contract's own identifier as placeholder
/// winner.
pub open spec fn empty_state(contract_id: AccountId) -> LotteryState {
    LotteryState {
        active: false,
        ticket_count: 0,
        ticket_price: 0,
        pot_amount: 0,
        last_winner: contract_id,
        last_win_amount: 0,
    }
}

/// Effect of one successful purchase on the round state: the ticket count
/// and the pot grow together, everything else is kept.
pub open spec fn state_after_purchase(st: LotteryState) -> LotteryState {
    LotteryState {
        ticket_count: (st.ticket_count + 1) as u64,
        pot_amount: (st.pot_amount + st.ticket_price) as u64,
        ..st
    }
}

/// Effect of a successful draw on the round state: the round closes, the pot
/// is paid out (as bookkeeping) to the winner, and the ticket records and
/// their count are left untouched.
pub open spec fn state_after_draw(st: LotteryState, winner: AccountId) -> LotteryState {
    LotteryState {
        active: false,
        last_winner: winner,
        last_win_amount: st.pot_amount,
        pot_amount: 0,
        ..st
    }
}

/// Winner selection: a fully deterministic, predictable id in
/// `[1, ticket_count]`, derived from the ledger timestamp. Deliberately not
/// adversary-resistant; isolated here so a stronger source could replace it.
pub open spec fn spec_winning_ticket_id(timestamp: u64, ticket_count: u64) -> u64
    recommends
        ticket_count > 0,
{
    ((timestamp % ticket_count) + 1) as u64
}

/// Computes the winning ticket id for a draw at the given ledger time.
pub fn winning_ticket_id(timestamp: u64, ticket_count: u64) -> (id: u64)
    requires
        ticket_count > 0,
    ensures
        id == spec_winning_ticket_id(timestamp, ticket_count),
        1 <= id <= ticket_count,
{
    (timestamp % ticket_count) + 1
}

} // verus!
