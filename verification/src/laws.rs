//! Properties of the lottery that span several operations, stated and
//! proved once over the same spec functions the operations' contracts use.

use vstd::prelude::*;

use crate::lottery::draw_open;
use crate::lottery::observed_state;
use crate::lottery::tickets_inv;
use crate::state::AccountId;
use crate::state::LotteryState;
use crate::state::initial_state;
use crate::state::spec_winning_ticket_id;
use crate::state::state_after_purchase;
use crate::store::LotteryStore;

verus! {

/// The round state after an initialization at `ticket_price` followed by
/// `n` successful purchases, as the operations' contracts describe it.
pub open spec fn state_after_purchases(
    ticket_price: u64,
    contract_id: AccountId,
    n: nat,
) -> LotteryState
    decreases n,
{
    if n == 0 {
        initial_state(ticket_price, contract_id)
    } else {
        state_after_purchase(state_after_purchases(ticket_price, contract_id, (n - 1) as nat))
    }
}

/// The ticket id issued by purchase number `k + 1` of such a run: one past
/// the ticket count the purchase starts from.
pub open spec fn issued_ticket_id(ticket_price: u64, contract_id: AccountId, k: nat) -> int {
    state_after_purchases(ticket_price, contract_id, k).ticket_count + 1
}

/// Law: across every run of successful purchases in a freshly initialized
/// round, the ticket count climbs one per purchase, the pot holds exactly
/// ticket count times ticket price, the round stays active at its price,
/// and the issued ticket ids are exactly `1` through `n`, in order and
/// without repeats.
pub proof fn lemma_purchases_accumulate(ticket_price: u64, contract_id: AccountId, n: nat)
    requires
        n <= u64::MAX,
        n * ticket_price <= u64::MAX,
    ensures
        state_after_purchases(ticket_price, contract_id, n).active,
        state_after_purchases(ticket_price, contract_id, n).ticket_count == n,
        state_after_purchases(ticket_price, contract_id, n).pot_amount == n * ticket_price,
        state_after_purchases(ticket_price, contract_id, n).ticket_price == ticket_price,
        state_after_purchases(ticket_price, contract_id, n).last_winner == contract_id,
        state_after_purchases(ticket_price, contract_id, n).last_win_amount == 0,
        forall|k: nat|
            k < n ==> #[trigger] issued_ticket_id(ticket_price, contract_id, k) == k + 1,
    decreases n,
{
    if n > 0 {
        let m = (n - 1) as nat;
        assert(m * ticket_price <= n * ticket_price) by (nonlinear_arith)
            requires
                m <= n,
        ;
        lemma_purchases_accumulate(ticket_price, contract_id, m);
        assert(n * ticket_price == m * ticket_price + ticket_price) by (nonlinear_arith)
            requires
                n == m + 1,
        ;
        let prev = state_after_purchases(ticket_price, contract_id, m);
        assert(state_after_purchases(ticket_price, contract_id, n) == state_after_purchase(prev));
        assert(prev.pot_amount + ticket_price <= u64::MAX);
        assert(state_after_purchase(prev).pot_amount == prev.pot_amount + ticket_price);
        assert forall|k: nat|
            k < n implies #[trigger] issued_ticket_id(ticket_price, contract_id, k) == k
            + 1 by {
            if k == m {
                assert(state_after_purchases(ticket_price, contract_id, k).ticket_count == k);
            }
        }
    } else {
        assert(n * ticket_price == 0) by (nonlinear_arith)
            requires
                n == 0,
        ;
    }
}

/// Law: under the ledger invariant a permitted draw never aborts with a
/// missing ticket — the winning id always addresses a stored record, so
/// the only way a draw fails is a closed or empty round.
pub proof fn lemma_draw_finds_ticket(s: LotteryStore, timestamp: u64)
    requires
        tickets_inv(s),
        draw_open(s),
    ensures
        spec_winning_ticket_id(timestamp, s.state_entry().unwrap().ticket_count)
            <= s.tickets_entry().len(),
{
}

/// Law: reading the round state back immediately after a write observes
/// exactly the written state, whatever identifier the reader supplies for
/// the uninitialized default.
pub proof fn lemma_state_read_back(s: LotteryStore, contract_id: AccountId, st: LotteryState)
    requires
        s.state_entry() == Some(st),
    ensures
        observed_state(s, contract_id) == st,
{
}

} // verus!
