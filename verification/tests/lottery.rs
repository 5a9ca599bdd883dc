use crypto_lottery::AccountId;
use crypto_lottery::CryptoLotteryContract;
use crypto_lottery::LotteryError;
use crypto_lottery::LotteryState;
use crypto_lottery::LotteryStore;
use crypto_lottery::TicketMap;
use crypto_lottery::lottery::draw_selection;
use crypto_lottery::lottery::purchase_totals;
use crypto_lottery::state::winning_ticket_id;

fn acct(value: u64) -> AccountId {
    AccountId { value }
}

#[test]
fn uninitialized_state_is_safe_default() {
    let store = LotteryStore::new();
    let contract = acct(1000);
    let st = CryptoLotteryContract::get_lottery_state(&store, contract);
    assert!(!st.active);
    assert_eq!(st.ticket_count, 0);
    assert_eq!(st.ticket_price, 0);
    assert_eq!(st.pot_amount, 0);
    assert_eq!(st.last_winner, contract);
    assert_eq!(st.last_win_amount, 0);
}

#[test]
fn initialize_returns_fresh_active_state() {
    let mut store = LotteryStore::new();
    let contract = acct(1000);
    let st = CryptoLotteryContract::initialize(&mut store, contract, 100);
    assert!(st.active);
    assert_eq!(st.ticket_count, 0);
    assert_eq!(st.ticket_price, 100);
    assert_eq!(st.pot_amount, 0);
    assert_eq!(st.last_winner, contract);
    assert_eq!(st.last_win_amount, 0);
    // The state read back is exactly the state the call wrote.
    let read = CryptoLotteryContract::get_lottery_state(&store, contract);
    assert_eq!(read, st);
}

#[test]
fn initialize_overwrites_prior_round() {
    let mut store = LotteryStore::new();
    let contract = acct(1000);
    CryptoLotteryContract::initialize(&mut store, contract, 100);
    CryptoLotteryContract::buy_ticket(&mut store, acct(1), 3).unwrap();
    CryptoLotteryContract::buy_ticket(&mut store, acct(2), 5).unwrap();
    CryptoLotteryContract::draw_winner(&mut store, 7).unwrap();

    let st = CryptoLotteryContract::initialize(&mut store, contract, 250);
    assert!(st.active);
    assert_eq!(st.ticket_count, 0);
    assert_eq!(st.ticket_price, 250);
    assert_eq!(st.pot_amount, 0);
    assert_eq!(st.last_winner, contract);
    assert_eq!(st.last_win_amount, 0);
    assert_eq!(store.get_ticket_counter(), Some(0));
    let read = CryptoLotteryContract::get_lottery_state(&store, contract);
    assert_eq!(read, st);
}

#[test]
fn purchases_accumulate_counts_and_pot() {
    let mut store = LotteryStore::new();
    let contract = acct(1000);
    CryptoLotteryContract::initialize(&mut store, contract, 100);
    let first = CryptoLotteryContract::buy_ticket(&mut store, acct(1), 3);
    let second = CryptoLotteryContract::buy_ticket(&mut store, acct(2), 5);
    assert_eq!(first, Ok(1));
    assert_eq!(second, Ok(2));
    let st = CryptoLotteryContract::get_lottery_state(&store, contract);
    assert_eq!(st.ticket_count, 2);
    assert_eq!(st.pot_amount, 200);
    assert!(st.active);
    assert_eq!(store.get_ticket_counter(), Some(2));
}

#[test]
fn buy_fails_when_never_initialized() {
    let mut store = LotteryStore::new();
    let contract = acct(1000);
    let r = CryptoLotteryContract::buy_ticket(&mut store, acct(1), 3);
    assert_eq!(r, Err(LotteryError::InactiveLottery));
    // Nothing was written.
    assert_eq!(store.get_ticket_counter(), None);
    assert_eq!(store.get_ticket(&TicketMap::Ticket(1)), None);
    let st = CryptoLotteryContract::get_lottery_state(&store, contract);
    assert!(!st.active);
    assert_eq!(st.ticket_count, 0);
    assert_eq!(st.pot_amount, 0);
}

#[test]
fn buy_fails_after_round_closes() {
    let mut store = LotteryStore::new();
    let contract = acct(1000);
    CryptoLotteryContract::initialize(&mut store, contract, 100);
    CryptoLotteryContract::buy_ticket(&mut store, acct(1), 3).unwrap();
    CryptoLotteryContract::draw_winner(&mut store, 9).unwrap();

    let before = CryptoLotteryContract::get_lottery_state(&store, contract);
    let r = CryptoLotteryContract::buy_ticket(&mut store, acct(2), 11);
    assert_eq!(r, Err(LotteryError::InactiveLottery));
    let after = CryptoLotteryContract::get_lottery_state(&store, contract);
    assert_eq!(after, before);
    assert_eq!(store.get_ticket_counter(), Some(1));
}

#[test]
fn draw_fails_when_never_initialized() {
    let mut store = LotteryStore::new();
    let r = CryptoLotteryContract::draw_winner(&mut store, 7);
    assert_eq!(r, Err(LotteryError::InactiveOrEmptyLottery));
}

#[test]
fn draw_fails_on_empty_round() {
    let mut store = LotteryStore::new();
    let contract = acct(1000);
    CryptoLotteryContract::initialize(&mut store, contract, 100);
    let before = CryptoLotteryContract::get_lottery_state(&store, contract);
    let r = CryptoLotteryContract::draw_winner(&mut store, 7);
    assert_eq!(r, Err(LotteryError::InactiveOrEmptyLottery));
    let after = CryptoLotteryContract::get_lottery_state(&store, contract);
    assert_eq!(after, before);
    assert!(after.active);
}

#[test]
fn draw_fails_after_round_closes() {
    let mut store = LotteryStore::new();
    let contract = acct(1000);
    CryptoLotteryContract::initialize(&mut store, contract, 100);
    CryptoLotteryContract::buy_ticket(&mut store, acct(1), 3).unwrap();
    CryptoLotteryContract::draw_winner(&mut store, 9).unwrap();
    let before = CryptoLotteryContract::get_lottery_state(&store, contract);
    let r = CryptoLotteryContract::draw_winner(&mut store, 10);
    assert_eq!(r, Err(LotteryError::InactiveOrEmptyLottery));
    let after = CryptoLotteryContract::get_lottery_state(&store, contract);
    assert_eq!(after, before);
}

#[test]
fn draw_selects_timestamp_modulo_count() {
    let mut store = LotteryStore::new();
    let contract = acct(1000);
    CryptoLotteryContract::initialize(&mut store, contract, 100);
    CryptoLotteryContract::buy_ticket(&mut store, acct(1), 3).unwrap();
    CryptoLotteryContract::buy_ticket(&mut store, acct(2), 5).unwrap();

    // At timestamp 7 with two tickets the winning id is (7 % 2) + 1 == 2.
    let winner = CryptoLotteryContract::draw_winner(&mut store, 7);
    assert_eq!(winner, Ok(acct(2)));

    let st = CryptoLotteryContract::get_lottery_state(&store, contract);
    assert!(!st.active);
    assert_eq!(st.pot_amount, 0);
    assert_eq!(st.last_win_amount, 200);
    assert_eq!(st.last_winner, acct(2));
    // Ticket records and their count are left untouched.
    assert_eq!(st.ticket_count, 2);
    assert_eq!(store.get_ticket_counter(), Some(2));
    assert_eq!(store.get_ticket(&TicketMap::Ticket(1)).unwrap().owner, acct(1));
    assert_eq!(store.get_ticket(&TicketMap::Ticket(2)).unwrap().owner, acct(2));
}

#[test]
fn draw_reports_missing_ticket() {
    let mut store = LotteryStore::new();
    // A store whose round state promises tickets that were never written:
    // the store is the source of truth, so the draw aborts without writing.
    let state = LotteryState {
        active: true,
        ticket_count: 5,
        ticket_price: 10,
        pot_amount: 50,
        last_winner: acct(1000),
        last_win_amount: 0,
    };
    store.set_state(state);
    store.set_ticket_counter(5);
    let r = CryptoLotteryContract::draw_winner(&mut store, 3);
    assert_eq!(r, Err(LotteryError::TicketNotFound));
    let after = CryptoLotteryContract::get_lottery_state(&store, acct(1000));
    assert_eq!(after, state);
}

#[test]
fn winning_id_stays_in_range() {
    assert_eq!(winning_ticket_id(7, 2), 2);
    assert_eq!(winning_ticket_id(0, 5), 1);
    assert_eq!(winning_ticket_id(12, 5), 3);
    assert_eq!(winning_ticket_id(u64::MAX, 1), 1);
    assert_eq!(winning_ticket_id(4, 5), 5);
}

#[test]
fn tickets_are_recorded_under_their_ids() {
    let mut store = LotteryStore::new();
    let contract = acct(1000);
    CryptoLotteryContract::initialize(&mut store, contract, 100);
    CryptoLotteryContract::buy_ticket(&mut store, acct(5), 42).unwrap();

    let ticket = store.get_ticket(&TicketMap::Ticket(1)).unwrap();
    assert_eq!(ticket.ticket_id, 1);
    assert_eq!(ticket.owner, acct(5));
    assert_eq!(ticket.timestamp, 42);
    assert_eq!(store.get_ticket(&TicketMap::Ticket(0)), None);
    assert_eq!(store.get_ticket(&TicketMap::Ticket(2)), None);
}

#[test]
fn new_round_overwrites_old_ticket_slots() {
    let mut store = LotteryStore::new();
    let contract = acct(1000);
    CryptoLotteryContract::initialize(&mut store, contract, 100);
    CryptoLotteryContract::buy_ticket(&mut store, acct(1), 3).unwrap();
    CryptoLotteryContract::buy_ticket(&mut store, acct(2), 5).unwrap();

    // A new round restarts ids from 1; its sales overwrite the old round's
    // slots, while slots past the new counter keep the old records.
    CryptoLotteryContract::initialize(&mut store, contract, 100);
    let id = CryptoLotteryContract::buy_ticket(&mut store, acct(3), 8).unwrap();
    assert_eq!(id, 1);
    assert_eq!(store.get_ticket_counter(), Some(1));
    assert_eq!(store.get_ticket(&TicketMap::Ticket(1)).unwrap().owner, acct(3));
    assert_eq!(store.get_ticket(&TicketMap::Ticket(2)).unwrap().owner, acct(2));
}

#[test]
fn purchase_totals_grow_together() {
    assert_eq!(purchase_totals(true, 2, 100, 200), Ok((3, 300)));
    assert_eq!(purchase_totals(false, 2, 100, 200), Err(LotteryError::InactiveLottery));
}

#[test]
fn draw_selection_follows_the_clock() {
    assert_eq!(draw_selection(true, 2, 200, 7), Ok((2, 200)));
    assert_eq!(draw_selection(true, 5, 50, 12), Ok((3, 50)));
    assert_eq!(draw_selection(false, 2, 200, 7), Err(LotteryError::InactiveOrEmptyLottery));
    assert_eq!(draw_selection(true, 0, 0, 7), Err(LotteryError::InactiveOrEmptyLottery));
}

#[test]
fn free_round_keeps_pot_at_zero() {
    let mut store = LotteryStore::new();
    let contract = acct(1000);
    CryptoLotteryContract::initialize(&mut store, contract, 0);
    CryptoLotteryContract::buy_ticket(&mut store, acct(1), 3).unwrap();
    CryptoLotteryContract::buy_ticket(&mut store, acct(2), 5).unwrap();
    let st = CryptoLotteryContract::get_lottery_state(&store, contract);
    assert_eq!(st.ticket_count, 2);
    assert_eq!(st.pot_amount, 0);
    let winner = CryptoLotteryContract::draw_winner(&mut store, 4);
    assert_eq!(winner, Ok(acct(1)));
    let st = CryptoLotteryContract::get_lottery_state(&store, contract);
    assert_eq!(st.last_win_amount, 0);
}
