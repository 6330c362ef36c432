use signals::state::{calculate_reward, count_winners, get_bet_by_id, get_column_pool};
use signals::{BetId, Error, InitializationArgument, Operation, SignalsApp};

fn new_market(end_time: u64) -> SignalsApp {
    SignalsApp::initialize(InitializationArgument {
        market_id: "market-1".to_string(),
        target_price: 5,
        end_time,
    })
}

fn id(owner: u64, price_level: u64, timestamp: u64) -> BetId {
    BetId { owner, price_level, timestamp }
}

#[test]
fn initialize_establishes_open_market() {
    let app = new_market(1000);
    assert_eq!(app.state.market_id, "market-1");
    assert_eq!(app.state.target_price, 5);
    assert_eq!(app.state.end_time, 1000);
    assert!(!app.state.is_closed);
    assert_eq!(app.state.final_price, None);
    assert!(app.state.bets.is_empty());
    assert!(app.state.column_pools.is_empty());
}

#[test]
fn place_bet_records_bet_and_pool() {
    let mut app = new_market(1000);
    assert_eq!(app.place_bet(1, 5, 42, 100, 10, true), Ok(()));
    assert_eq!(get_column_pool(&app.state, 42), 100);
    assert_eq!(get_column_pool(&app.state, 43), 0);
    let bet = get_bet_by_id(&app.state, id(1, 5, 42)).unwrap();
    assert_eq!(bet.owner, 1);
    assert_eq!(bet.price_level, 5);
    assert_eq!(bet.timestamp, 42);
    assert_eq!(bet.amount, 100);
    assert!(!bet.claimed);
}

#[test]
fn pool_conservation_across_operations() {
    let mut app = new_market(1000);
    assert_eq!(app.place_bet(1, 5, 42, 100, 10, true), Ok(()));
    assert_eq!(app.place_bet(2, 6, 42, 50, 10, true), Ok(()));
    assert_eq!(app.place_bet(3, 5, 99, 70, 10, true), Ok(()));
    // each column pool equals the sum of the amounts staked on it
    assert_eq!(get_column_pool(&app.state, 42), 150);
    assert_eq!(get_column_pool(&app.state, 99), 70);
    // a claim never reduces a pool
    app.close_market(Some(5));
    assert_eq!(app.claim_reward(1, id(1, 5, 42), true), Ok(150));
    assert_eq!(get_column_pool(&app.state, 42), 150);
    assert_eq!(get_column_pool(&app.state, 99), 70);
}

#[test]
fn no_late_bets() {
    let mut app = new_market(1000);
    assert_eq!(app.place_bet(1, 5, 42, 100, 10, true), Ok(()));
    // the deadline has passed: the bet fails and the market auto-closes
    assert_eq!(app.place_bet(2, 5, 42, 100, 1000, true), Err(Error::MarketExpired));
    assert!(app.state.is_closed);
    assert_eq!(app.state.bets.len(), 1);
    assert_eq!(get_column_pool(&app.state, 42), 100);
    // once closed, even a timely-looking bet is rejected up front
    assert_eq!(app.place_bet(2, 5, 42, 100, 10, true), Err(Error::MarketClosed));
}

#[test]
fn duplicate_rejection() {
    let mut app = new_market(1000);
    assert_eq!(app.place_bet(1, 5, 42, 100, 10, true), Ok(()));
    assert_eq!(app.place_bet(1, 5, 42, 25, 20, true), Err(Error::DuplicateBet));
    // the pool reflects only the first bet
    assert_eq!(get_column_pool(&app.state, 42), 100);
    assert_eq!(app.state.bets.len(), 1);
    // a different coordinate of the same owner is a fresh bet
    assert_eq!(app.place_bet(1, 6, 42, 25, 20, true), Ok(()));
    assert_eq!(get_column_pool(&app.state, 42), 125);
}

#[test]
fn idempotent_claim() {
    let mut app = new_market(1000);
    assert_eq!(app.place_bet(1, 5, 42, 100, 10, true), Ok(()));
    app.close_market(None);
    assert_eq!(app.claim_reward(1, id(1, 5, 42), true), Ok(100));
    assert_eq!(app.claim_reward(1, id(1, 5, 42), true), Err(Error::AlreadyClaimed));
    assert!(get_bet_by_id(&app.state, id(1, 5, 42)).unwrap().claimed);
}

#[test]
fn authorization() {
    let mut app = new_market(1000);
    assert_eq!(app.place_bet(1, 5, 42, 100, 10, true), Ok(()));
    app.close_market(None);
    assert_eq!(app.claim_reward(2, id(1, 5, 42), true), Err(Error::NotOwner));
    // no effect: the rightful owner still claims the full reward
    assert!(!get_bet_by_id(&app.state, id(1, 5, 42)).unwrap().claimed);
    assert_eq!(app.claim_reward(1, id(1, 5, 42), true), Ok(100));
}

#[test]
fn order_dependent_scenario() {
    // Three bets of amount 100 at timestamp 42: two at price level 5, one
    // at price level 7. The pool is 300. The first claimant at (5, 42)
    // sees two unclaimed winners and gets 150; the second then sees one
    // and gets the full 300: the payout depends on claim order.
    let mut app = new_market(1000);
    assert_eq!(app.place_bet(1, 5, 42, 100, 10, true), Ok(()));
    assert_eq!(app.place_bet(2, 5, 42, 100, 10, true), Ok(()));
    assert_eq!(app.place_bet(3, 7, 42, 100, 10, true), Ok(()));
    assert_eq!(get_column_pool(&app.state, 42), 300);
    // the market closes because the deadline passed
    let late = app.place_bet(4, 5, 42, 100, 1000, true);
    assert_eq!(late, Err(Error::MarketExpired));
    assert!(app.state.is_closed);

    assert_eq!(count_winners(&app.state, 5, 42), 2);
    assert_eq!(app.claim_reward(1, id(1, 5, 42), true), Ok(150));
    assert_eq!(count_winners(&app.state, 5, 42), 1);
    assert_eq!(app.claim_reward(2, id(2, 5, 42), true), Ok(300));
    // the pool itself never shrank
    assert_eq!(get_column_pool(&app.state, 42), 300);
}

#[test]
fn zero_reward_guard() {
    // A column whose pool is smaller than its winner count floors to a
    // zero reward: the claim fails and the bet stays unclaimed.
    let mut app = new_market(1000);
    app.record_bet(1, 5, 42, 1);
    app.record_bet(2, 5, 42, 0);
    app.record_bet(3, 5, 42, 0);
    app.close_market(None);
    assert_eq!(get_column_pool(&app.state, 42), 1);
    assert_eq!(count_winners(&app.state, 5, 42), 3);
    assert_eq!(app.claim_reward(1, id(1, 5, 42), true), Err(Error::ZeroReward));
    assert!(!get_bet_by_id(&app.state, id(1, 5, 42)).unwrap().claimed);
}

#[test]
fn zero_amount_is_not_transferable() {
    let mut app = new_market(1000);
    assert_eq!(app.place_bet(1, 5, 42, 0, 10, true), Err(Error::TransferFailed));
    assert!(app.state.bets.is_empty());
}

#[test]
fn failed_stake_transfer_commits_nothing() {
    let mut app = new_market(1000);
    assert_eq!(app.place_bet(1, 5, 42, 100, 10, false), Err(Error::TransferFailed));
    assert!(app.state.bets.is_empty());
    assert_eq!(get_column_pool(&app.state, 42), 0);
}

#[test]
fn failed_reward_transfer_commits_nothing() {
    let mut app = new_market(1000);
    assert_eq!(app.place_bet(1, 5, 42, 100, 10, true), Ok(()));
    app.close_market(None);
    assert_eq!(app.claim_reward(1, id(1, 5, 42), false), Err(Error::TransferFailed));
    assert!(!get_bet_by_id(&app.state, id(1, 5, 42)).unwrap().claimed);
    // the claim can be retried once the transfer works
    assert_eq!(app.claim_reward(1, id(1, 5, 42), true), Ok(100));
}

#[test]
fn claim_unknown_bet() {
    let mut app = new_market(1000);
    app.close_market(None);
    assert_eq!(app.claim_reward(1, id(1, 5, 42), true), Err(Error::BetNotFound));
}

#[test]
fn claim_before_close() {
    let mut app = new_market(1000);
    assert_eq!(app.place_bet(1, 5, 42, 100, 10, true), Ok(()));
    assert_eq!(app.claim_reward(1, id(1, 5, 42), true), Err(Error::MarketNotClosed));
}

#[test]
fn claim_checks_in_order() {
    // an already-claimed bet reports AlreadyClaimed even to a non-owner
    let mut app = new_market(1000);
    assert_eq!(app.place_bet(1, 5, 42, 100, 10, true), Ok(()));
    app.close_market(None);
    assert_eq!(app.claim_reward(1, id(1, 5, 42), true), Ok(100));
    assert_eq!(app.claim_reward(2, id(1, 5, 42), true), Err(Error::AlreadyClaimed));
}

#[test]
fn close_market_is_terminal_and_idempotent() {
    let mut app = new_market(1000);
    app.close_market(Some(7));
    assert!(app.state.is_closed);
    assert_eq!(app.state.final_price, Some(7));
    app.close_market(Some(9));
    assert!(app.state.is_closed);
    assert_eq!(app.state.final_price, Some(9));
}

#[test]
fn evaluate_expiry_flips_once_due() {
    let mut app = new_market(1000);
    assert!(!app.evaluate_expiry(999));
    assert!(!app.state.is_closed);
    assert!(app.evaluate_expiry(1000));
    assert!(app.state.is_closed);
    // never reopens
    assert!(app.evaluate_expiry(0));
    assert!(app.state.is_closed);
}

#[test]
fn execute_operation_dispatches() {
    let mut app = new_market(1000);
    let place = Operation::PlaceBet { price_level: 5, timestamp: 42, amount: 100 };
    assert_eq!(app.execute_operation(1, place, 10, true), Ok(()));
    assert_eq!(get_column_pool(&app.state, 42), 100);
    app.close_market(None);
    let claim = Operation::ClaimReward { bet_id: id(1, 5, 42) };
    assert_eq!(app.execute_operation(1, claim, 10, true), Ok(()));
    assert!(get_bet_by_id(&app.state, id(1, 5, 42)).unwrap().claimed);
}

#[test]
fn check_and_record_split_matches_single_shot() {
    let mut app = new_market(1000);
    let admitted = app.check_place_bet(1, 5, 42, 100, 10);
    assert_eq!(admitted, Ok(id(1, 5, 42)));
    // nothing is committed until the stake transfer succeeded
    assert!(app.state.bets.is_empty());
    app.record_bet(1, 5, 42, 100);
    assert_eq!(get_column_pool(&app.state, 42), 100);

    app.close_market(None);
    let owed = app.check_claim_reward(1, id(1, 5, 42));
    assert_eq!(owed, Ok(100));
    assert!(!get_bet_by_id(&app.state, id(1, 5, 42)).unwrap().claimed);
    app.record_claim(id(1, 5, 42));
    assert!(get_bet_by_id(&app.state, id(1, 5, 42)).unwrap().claimed);
}

#[test]
fn calculate_reward_matches_claim_arithmetic() {
    let mut app = new_market(1000);
    assert_eq!(calculate_reward(&app.state, 5, 42), None);
    assert_eq!(app.place_bet(1, 5, 42, 100, 10, true), Ok(()));
    assert_eq!(app.place_bet(2, 5, 42, 100, 10, true), Ok(()));
    assert_eq!(app.place_bet(3, 7, 42, 100, 10, true), Ok(()));
    assert_eq!(calculate_reward(&app.state, 5, 42), Some(150));
    assert_eq!(calculate_reward(&app.state, 7, 42), Some(300));
    assert_eq!(calculate_reward(&app.state, 9, 42), None);
    assert_eq!(calculate_reward(&app.state, 5, 43), None);
}

#[test]
fn winners_share_column_regardless_of_price_level() {
    // winner status is matching-key based, not tied to the resolved price
    let mut app = new_market(1000);
    assert_eq!(app.place_bet(1, 5, 42, 100, 10, true), Ok(()));
    assert_eq!(app.place_bet(2, 7, 42, 200, 10, true), Ok(()));
    app.close_market(Some(5));
    assert_eq!(app.claim_reward(2, id(2, 7, 42), true), Ok(300));
}

#[test]
fn claim_spec_lemmas_hold_at_runtime() {
    // the duplicate-rejection law, exercised through the executable path
    let mut app = new_market(1000);
    assert_eq!(app.place_bet(1, 5, 42, 100, 10, true), Ok(()));
    assert_eq!(app.place_bet(1, 5, 42, 999, 20, true), Err(Error::DuplicateBet));
    app.close_market(None);
    assert_eq!(app.claim_reward(1, id(1, 5, 42), true), Ok(100));
    assert_eq!(app.claim_reward(1, id(1, 5, 42), true), Err(Error::AlreadyClaimed));
}
