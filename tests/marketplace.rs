use anchor_lang::prelude::Pubkey;
use anchor_lang::solana_program::rent::Rent;
use auction_house::delegation::{authorize, update_auctioneer};
use auction_house::escrow::{deposit, withdraw};
use auction_house::key::{program_key, Key};
use auction_house::market::Market;
use auction_house::pda::{
    find_auction_house_address, find_auctioneer_address, find_auctioneer_trade_state_address,
    find_escrow_payment_account_address, find_metadata_account, find_public_trade_state_address,
    find_trade_state_address,
};
use auction_house::sale::{execute_sale, fee_split};
use auction_house::state::{AuctionHouse, AuctionHouseError, Auctioneer, FeeSplit, Settlement, TokenHolding};
use auction_house::trade::{auctioneer_bid_logic, buy, cancel, sell};

const ONE_SOL: u64 = 1_000_000_000;

fn native_mint() -> Key {
    Key::new(spl_token::native_mint::id().to_bytes())
}

fn operator() -> Key {
    Key::new([1; 32])
}

fn delegate() -> Key {
    Key::new([2; 32])
}

fn buyer() -> Key {
    Key::new([3; 32])
}

fn seller() -> Key {
    Key::new([4; 32])
}

fn token_account() -> Key {
    Key::new([5; 32])
}

fn token_mint() -> Key {
    Key::new([6; 32])
}

fn holding() -> TokenHolding {
    TokenHolding { address: token_account(), mint: token_mint(), owner: seller(), amount: 1 }
}

fn metadata() -> Key {
    find_metadata_account(&token_mint()).unwrap().0
}

fn rent_floor() -> u64 {
    Rent::default().minimum_balance(0)
}

fn new_market(seller_fee_basis_points: u16, treasury_mint: Key) -> Market {
    let zero = Key::new([0; 32]);
    let (house_key, bump) = find_auction_house_address(&operator(), &treasury_mint).unwrap();
    let house = AuctionHouse {
        auction_house_fee_account: zero,
        auction_house_treasury: zero,
        treasury_withdrawal_destination: zero,
        fee_withdrawal_destination: zero,
        treasury_mint,
        authority: operator(),
        creator: operator(),
        bump,
        treasury_bump: 0,
        fee_payer_bump: 0,
        seller_fee_basis_points,
        can_change_sale_price: false,
        escrow_payment_bump: 0,
        has_auctioneer: false,
        auctioneer_address: zero,
    };
    let record = Auctioneer { auctioneer_authority: zero, auction_house: zero, bump: 0 };
    Market::new(house, house_key, record, rent_floor())
}

fn delegated_market(seller_fee_basis_points: u16) -> Market {
    let mut market = new_market(seller_fee_basis_points, native_mint());
    authorize(&mut market, &operator(), &delegate()).unwrap();
    market
}

fn escrow_of(market: &Market, wallet: &Key) -> (Key, u8) {
    find_escrow_payment_account_address(&market.house_key(), wallet).unwrap()
}

fn bid_address(market: &Market, wallet: &Key, price: u64) -> (Key, u8) {
    find_trade_state_address(
        wallet,
        &market.house_key(),
        &token_account(),
        &native_mint(),
        &token_mint(),
        price,
        1,
    )
    .unwrap()
}

fn place_bid(market: &mut Market, price: u64) -> Result<u64, AuctionHouseError> {
    let (_, escrow_bump) = escrow_of(market, &buyer());
    let (_, ts_bump) = bid_address(market, &buyer(), price);
    buy(market, &buyer(), &buyer(), &delegate(), &holding(), &metadata(), ts_bump, escrow_bump, price, 1)
}

fn place_listing(market: &mut Market) -> Key {
    let (address, bump) = find_auctioneer_trade_state_address(
        &seller(),
        &market.house_key(),
        &native_mint(),
        &token_mint(),
        1,
    )
    .unwrap();
    sell(market, &seller(), &delegate(), &holding(), bump, 1).unwrap();
    address
}

#[test]
fn deposit_success() {
    let mut market = delegated_market(100);
    let (escrow, escrow_bump) = escrow_of(&market, &buyer());
    let moved = deposit(&mut market, &buyer(), &delegate(), escrow_bump, ONE_SOL).unwrap();
    let rent_exempt_min: u64 = Rent::default().minimum_balance(0);
    assert_eq!(moved, ONE_SOL + rent_exempt_min);
    assert_eq!(market.escrow_balance(&escrow), ONE_SOL + rent_exempt_min);
}

#[test]
fn sell_success() {
    let mut market = delegated_market(100);
    let address = place_listing(&mut market);
    let (_, bump) = find_auctioneer_trade_state_address(
        &seller(),
        &market.house_key(),
        &native_mint(),
        &token_mint(),
        1,
    )
    .unwrap();
    assert_eq!(market.trade_state(&address), Some(bump));
}

#[test]
fn derivations_match_the_runtime() {
    let (house_key, bump) = find_auction_house_address(&operator(), &native_mint()).unwrap();
    let program = Pubkey::new_from_array(program_key().bytes);
    let operator_key = Pubkey::new_from_array(operator().bytes);
    let (expected, expected_bump) = Pubkey::find_program_address(
        &[b"auction_house", operator_key.as_ref(), spl_token::native_mint::id().as_ref()],
        &program,
    );
    assert_eq!(house_key.bytes, expected.to_bytes());
    assert_eq!(bump, expected_bump);

    let wallet = Pubkey::new_from_array(buyer().bytes);
    let (ts, ts_bump) = find_trade_state_address(
        &buyer(),
        &house_key,
        &token_account(),
        &native_mint(),
        &token_mint(),
        7,
        1,
    )
    .unwrap();
    let (expected, expected_bump) = Pubkey::find_program_address(
        &[
            b"auction_house",
            wallet.as_ref(),
            expected.as_ref(),
            &token_account().bytes,
            spl_token::native_mint::id().as_ref(),
            &token_mint().bytes,
            &7u64.to_le_bytes(),
            &1u64.to_le_bytes(),
        ],
        &program,
    );
    assert_eq!(ts.bytes, expected.to_bytes());
    assert_eq!(ts_bump, expected_bump);
}

#[test]
fn derivation_is_deterministic_and_price_bound() {
    let house_key = Key::new([9; 32]);
    let a = find_trade_state_address(&buyer(), &house_key, &token_account(), &native_mint(), &token_mint(), 5, 1)
        .unwrap();
    let b = find_trade_state_address(&buyer(), &house_key, &token_account(), &native_mint(), &token_mint(), 5, 1)
        .unwrap();
    let c = find_trade_state_address(&buyer(), &house_key, &token_account(), &native_mint(), &token_mint(), 6, 1)
        .unwrap();
    let d = find_public_trade_state_address(&buyer(), &house_key, &native_mint(), &token_mint(), 5, 1).unwrap();
    assert!(a.0.equals(&b.0));
    assert_eq!(a.1, b.1);
    assert!(!a.0.equals(&c.0));
    assert!(!a.0.equals(&d.0));
}

#[test]
fn fee_of_two_and_a_half_percent() {
    assert_eq!(fee_split(100, 250), Ok(FeeSplit { fee: 2, net_to_seller: 98 }));
}

#[test]
fn fee_edges() {
    assert_eq!(fee_split(0, 10000), Ok(FeeSplit { fee: 0, net_to_seller: 0 }));
    assert_eq!(fee_split(1000, 0), Ok(FeeSplit { fee: 0, net_to_seller: 1000 }));
    assert_eq!(fee_split(1000, 10000), Ok(FeeSplit { fee: 1000, net_to_seller: 0 }));
    assert_eq!(fee_split(u64::MAX, 10000), Ok(FeeSplit { fee: u64::MAX, net_to_seller: 0 }));
    assert_eq!(
        fee_split(u64::MAX, 5000),
        Ok(FeeSplit { fee: u64::MAX / 2, net_to_seller: u64::MAX - u64::MAX / 2 })
    );
    assert_eq!(fee_split(1000, 10010), Err(AuctionHouseError::NumericalOverflow));
}

#[test]
fn custom_asset_has_no_floor() {
    let market = new_market(100, Key::new([8; 32]));
    assert_eq!(market.escrow_floor(), 0);
    let native = new_market(100, native_mint());
    assert_eq!(native.escrow_floor(), rent_floor());
}

#[test]
fn delegation_gate_refuses_every_operation() {
    let mut market = new_market(100, native_mint());
    let (escrow, escrow_bump) = escrow_of(&market, &buyer());
    assert_eq!(
        deposit(&mut market, &buyer(), &delegate(), escrow_bump, ONE_SOL),
        Err(AuctionHouseError::NoAuctioneerProgramSet)
    );
    assert_eq!(
        withdraw(&mut market, &buyer(), &delegate(), escrow_bump, 1),
        Err(AuctionHouseError::NoAuctioneerProgramSet)
    );
    assert_eq!(place_bid(&mut market, 10), Err(AuctionHouseError::NoAuctioneerProgramSet));
    assert_eq!(
        sell(&mut market, &seller(), &delegate(), &holding(), 255, 1),
        Err(AuctionHouseError::NoAuctioneerProgramSet)
    );
    assert_eq!(
        cancel(&mut market, &buyer(), &delegate(), &holding(), &escrow, 10, 1),
        Err(AuctionHouseError::NoAuctioneerProgramSet)
    );
    assert_eq!(
        execute_sale(
            &mut market,
            &buyer(),
            &seller(),
            &delegate(),
            &holding(),
            &escrow,
            &escrow,
            escrow_bump,
            10,
            1,
            false,
        ),
        Err(AuctionHouseError::NoAuctioneerProgramSet)
    );
    assert_eq!(market.escrow_balance(&escrow), 0);
    assert_eq!(
        update_auctioneer(&mut market, &operator(), &delegate()),
        Err(AuctionHouseError::AuctionHouseNotDelegated)
    );
}

#[test]
fn only_the_operator_delegates() {
    let mut market = new_market(100, native_mint());
    assert_eq!(authorize(&mut market, &buyer(), &delegate()), Err(AuctionHouseError::PublicKeyMismatch));
    assert!(!market.house().has_auctioneer);
    authorize(&mut market, &operator(), &delegate()).unwrap();
    let (address, bump) = find_auctioneer_address(&market.house_key(), &delegate()).unwrap();
    assert!(market.house().has_auctioneer);
    assert!(market.house().auctioneer_address.equals(&address));
    assert_eq!(market.auctioneer().bump, bump);
    assert!(market.auctioneer().auctioneer_authority.equals(&delegate()));
    assert_eq!(update_auctioneer(&mut market, &buyer(), &seller()), Err(AuctionHouseError::PublicKeyMismatch));
}

#[test]
fn repointed_delegation_refuses_the_old_authority() {
    let mut market = delegated_market(100);
    let other = Key::new([7; 32]);
    update_auctioneer(&mut market, &operator(), &other).unwrap();
    let (_, escrow_bump) = escrow_of(&market, &buyer());
    assert_eq!(
        deposit(&mut market, &buyer(), &delegate(), escrow_bump, 5),
        Err(AuctionHouseError::AuctionHouseNotDelegated)
    );
    assert!(deposit(&mut market, &buyer(), &other, escrow_bump, 5).is_ok());
}

#[test]
fn bid_twice_is_one_trade_state() {
    let mut market = delegated_market(100);
    let (escrow, _) = escrow_of(&market, &buyer());
    let (ts, ts_bump) = bid_address(&market, &buyer(), ONE_SOL);
    assert_eq!(place_bid(&mut market, ONE_SOL), Ok(ONE_SOL + rent_floor()));
    assert_eq!(place_bid(&mut market, ONE_SOL), Ok(0));
    assert_eq!(market.trade_state(&ts), Some(ts_bump));
    assert_eq!(market.escrow_balance(&escrow), ONE_SOL + rent_floor());
}

#[test]
fn sell_twice_is_one_trade_state() {
    let mut market = delegated_market(100);
    let first = place_listing(&mut market);
    let second = place_listing(&mut market);
    assert!(first.equals(&second));
    assert!(market.trade_state(&first).is_some());
}

#[test]
fn non_canonical_bumps_are_refused() {
    let mut market = delegated_market(100);
    let (escrow, escrow_bump) = escrow_of(&market, &buyer());
    let (ts, ts_bump) = bid_address(&market, &buyer(), 10);
    let wrong = ts_bump.wrapping_sub(1);
    assert_eq!(
        buy(&mut market, &buyer(), &buyer(), &delegate(), &holding(), &metadata(), wrong, escrow_bump, 10, 1),
        Err(AuctionHouseError::InvalidTradeStateAddress)
    );
    assert_eq!(
        buy(
            &mut market,
            &buyer(),
            &buyer(),
            &delegate(),
            &holding(),
            &metadata(),
            ts_bump,
            escrow_bump.wrapping_sub(1),
            10,
            1,
        ),
        Err(AuctionHouseError::BumpSeedNotInHashMap)
    );
    assert_eq!(market.trade_state(&ts), None);
    assert_eq!(market.escrow_balance(&escrow), 0);
}

#[test]
fn public_bid_uses_the_open_address() {
    let mut market = delegated_market(100);
    let (_, escrow_bump) = escrow_of(&market, &buyer());
    let (ts, ts_bump) =
        find_public_trade_state_address(&buyer(), &market.house_key(), &native_mint(), &token_mint(), 10, 1).unwrap();
    let moved = auctioneer_bid_logic(
        &mut market,
        &buyer(),
        &buyer(),
        &delegate(),
        &holding(),
        &metadata(),
        ts_bump,
        escrow_bump,
        10,
        1,
        true,
    );
    assert_eq!(moved, Ok(10 + rent_floor()));
    assert_eq!(market.trade_state(&ts), Some(ts_bump));
    let other_holding = TokenHolding { address: Key::new([11; 32]), ..holding() };
    cancel(&mut market, &buyer(), &delegate(), &other_holding, &ts, 10, 1).unwrap();
    assert_eq!(market.trade_state(&ts), None);
}

#[test]
fn cancel_then_rebid() {
    let mut market = delegated_market(100);
    let (escrow, _) = escrow_of(&market, &buyer());
    let (ts, ts_bump) = bid_address(&market, &buyer(), 500);
    place_bid(&mut market, 500).unwrap();
    cancel(&mut market, &buyer(), &delegate(), &holding(), &ts, 500, 1).unwrap();
    assert_eq!(market.trade_state(&ts), None);
    assert_eq!(market.escrow_balance(&escrow), 500 + rent_floor());
    assert_eq!(place_bid(&mut market, 500), Ok(0));
    assert_eq!(market.trade_state(&ts), Some(ts_bump));
}

#[test]
fn cancel_needs_a_matching_trade_state() {
    let mut market = delegated_market(100);
    let (ts, _) = bid_address(&market, &buyer(), 500);
    assert_eq!(
        cancel(&mut market, &buyer(), &delegate(), &holding(), &ts, 500, 1),
        Err(AuctionHouseError::InvalidTradeStateAddress)
    );
    place_bid(&mut market, 500).unwrap();
    assert_eq!(
        cancel(&mut market, &buyer(), &delegate(), &holding(), &ts, 501, 1),
        Err(AuctionHouseError::InvalidTradeStateAddress)
    );
    assert!(market.trade_state(&ts).is_some());
}

#[test]
fn deposit_bid_withdraw_scenario() {
    let mut market = delegated_market(100);
    let (escrow, escrow_bump) = escrow_of(&market, &buyer());
    assert_eq!(deposit(&mut market, &buyer(), &delegate(), escrow_bump, 2 * ONE_SOL), Ok(2 * ONE_SOL + rent_floor()));
    assert_eq!(place_bid(&mut market, ONE_SOL), Ok(0));
    assert_eq!(place_bid(&mut market, ONE_SOL), Ok(0));
    assert_eq!(market.escrow_balance(&escrow), 2 * ONE_SOL + rent_floor());
    assert_eq!(
        withdraw(&mut market, &buyer(), &delegate(), escrow_bump, 2 * ONE_SOL + 1),
        Err(AuctionHouseError::NotEnoughBalance)
    );
    assert_eq!(withdraw(&mut market, &buyer(), &delegate(), escrow_bump, ONE_SOL), Ok(ONE_SOL));
    assert_eq!(market.escrow_balance(&escrow), ONE_SOL + rent_floor());
}

#[test]
fn withdraw_keeps_the_floor() {
    let mut market = delegated_market(100);
    let (escrow, escrow_bump) = escrow_of(&market, &buyer());
    deposit(&mut market, &buyer(), &delegate(), escrow_bump, 100).unwrap();
    assert_eq!(
        withdraw(&mut market, &buyer(), &delegate(), escrow_bump, 101),
        Err(AuctionHouseError::NotEnoughBalance)
    );
    assert_eq!(withdraw(&mut market, &buyer(), &delegate(), escrow_bump, 100), Ok(100));
    assert_eq!(market.escrow_balance(&escrow), rent_floor());
    assert_eq!(
        withdraw(&mut market, &buyer(), &delegate(), escrow_bump, rent_floor()),
        Err(AuctionHouseError::NotEnoughBalance)
    );
}

#[test]
fn deposit_overflow_is_refused() {
    let mut market = delegated_market(100);
    let (escrow, escrow_bump) = escrow_of(&market, &buyer());
    deposit(&mut market, &buyer(), &delegate(), escrow_bump, 10).unwrap();
    assert_eq!(
        deposit(&mut market, &buyer(), &delegate(), escrow_bump, u64::MAX),
        Err(AuctionHouseError::NumericalOverflow)
    );
    assert_eq!(market.escrow_balance(&escrow), 10 + rent_floor());
    assert_eq!(place_bid(&mut market, u64::MAX), Err(AuctionHouseError::NumericalOverflow));
}

#[test]
fn execute_sale_splits_the_price() {
    let mut market = delegated_market(250);
    let (escrow, escrow_bump) = escrow_of(&market, &buyer());
    let (buyer_ts, _) = bid_address(&market, &buyer(), 100);
    place_bid(&mut market, 100).unwrap();
    let seller_ts = place_listing(&mut market);
    let split = execute_sale(
        &mut market,
        &buyer(),
        &seller(),
        &delegate(),
        &holding(),
        &buyer_ts,
        &seller_ts,
        escrow_bump,
        100,
        1,
        false,
    );
    assert_eq!(split, Ok(Settlement { fee: 2, net_to_seller: 98, token_amount: 1, close_seller_holding: false }));
    assert_eq!(market.escrow_balance(&escrow), rent_floor());
    assert_eq!(market.trade_state(&buyer_ts), None);
    assert_eq!(market.trade_state(&seller_ts), None);
}

#[test]
fn execute_sale_needs_funds_and_both_sides() {
    let mut market = delegated_market(250);
    let (escrow, escrow_bump) = escrow_of(&market, &buyer());
    let (buyer_ts, _) = bid_address(&market, &buyer(), 100);
    place_bid(&mut market, 100).unwrap();
    let (seller_ts, _) = find_auctioneer_trade_state_address(
        &seller(),
        &market.house_key(),
        &native_mint(),
        &token_mint(),
        1,
    )
    .unwrap();
    let attempt = |market: &mut Market, price: u64| {
        execute_sale(
            market,
            &buyer(),
            &seller(),
            &delegate(),
            &holding(),
            &buyer_ts,
            &seller_ts,
            escrow_bump,
            price,
            1,
            false,
        )
    };
    assert_eq!(attempt(&mut market, 100), Err(AuctionHouseError::InvalidTradeStateAddress));
    place_listing(&mut market);
    withdraw(&mut market, &buyer(), &delegate(), escrow_bump, 1).unwrap();
    assert_eq!(attempt(&mut market, 100), Err(AuctionHouseError::NotEnoughBalance));
    assert_eq!(market.escrow_balance(&escrow), 99 + rent_floor());
    assert!(market.trade_state(&buyer_ts).is_some());
    assert!(market.trade_state(&seller_ts).is_some());
}

#[test]
fn sell_needs_the_sellers_units() {
    let mut market = delegated_market(100);
    let (_, bump) = find_auctioneer_trade_state_address(
        &seller(),
        &market.house_key(),
        &native_mint(),
        &token_mint(),
        1,
    )
    .unwrap();
    assert_eq!(
        sell(&mut market, &buyer(), &delegate(), &holding(), bump, 1),
        Err(AuctionHouseError::PublicKeyMismatch)
    );
    assert_eq!(
        sell(&mut market, &seller(), &delegate(), &holding(), bump, 2),
        Err(AuctionHouseError::InvalidTokenAmount)
    );
    assert_eq!(
        sell(&mut market, &seller(), &delegate(), &holding(), bump, 0),
        Err(AuctionHouseError::InvalidTokenAmount)
    );
    assert_eq!(
        sell(&mut market, &seller(), &delegate(), &holding(), bump.wrapping_sub(1), 1),
        Err(AuctionHouseError::InvalidTradeStateAddress)
    );
}

#[test]
fn execute_sale_needs_the_units_still_held() {
    let mut market = delegated_market(250);
    let (_, escrow_bump) = escrow_of(&market, &buyer());
    let (buyer_ts, _) = bid_address(&market, &buyer(), 100);
    place_bid(&mut market, 100).unwrap();
    let seller_ts = place_listing(&mut market);
    let emptied = TokenHolding { amount: 0, ..holding() };
    let moved_away = TokenHolding { owner: buyer(), ..holding() };
    let attempt = |market: &mut Market, held: &TokenHolding| {
        execute_sale(
            market,
            &buyer(),
            &seller(),
            &delegate(),
            held,
            &buyer_ts,
            &seller_ts,
            escrow_bump,
            100,
            1,
            false,
        )
    };
    assert_eq!(attempt(&mut market, &emptied), Err(AuctionHouseError::InvalidTokenAmount));
    assert_eq!(attempt(&mut market, &moved_away), Err(AuctionHouseError::PublicKeyMismatch));
    assert!(attempt(&mut market, &holding()).is_ok());
}

#[test]
fn metadata_account_matches_the_runtime() {
    let program = Pubkey::new_from_array([
        11, 112, 101, 177, 227, 209, 124, 69, 56, 157, 82, 127, 107, 4, 195, 205, 88, 184, 108, 115, 26, 160, 253,
        181, 73, 182, 209, 188, 3, 248, 41, 70,
    ]);
    assert_eq!(program.to_string(), "metaqbxxUerdq28cj1RbAWkYQm3ybzjb6a8bt518x1s");
    let (expected, _) = Pubkey::find_program_address(&[b"metadata", program.as_ref(), &token_mint().bytes], &program);
    assert_eq!(metadata().bytes, expected.to_bytes());
}

#[test]
fn listing_address_leaves_out_the_holding() {
    let house_key = Key::new([9; 32]);
    let (listing, bump) =
        find_auctioneer_trade_state_address(&seller(), &house_key, &native_mint(), &token_mint(), 1).unwrap();
    let (open, open_bump) =
        find_public_trade_state_address(&seller(), &house_key, &native_mint(), &token_mint(), u64::MAX, 1).unwrap();
    assert!(listing.equals(&open));
    assert_eq!(bump, open_bump);
    let (bound, _) =
        find_trade_state_address(&seller(), &house_key, &token_account(), &native_mint(), &token_mint(), u64::MAX, 1)
            .unwrap();
    assert!(!listing.equals(&bound));
}

#[test]
fn native_bid_is_paid_from_the_wallet() {
    let mut market = delegated_market(100);
    let (escrow, escrow_bump) = escrow_of(&market, &buyer());
    let (ts, ts_bump) = bid_address(&market, &buyer(), 10);
    let other = Key::new([12; 32]);
    assert_eq!(
        buy(&mut market, &buyer(), &other, &delegate(), &holding(), &metadata(), ts_bump, escrow_bump, 10, 1),
        Err(AuctionHouseError::PublicKeyMismatch)
    );
    assert_eq!(market.trade_state(&ts), None);
    assert_eq!(market.escrow_balance(&escrow), 0);
}

#[test]
fn custom_asset_bid_may_use_a_token_account() {
    let custom = Key::new([8; 32]);
    let mut market = new_market(100, custom);
    authorize(&mut market, &operator(), &delegate()).unwrap();
    let (escrow, escrow_bump) = escrow_of(&market, &buyer());
    let (_, ts_bump) = find_trade_state_address(
        &buyer(),
        &market.house_key(),
        &token_account(),
        &custom,
        &token_mint(),
        10,
        1,
    )
    .unwrap();
    let payer = Key::new([12; 32]);
    assert_eq!(
        buy(&mut market, &buyer(), &payer, &delegate(), &holding(), &metadata(), ts_bump, escrow_bump, 10, 1),
        Ok(10)
    );
    assert_eq!(market.escrow_balance(&escrow), 10);
}

#[test]
fn bid_needs_the_mints_metadata() {
    let mut market = delegated_market(100);
    let (escrow, escrow_bump) = escrow_of(&market, &buyer());
    let (ts, ts_bump) = bid_address(&market, &buyer(), 10);
    let wrong = Key::new([13; 32]);
    assert_eq!(
        buy(&mut market, &buyer(), &buyer(), &delegate(), &holding(), &wrong, ts_bump, escrow_bump, 10, 1),
        Err(AuctionHouseError::InvalidMetadata)
    );
    assert_eq!(market.trade_state(&ts), None);
    assert_eq!(market.escrow_balance(&escrow), 0);
}

#[test]
fn sale_that_empties_the_holding_closes_it_on_request() {
    let mut market = delegated_market(250);
    let (_, escrow_bump) = escrow_of(&market, &buyer());
    let (buyer_ts, _) = bid_address(&market, &buyer(), 100);
    place_bid(&mut market, 100).unwrap();
    let seller_ts = place_listing(&mut market);
    let settled = execute_sale(
        &mut market,
        &buyer(),
        &seller(),
        &delegate(),
        &holding(),
        &buyer_ts,
        &seller_ts,
        escrow_bump,
        100,
        1,
        true,
    );
    assert_eq!(settled, Ok(Settlement { fee: 2, net_to_seller: 98, token_amount: 1, close_seller_holding: true }));
}

#[test]
fn bid_overflow_is_reported_before_metadata() {
    let mut market = delegated_market(100);
    let (_, escrow_bump) = escrow_of(&market, &buyer());
    let (_, ts_bump) = bid_address(&market, &buyer(), u64::MAX);
    let wrong = Key::new([13; 32]);
    assert_eq!(
        buy(&mut market, &buyer(), &buyer(), &delegate(), &holding(), &wrong, ts_bump, escrow_bump, u64::MAX, 1),
        Err(AuctionHouseError::NumericalOverflow)
    );
}
