use vstd::prelude::*;

use crate::delegation::update_auctioneer_outcome;
use crate::escrow::{deposit_outcome, withdraw_outcome};
use crate::key::program_id;
use crate::market::{delegation_check, escrow_check, MarketView};
use crate::pda::{
    auctioneer_trade_state_seeds, canonical_address, derived_address, escrow_seeds, is_canonical_bump,
};
use crate::sale::{execute_sale_outcome, fee_of, split_of};
use crate::state::{AuctionHouseError, Settlement, TokenHolding};
use crate::trade::{bid_outcome, bid_seeds, cancel_outcome, sell_outcome};

verus! {

/// A derivation has at most one canonical bump, and the canonical address is
/// what the seeds with that bump derive: the pair depends on the seeds alone.
pub proof fn canonical_address_is_unique(seeds: Seq<Seq<u8>>, program: Seq<u8>, bump: u8)
    requires
        is_canonical_bump(seeds, program, bump),
    ensures
        canonical_address(seeds, program) == Some((derived_address(seeds.push(seq![bump]), program)->0, bump)),
{
    let b = choose|b: u8| is_canonical_bump(seeds, program, b);
    if b < bump {
        assert(!crate::pda::bump_is_valid(seeds, program, bump));
    } else if bump < b {
        assert(!crate::pda::bump_is_valid(seeds, program, b));
    }
}

/// A bid that names a bump other than the canonical one of its trade state
/// fails with `InvalidTradeStateAddress` once the caller and escrow checks pass.
pub proof fn non_canonical_bump_is_rejected(
    m: MarketView,
    wallet: Seq<u8>,
    authority: Seq<u8>,
    holding: TokenHolding,
    payment_account: Seq<u8>,
    metadata: Seq<u8>,
    trade_state_bump: u8,
    escrow_bump: u8,
    price: u64,
    token_size: u64,
    public: bool,
)
    requires
        delegation_check(m, authority) is Ok,
        escrow_check(m, wallet, escrow_bump) is Ok,
        match canonical_address(bid_seeds(m, wallet, holding.address@, holding.mint@, price, token_size, public), program_id()) {
            Some(found) => found.1 != trade_state_bump,
            None => true,
        },
    ensures
        bid_outcome(m, wallet, payment_account, authority, holding, metadata, trade_state_bump, escrow_bump, price, token_size, public)
            == Err::<(MarketView, u64), AuctionHouseError>(AuctionHouseError::InvalidTradeStateAddress),
{
}

/// An escrow bump other than the canonical one of the wallet's escrow fails
/// deposits, withdrawals and bids with `BumpSeedNotInHashMap` once the caller
/// check passes.
pub proof fn non_canonical_escrow_bump_is_rejected(
    m: MarketView,
    wallet: Seq<u8>,
    payment_account: Seq<u8>,
    authority: Seq<u8>,
    holding: TokenHolding,
    metadata: Seq<u8>,
    trade_state_bump: u8,
    escrow_bump: u8,
    amount: u64,
    price: u64,
    token_size: u64,
    public: bool,
)
    requires
        delegation_check(m, authority) is Ok,
        match canonical_address(escrow_seeds(m.house_key, wallet), program_id()) {
            Some(found) => found.1 != escrow_bump,
            None => true,
        },
    ensures
        deposit_outcome(m, wallet, authority, escrow_bump, amount)
            == Err::<(MarketView, u64), AuctionHouseError>(AuctionHouseError::BumpSeedNotInHashMap),
        withdraw_outcome(m, wallet, authority, escrow_bump, amount)
            == Err::<(MarketView, u64), AuctionHouseError>(AuctionHouseError::BumpSeedNotInHashMap),
        bid_outcome(m, wallet, payment_account, authority, holding, metadata, trade_state_bump, escrow_bump, price, token_size, public)
            == Err::<(MarketView, u64), AuctionHouseError>(AuctionHouseError::BumpSeedNotInHashMap),
{
}

/// A listing that names a bump other than the canonical one of its trade
/// state fails with `InvalidTradeStateAddress` once the caller and the
/// seller's holding pass their checks.
pub proof fn non_canonical_listing_bump_is_rejected(
    m: MarketView,
    wallet: Seq<u8>,
    authority: Seq<u8>,
    holding: TokenHolding,
    trade_state_bump: u8,
    token_size: u64,
)
    requires
        delegation_check(m, authority) is Ok,
        holding.owner@ == wallet,
        1 <= token_size <= holding.amount,
        match canonical_address(
            auctioneer_trade_state_seeds(wallet, m.house_key, m.treasury_mint, holding.mint@, token_size),
            program_id(),
        ) {
            Some(found) => found.1 != trade_state_bump,
            None => true,
        },
    ensures
        sell_outcome(m, wallet, authority, holding, trade_state_bump, token_size)
            == Err::<MarketView, AuctionHouseError>(AuctionHouseError::InvalidTradeStateAddress),
{
}

/// A withdrawal that leaves the floor succeeds, takes exactly `amount` out of
/// the wallet's escrow and leaves it at or above the floor.
pub proof fn withdraw_keeps_the_floor(
    m: MarketView,
    wallet: Seq<u8>,
    authority: Seq<u8>,
    escrow_bump: u8,
    amount: u64,
)
    requires
        delegation_check(m, authority) is Ok,
        escrow_check(m, wallet, escrow_bump) is Ok,
        m.balance(escrow_check(m, wallet, escrow_bump)->Ok_0) >= amount + m.escrow_floor,
    ensures
        ({
            let escrow = escrow_check(m, wallet, escrow_bump)->Ok_0;
            let done = withdraw_outcome(m, wallet, authority, escrow_bump, amount);
            &&& done is Ok
            &&& (done->Ok_0).1 == amount
            &&& (done->Ok_0).0.balance(escrow) == m.balance(escrow) - amount
            &&& (done->Ok_0).0.balance(escrow) >= m.escrow_floor
        }),
{
}

/// Placing the same bid twice: the second call succeeds, moves nothing and
/// leaves the market as the first left it, with exactly one trade state
/// added by the pair.
pub proof fn bid_is_idempotent(
    m: MarketView,
    wallet: Seq<u8>,
    authority: Seq<u8>,
    holding: TokenHolding,
    payment_account: Seq<u8>,
    metadata: Seq<u8>,
    trade_state_bump: u8,
    escrow_bump: u8,
    price: u64,
    token_size: u64,
    public: bool,
)
    requires
        bid_outcome(m, wallet, payment_account, authority, holding, metadata, trade_state_bump, escrow_bump, price, token_size, public) is Ok,
    ensures
        ({
            let first = (bid_outcome(m, wallet, payment_account, authority, holding, metadata, trade_state_bump, escrow_bump, price, token_size, public)->Ok_0).0;
            let address = (canonical_address(bid_seeds(m, wallet, holding.address@, holding.mint@, price, token_size, public), program_id())->0).0;
            &&& bid_outcome(first, wallet, payment_account, authority, holding, metadata, trade_state_bump, escrow_bump, price, token_size, public)
                == Ok::<(MarketView, u64), AuctionHouseError>((first, 0u64))
            &&& first.trade_states.dom() == m.trade_states.dom().insert(address)
        }),
{
    let first = (bid_outcome(m, wallet, payment_account, authority, holding, metadata, trade_state_bump, escrow_bump, price, token_size, public)->Ok_0).0;
    let address = (canonical_address(bid_seeds(m, wallet, holding.address@, holding.mint@, price, token_size, public), program_id())->0).0;
    assert(first.trade_states.dom() =~= m.trade_states.dom().insert(address));
}

/// Listing the same token twice: the second call succeeds and changes nothing.
pub proof fn sell_is_idempotent(
    m: MarketView,
    wallet: Seq<u8>,
    authority: Seq<u8>,
    holding: TokenHolding,
    trade_state_bump: u8,
    token_size: u64,
)
    requires
        sell_outcome(m, wallet, authority, holding, trade_state_bump, token_size) is Ok,
    ensures
        ({
            let first = sell_outcome(m, wallet, authority, holding, trade_state_bump, token_size)->Ok_0;
            sell_outcome(first, wallet, authority, holding, trade_state_bump, token_size)
                == Ok::<MarketView, AuctionHouseError>(first)
        }),
{
}

/// For a price and a rate of at most 10000 basis points the split succeeds,
/// the fee is `floor(price * bps / 10000)`, and fee and net add up to the price.
pub proof fn fee_is_exact(price: u64, seller_fee_basis_points: u16)
    requires
        seller_fee_basis_points <= 10000,
    ensures
        split_of(price, seller_fee_basis_points) is Ok,
        ({
            let split = split_of(price, seller_fee_basis_points)->Ok_0;
            &&& split.fee == (price as int * seller_fee_basis_points as int) / 10000
            &&& split.fee + split.net_to_seller == price
        }),
{
    assert((price as int * seller_fee_basis_points as int) / 10000 <= price as int) by (nonlinear_arith)
        requires
            seller_fee_basis_points <= 10000,
            0 <= price;
}

/// On an instance without delegation every delegated operation fails with
/// `NoAuctioneerProgramSet`, and the operator cannot re-point the absent
/// delegation (`AuctionHouseNotDelegated`).
pub proof fn delegation_gate(
    m: MarketView,
    wallet: Seq<u8>,
    seller: Seq<u8>,
    authority: Seq<u8>,
    holding: TokenHolding,
    payment_account: Seq<u8>,
    metadata: Seq<u8>,
    trade_state: Seq<u8>,
    seller_trade_state: Seq<u8>,
    trade_state_bump: u8,
    escrow_bump: u8,
    amount: u64,
    price: u64,
    token_size: u64,
    public: bool,
    close_seller_holding: bool,
    new_delegate: Seq<u8>,
)
    requires
        !m.has_auctioneer,
    ensures
        update_auctioneer_outcome(m, m.authority, new_delegate)
            == Err::<MarketView, AuctionHouseError>(AuctionHouseError::AuctionHouseNotDelegated),
        deposit_outcome(m, wallet, authority, escrow_bump, amount)
            == Err::<(MarketView, u64), AuctionHouseError>(AuctionHouseError::NoAuctioneerProgramSet),
        withdraw_outcome(m, wallet, authority, escrow_bump, amount)
            == Err::<(MarketView, u64), AuctionHouseError>(AuctionHouseError::NoAuctioneerProgramSet),
        bid_outcome(m, wallet, payment_account, authority, holding, metadata, trade_state_bump, escrow_bump, price, token_size, public)
            == Err::<(MarketView, u64), AuctionHouseError>(AuctionHouseError::NoAuctioneerProgramSet),
        sell_outcome(m, wallet, authority, holding, trade_state_bump, token_size)
            == Err::<MarketView, AuctionHouseError>(AuctionHouseError::NoAuctioneerProgramSet),
        cancel_outcome(m, wallet, authority, holding, trade_state, price, token_size)
            == Err::<MarketView, AuctionHouseError>(AuctionHouseError::NoAuctioneerProgramSet),
        execute_sale_outcome(
            m,
            wallet,
            seller,
            authority,
            holding,
            trade_state,
            seller_trade_state,
            escrow_bump,
            price,
            token_size,
            close_seller_holding,
        ) == Err::<(MarketView, Settlement), AuctionHouseError>(AuctionHouseError::NoAuctioneerProgramSet),
{
}

/// Cancelling a bid and placing it again succeeds, moves nothing, and
/// leaves a fresh marker with the bid's bump at the same address.
pub proof fn cancel_then_rebid(
    m: MarketView,
    wallet: Seq<u8>,
    authority: Seq<u8>,
    holding: TokenHolding,
    payment_account: Seq<u8>,
    metadata: Seq<u8>,
    trade_state_bump: u8,
    escrow_bump: u8,
    price: u64,
    token_size: u64,
    public: bool,
)
    requires
        bid_outcome(m, wallet, payment_account, authority, holding, metadata, trade_state_bump, escrow_bump, price, token_size, public) is Ok,
        ({
            let placed = (bid_outcome(m, wallet, payment_account, authority, holding, metadata, trade_state_bump, escrow_bump, price, token_size, public)->Ok_0).0;
            let address = (canonical_address(bid_seeds(m, wallet, holding.address@, holding.mint@, price, token_size, public), program_id())->0).0;
            cancel_outcome(placed, wallet, authority, holding, address, price, token_size) is Ok
        }),
    ensures
        ({
            let placed = (bid_outcome(m, wallet, payment_account, authority, holding, metadata, trade_state_bump, escrow_bump, price, token_size, public)->Ok_0).0;
            let address = (canonical_address(bid_seeds(m, wallet, holding.address@, holding.mint@, price, token_size, public), program_id())->0).0;
            let cancelled = cancel_outcome(placed, wallet, authority, holding, address, price, token_size)->Ok_0;
            let again = bid_outcome(cancelled, wallet, payment_account, authority, holding, metadata, trade_state_bump, escrow_bump, price, token_size, public);
            &&& !cancelled.trade_states.contains_key(address)
            &&& again is Ok
            &&& (again->Ok_0).1 == 0
            &&& (again->Ok_0).0.trade_states.contains_key(address)
            &&& (again->Ok_0).0.trade_states[address] == trade_state_bump
            &&& (again->Ok_0).0.escrows == placed.escrows
        }),
{
}

/// One operation on a wallet's escrow, with the parameters it is called with.
pub enum EscrowStep {
    Deposit { authority: Seq<u8>, escrow_bump: u8, amount: u64 },
    Withdraw { authority: Seq<u8>, escrow_bump: u8, amount: u64 },
    Bid {
        payment_account: Seq<u8>,
        authority: Seq<u8>,
        holding: TokenHolding,
        metadata: Seq<u8>,
        trade_state_bump: u8,
        escrow_bump: u8,
        price: u64,
        token_size: u64,
        public: bool,
    },
    Sale {
        seller: Seq<u8>,
        authority: Seq<u8>,
        holding: TokenHolding,
        buyer_trade_state: Seq<u8>,
        seller_trade_state: Seq<u8>,
        escrow_bump: u8,
        price: u64,
        token_size: u64,
        close_seller_holding: bool,
    },
}

/// The market after one step by `wallet`, with what the step moved into the
/// escrow and what it took out.
pub open spec fn escrow_step(m: MarketView, wallet: Seq<u8>, step: EscrowStep) -> Result<(MarketView, int, int), AuctionHouseError> {
    match step {
        EscrowStep::Deposit { authority, escrow_bump, amount } => match deposit_outcome(m, wallet, authority, escrow_bump, amount) {
            Ok(done) => Ok((done.0, done.1 as int, 0int)),
            Err(e) => Err(e),
        },
        EscrowStep::Withdraw { authority, escrow_bump, amount } => match withdraw_outcome(m, wallet, authority, escrow_bump, amount) {
            Ok(done) => Ok((done.0, 0int, done.1 as int)),
            Err(e) => Err(e),
        },
        EscrowStep::Bid { payment_account, authority, holding, metadata, trade_state_bump, escrow_bump, price, token_size, public } => match bid_outcome(
            m,
            wallet,
            payment_account,
            authority,
            holding,
            metadata,
            trade_state_bump,
            escrow_bump,
            price,
            token_size,
            public,
        ) {
            Ok(done) => Ok((done.0, done.1 as int, 0int)),
            Err(e) => Err(e),
        },
        EscrowStep::Sale {
            seller,
            authority,
            holding,
            buyer_trade_state,
            seller_trade_state,
            escrow_bump,
            price,
            token_size,
            close_seller_holding,
        } => match execute_sale_outcome(
            m,
            wallet,
            seller,
            authority,
            holding,
            buyer_trade_state,
            seller_trade_state,
            escrow_bump,
            price,
            token_size,
            close_seller_holding,
        ) {
            Ok(done) => Ok((done.0, 0int, price as int)),
            Err(e) => Err(e),
        },
    }
}

/// Runs the steps in order; the first failure ends the run. Totals what was
/// moved in and taken out.
pub open spec fn escrow_run(m: MarketView, wallet: Seq<u8>, steps: Seq<EscrowStep>) -> Result<(MarketView, int, int), AuctionHouseError>
    decreases steps.len(),
{
    if steps.len() == 0 {
        Ok((m, 0int, 0int))
    } else {
        match escrow_step(m, wallet, steps[0]) {
            Err(e) => Err(e),
            Ok(first) => match escrow_run(first.0, wallet, steps.drop_first()) {
                Err(e) => Err(e),
                Ok(rest) => Ok((rest.0, first.1 + rest.1, first.2 + rest.2)),
            },
        }
    }
}

/// The escrow address of a wallet in a market, where it has one.
pub open spec fn escrow_of(m: MarketView, wallet: Seq<u8>) -> Seq<u8> {
    (canonical_address(escrow_seeds(m.house_key, wallet), program_id())->0).0
}

/// One step changes its wallet's escrow by exactly what it moved in minus
/// what it took out, keeps the instance and the floor, and a withdrawal
/// leaves at least the floor.
pub proof fn escrow_step_conserves(m: MarketView, wallet: Seq<u8>, step: EscrowStep)
    requires
        escrow_step(m, wallet, step) is Ok,
    ensures
        ({
            let done = escrow_step(m, wallet, step)->Ok_0;
            &&& done.0.house_key == m.house_key
            &&& done.0.escrow_floor == m.escrow_floor
            &&& done.0.balance(escrow_of(m, wallet)) == m.balance(escrow_of(m, wallet)) + done.1 - done.2
            &&& step is Withdraw ==> done.0.balance(escrow_of(m, wallet)) >= m.escrow_floor
        }),
{
}

/// Over any run of deposits, withdrawals, bids and sales by one wallet, its
/// escrow ends at its starting balance plus what was moved in minus what
/// was withdrawn and paid for executed sales.
pub proof fn escrow_conservation(m: MarketView, wallet: Seq<u8>, steps: Seq<EscrowStep>)
    requires
        escrow_run(m, wallet, steps) is Ok,
    ensures
        ({
            let done = escrow_run(m, wallet, steps)->Ok_0;
            &&& done.0.balance(escrow_of(m, wallet)) == m.balance(escrow_of(m, wallet)) + done.1 - done.2
            &&& done.0.house_key == m.house_key
            &&& done.0.escrow_floor == m.escrow_floor
        }),
    decreases steps.len(),
{
    if steps.len() > 0 {
        escrow_step_conserves(m, wallet, steps[0]);
        let first = escrow_step(m, wallet, steps[0])->Ok_0;
        escrow_conservation(first.0, wallet, steps.drop_first());
    }
}

} // verus!
