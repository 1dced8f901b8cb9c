use vstd::prelude::*;

use crate::key::{metadata_program_id, program_id, Key};
use crate::market::{delegation_check, escrow_check, native_mint_id, trade_state_valid, Market, MarketView};
use crate::pda::{
    auctioneer_trade_state_seeds, canonical_address, find_auctioneer_trade_state_address,
    find_metadata_account, find_public_trade_state_address, find_trade_state_address, metadata_seeds,
    public_trade_state_seeds,
    trade_state_seeds,
};
use crate::state::{AuctionHouseError, TokenHolding};

verus! {

/// The seeds of a bid: bound to the token account, or public.
pub open spec fn bid_seeds(
    m: MarketView,
    wallet: Seq<u8>,
    token_account: Seq<u8>,
    token_mint: Seq<u8>,
    price: u64,
    token_size: u64,
    public: bool,
) -> Seq<Seq<u8>> {
    if public {
        public_trade_state_seeds(wallet, m.house_key, m.treasury_mint, token_mint, price, token_size)
    } else {
        trade_state_seeds(wallet, m.house_key, token_account, m.treasury_mint, token_mint, price, token_size)
    }
}

/// What the escrow lacks of `price` above its floor, and the market once that
/// is moved in and the trade state is marked.
pub open spec fn fund_and_mark(
    m: MarketView,
    escrow: Seq<u8>,
    trade_state: Seq<u8>,
    bump: u8,
    price: u64,
) -> Result<(MarketView, u64), AuctionHouseError> {
    let needed = price + m.escrow_floor;
    if needed > u64::MAX {
        Err(AuctionHouseError::NumericalOverflow)
    } else {
        let balance = m.balance(escrow);
        if balance < needed {
            Ok((m.with_balance(escrow, needed as u64).with_marker(trade_state, bump), (needed - balance) as u64))
        } else {
            Ok((m.with_marker(trade_state, bump), 0u64))
        }
    }
}

/// The result of a bid, checked in order: the caller, the escrow bump, the
/// trade-state bump, that a native payment comes from the wallet itself,
/// that the price plus the escrow floor fits in a `u64`, the traded mint's
/// metadata account; then the escrow is topped up and the trade state marked.
pub open spec fn bid_outcome(
    m: MarketView,
    wallet: Seq<u8>,
    payment_account: Seq<u8>,
    authority: Seq<u8>,
    holding: TokenHolding,
    metadata: Seq<u8>,
    trade_state_bump: u8,
    escrow_bump: u8,
    price: u64,
    token_size: u64,
    public: bool,
) -> Result<(MarketView, u64), AuctionHouseError> {
    match delegation_check(m, authority) {
        Err(e) => Err(e),
        Ok(_) => match escrow_check(m, wallet, escrow_bump) {
            Err(e) => Err(e),
            Ok(escrow) => match canonical_address(
                bid_seeds(m, wallet, holding.address@, holding.mint@, price, token_size, public),
                program_id(),
            ) {
                None => Err(AuctionHouseError::InvalidTradeStateAddress),
                Some(found) => if found.1 != trade_state_bump {
                    Err(AuctionHouseError::InvalidTradeStateAddress)
                } else if m.treasury_mint == native_mint_id() && payment_account != wallet {
                    Err(AuctionHouseError::PublicKeyMismatch)
                } else if price + m.escrow_floor > u64::MAX {
                    Err(AuctionHouseError::NumericalOverflow)
                } else if canonical_address(metadata_seeds(holding.mint@), metadata_program_id()) is None
                    || (canonical_address(metadata_seeds(holding.mint@), metadata_program_id())->0).0 != metadata {
                    Err(AuctionHouseError::InvalidMetadata)
                } else {
                    fund_and_mark(m, escrow, found.0, trade_state_bump, price)
                },
            },
        },
    }
}

/// The result of a delegated listing: the caller, the seller's holding and
/// quantity, the trade-state bump; then the trade state is marked.
pub open spec fn sell_outcome(
    m: MarketView,
    wallet: Seq<u8>,
    authority: Seq<u8>,
    holding: TokenHolding,
    trade_state_bump: u8,
    token_size: u64,
) -> Result<MarketView, AuctionHouseError> {
    match delegation_check(m, authority) {
        Err(e) => Err(e),
        Ok(_) => if holding.owner@ != wallet {
            Err(AuctionHouseError::PublicKeyMismatch)
        } else if token_size == 0 || token_size > holding.amount {
            Err(AuctionHouseError::InvalidTokenAmount)
        } else { match canonical_address(
            auctioneer_trade_state_seeds(wallet, m.house_key, m.treasury_mint, holding.mint@, token_size),
            program_id(),
        ) {
            None => Err(AuctionHouseError::InvalidTradeStateAddress),
            Some(found) => if found.1 != trade_state_bump {
                Err(AuctionHouseError::InvalidTradeStateAddress)
            } else {
                Ok(m.with_marker(found.0, trade_state_bump))
            },
        } },
    }
}

/// The result of a cancel: the caller, then an authentic trade state, which
/// is removed.
pub open spec fn cancel_outcome(
    m: MarketView,
    wallet: Seq<u8>,
    authority: Seq<u8>,
    holding: TokenHolding,
    trade_state: Seq<u8>,
    price: u64,
    token_size: u64,
) -> Result<MarketView, AuctionHouseError> {
    match delegation_check(m, authority) {
        Err(e) => Err(e),
        Ok(_) => if trade_state_valid(m, wallet, holding.address@, holding.mint@, trade_state, price, token_size) {
            Ok(m.without_marker(trade_state))
        } else {
            Err(AuctionHouseError::InvalidTradeStateAddress)
        },
    }
}

/// Place a bid on the delegated path: check the caller and both canonical
/// bumps, move into the escrow what it lacks of `buyer_price` above its
/// floor, and mark the trade state. An identical bid that is already marked
/// leaves it as it is. Returns what moves into the escrow.
pub fn auctioneer_bid_logic(
    market: &mut Market,
    wallet: &Key,
    payment_account: &Key,
    auctioneer_authority: &Key,
    holding: &TokenHolding,
    metadata: &Key,
    trade_state_bump: u8,
    escrow_payment_bump: u8,
    buyer_price: u64,
    token_size: u64,
    public: bool,
) -> (r: Result<u64, AuctionHouseError>)
    requires
        old(market).wf(),
    ensures
        final(market).wf(),
        match r {
            Ok(moved) => bid_outcome(
                old(market)@,
                wallet@,
                payment_account@,
                auctioneer_authority@,
                *holding,
                metadata@,
                trade_state_bump,
                escrow_payment_bump,
                buyer_price,
                token_size,
                public,
            ) == Ok::<(MarketView, u64), AuctionHouseError>((final(market)@, moved)),
            Err(e) => bid_outcome(
                old(market)@,
                wallet@,
                payment_account@,
                auctioneer_authority@,
                *holding,
                metadata@,
                trade_state_bump,
                escrow_payment_bump,
                buyer_price,
                token_size,
                public,
            ) == Err::<(MarketView, u64), AuctionHouseError>(e) && final(market)@ == old(market)@,
        },
{
    market.check_delegation(auctioneer_authority)?;
    let escrow = market.resolve_escrow(wallet, escrow_payment_bump)?;
    let house_key = market.house_key();
    let treasury_mint = market.house().treasury_mint;
    let found = if public {
        find_public_trade_state_address(wallet, &house_key, &treasury_mint, &holding.mint, buyer_price, token_size)
    } else {
        find_trade_state_address(
            wallet,
            &house_key,
            &holding.address,
            &treasury_mint,
            &holding.mint,
            buyer_price,
            token_size,
        )
    };
    let trade_state = match found {
        Some((address, bump)) => {
            if bump != trade_state_bump {
                return Err(AuctionHouseError::InvalidTradeStateAddress);
            }
            address
        },
        None => return Err(AuctionHouseError::InvalidTradeStateAddress),
    };
    if market.is_native() && !payment_account.equals(wallet) {
        return Err(AuctionHouseError::PublicKeyMismatch);
    }
    let floor = market.escrow_floor();
    let needed = match buyer_price.checked_add(floor) {
        Some(n) => n,
        None => return Err(AuctionHouseError::NumericalOverflow),
    };
    match find_metadata_account(&holding.mint) {
        Some((address, _)) => {
            if !address.equals(metadata) {
                return Err(AuctionHouseError::InvalidMetadata);
            }
        },
        None => return Err(AuctionHouseError::InvalidMetadata),
    }
    let balance = market.escrow_balance(&escrow);
    let moved: u64 = if balance < needed {
        market.set_balance(&escrow, needed);
        needed - balance
    } else {
        0
    };
    market.mark(&trade_state, trade_state_bump);
    Ok(moved)
}

/// A bid bound to one token account.
pub fn auctioneer_private_bid(
    market: &mut Market,
    wallet: &Key,
    payment_account: &Key,
    auctioneer_authority: &Key,
    holding: &TokenHolding,
    metadata: &Key,
    trade_state_bump: u8,
    escrow_payment_bump: u8,
    buyer_price: u64,
    token_size: u64,
) -> (r: Result<u64, AuctionHouseError>)
    requires
        old(market).wf(),
    ensures
        final(market).wf(),
        match r {
            Ok(moved) => bid_outcome(
                old(market)@,
                wallet@,
                payment_account@,
                auctioneer_authority@,
                *holding,
                metadata@,
                trade_state_bump,
                escrow_payment_bump,
                buyer_price,
                token_size,
                false,
            ) == Ok::<(MarketView, u64), AuctionHouseError>((final(market)@, moved)),
            Err(e) => bid_outcome(
                old(market)@,
                wallet@,
                payment_account@,
                auctioneer_authority@,
                *holding,
                metadata@,
                trade_state_bump,
                escrow_payment_bump,
                buyer_price,
                token_size,
                false,
            ) == Err::<(MarketView, u64), AuctionHouseError>(e) && final(market)@ == old(market)@,
        },
{
    auctioneer_bid_logic(
        market,
        wallet,
        payment_account,
        auctioneer_authority,
        holding,
        metadata,
        trade_state_bump,
        escrow_payment_bump,
        buyer_price,
        token_size,
        false,
    )
}

/// Create a private bid: fund the escrow up to `buyer_price` above its floor
/// and mark the buyer's trade state. Returns what moves into the escrow.
pub fn buy(
    market: &mut Market,
    wallet: &Key,
    payment_account: &Key,
    auctioneer_authority: &Key,
    holding: &TokenHolding,
    metadata: &Key,
    trade_state_bump: u8,
    escrow_payment_bump: u8,
    buyer_price: u64,
    token_size: u64,
) -> (r: Result<u64, AuctionHouseError>)
    requires
        old(market).wf(),
    ensures
        final(market).wf(),
        match r {
            Ok(moved) => bid_outcome(
                old(market)@,
                wallet@,
                payment_account@,
                auctioneer_authority@,
                *holding,
                metadata@,
                trade_state_bump,
                escrow_payment_bump,
                buyer_price,
                token_size,
                false,
            ) == Ok::<(MarketView, u64), AuctionHouseError>((final(market)@, moved)),
            Err(e) => bid_outcome(
                old(market)@,
                wallet@,
                payment_account@,
                auctioneer_authority@,
                *holding,
                metadata@,
                trade_state_bump,
                escrow_payment_bump,
                buyer_price,
                token_size,
                false,
            ) == Err::<(MarketView, u64), AuctionHouseError>(e) && final(market)@ == old(market)@,
        },
{
    auctioneer_private_bid(
        market,
        wallet,
        payment_account,
        auctioneer_authority,
        holding,
        metadata,
        trade_state_bump,
        escrow_payment_bump,
        buyer_price,
        token_size,
    )
}

/// List `token_size` units of the seller's holding with the price left to the
/// policy module: the holding must belong to the seller and hold at least
/// `token_size` units, which must be one or more; marks the seller's trade
/// state at the largest price.
pub fn sell(
    market: &mut Market,
    wallet: &Key,
    auctioneer_authority: &Key,
    holding: &TokenHolding,
    trade_state_bump: u8,
    token_size: u64,
) -> (r: Result<(), AuctionHouseError>)
    requires
        old(market).wf(),
    ensures
        final(market).wf(),
        match r {
            Ok(_) => sell_outcome(
                old(market)@,
                wallet@,
                auctioneer_authority@,
                *holding,
                trade_state_bump,
                token_size,
            ) == Ok::<MarketView, AuctionHouseError>(final(market)@),
            Err(e) => sell_outcome(
                old(market)@,
                wallet@,
                auctioneer_authority@,
                *holding,
                trade_state_bump,
                token_size,
            ) == Err::<MarketView, AuctionHouseError>(e) && final(market)@ == old(market)@,
        },
{
    market.check_delegation(auctioneer_authority)?;
    if !holding.owner.equals(wallet) {
        return Err(AuctionHouseError::PublicKeyMismatch);
    }
    if token_size == 0 || token_size > holding.amount {
        return Err(AuctionHouseError::InvalidTokenAmount);
    }
    let house_key = market.house_key();
    let treasury_mint = market.house().treasury_mint;
    match find_auctioneer_trade_state_address(
        wallet,
        &house_key,
        &treasury_mint,
        &holding.mint,
        token_size,
    ) {
        Some((address, bump)) => {
            if bump != trade_state_bump {
                return Err(AuctionHouseError::InvalidTradeStateAddress);
            }
            market.mark(&address, trade_state_bump);
            Ok(())
        },
        None => Err(AuctionHouseError::InvalidTradeStateAddress),
    }
}

/// Retract a bid or listing: the trade state must be authentic for the
/// claimed price and size; it is removed. The escrow is not touched.
pub fn cancel(
    market: &mut Market,
    wallet: &Key,
    auctioneer_authority: &Key,
    holding: &TokenHolding,
    trade_state: &Key,
    buyer_price: u64,
    token_size: u64,
) -> (r: Result<(), AuctionHouseError>)
    requires
        old(market).wf(),
    ensures
        final(market).wf(),
        match r {
            Ok(_) => cancel_outcome(
                old(market)@,
                wallet@,
                auctioneer_authority@,
                *holding,
                trade_state@,
                buyer_price,
                token_size,
            ) == Ok::<MarketView, AuctionHouseError>(final(market)@),
            Err(e) => cancel_outcome(
                old(market)@,
                wallet@,
                auctioneer_authority@,
                *holding,
                trade_state@,
                buyer_price,
                token_size,
            ) == Err::<MarketView, AuctionHouseError>(e) && final(market)@ == old(market)@,
        },
{
    market.check_delegation(auctioneer_authority)?;
    if !market.validate_trade_state(wallet, &holding.address, &holding.mint, trade_state, buyer_price, token_size) {
        return Err(AuctionHouseError::InvalidTradeStateAddress);
    }
    market.unmark(trade_state);
    Ok(())
}

} // verus!
