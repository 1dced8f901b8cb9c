use vstd::prelude::*;

use crate::key::Key;
use crate::market::{delegation_check, escrow_check, trade_state_valid, Market, MarketView};
use crate::state::{AuctionHouseError, FeeSplit, Settlement, TokenHolding};

verus! {

/// The marketplace's cut of a price: `floor(price * bps / 10000)`.
pub open spec fn fee_of(price: u64, seller_fee_basis_points: u16) -> int {
    (price as int * seller_fee_basis_points as int) / 10000
}

/// The fee and the seller's share of a price; refused where the fee would
/// exceed the price.
pub open spec fn split_of(price: u64, seller_fee_basis_points: u16) -> Result<FeeSplit, AuctionHouseError> {
    let fee = fee_of(price, seller_fee_basis_points);
    if fee <= price {
        Ok(FeeSplit { fee: fee as u64, net_to_seller: (price - fee) as u64 })
    } else {
        Err(AuctionHouseError::NumericalOverflow)
    }
}

/// Divide `price` into the fee and what the seller receives. A fee above the
/// price, which only a rate over 10000 basis points gives, is refused.
pub fn fee_split(price: u64, seller_fee_basis_points: u16) -> (r: Result<FeeSplit, AuctionHouseError>)
    ensures
        r == split_of(price, seller_fee_basis_points),
{
    proof {
        assert((price as int) * (seller_fee_basis_points as int) <= 0xffff_ffff_ffff_ffffint * 0xffffint)
            by (nonlinear_arith);
    }
    let product: u128 = (price as u128) * (seller_fee_basis_points as u128);
    let fee = product / 10000;
    if fee > price as u128 {
        Err(AuctionHouseError::NumericalOverflow)
    } else {
        let fee = fee as u64;
        Ok(FeeSplit { fee, net_to_seller: price - fee })
    }
}

/// The result of a sale, checked in order: the caller, the buyer's escrow
/// bump, both trade states (the seller's is its delegated listing), the
/// seller's holding, the split, the escrow's funds.
pub open spec fn execute_sale_outcome(
    m: MarketView,
    buyer: Seq<u8>,
    seller: Seq<u8>,
    authority: Seq<u8>,
    holding: TokenHolding,
    buyer_trade_state: Seq<u8>,
    seller_trade_state: Seq<u8>,
    escrow_bump: u8,
    price: u64,
    token_size: u64,
    close_seller_holding: bool,
) -> Result<(MarketView, Settlement), AuctionHouseError> {
    match delegation_check(m, authority) {
        Err(e) => Err(e),
        Ok(_) => match escrow_check(m, buyer, escrow_bump) {
            Err(e) => Err(e),
            Ok(escrow) => if !trade_state_valid(m, buyer, holding.address@, holding.mint@, buyer_trade_state, price, token_size)
                || !trade_state_valid(m, seller, holding.address@, holding.mint@, seller_trade_state, u64::MAX, token_size) {
                Err(AuctionHouseError::InvalidTradeStateAddress)
            } else if holding.owner@ != seller {
                Err(AuctionHouseError::PublicKeyMismatch)
            } else if token_size == 0 || token_size > holding.amount {
                Err(AuctionHouseError::InvalidTokenAmount)
            } else {
                match split_of(price, m.seller_fee_basis_points) {
                    Err(e) => Err(e),
                    Ok(split) => {
                        let balance = m.balance(escrow);
                        if balance < price + m.escrow_floor {
                            Err(AuctionHouseError::NotEnoughBalance)
                        } else {
                            Ok((
                                m.with_balance(escrow, (balance - price) as u64)
                                    .without_marker(buyer_trade_state)
                                    .without_marker(seller_trade_state),
                                Settlement {
                                    fee: split.fee,
                                    net_to_seller: split.net_to_seller,
                                    token_amount: token_size,
                                    close_seller_holding: close_seller_holding && holding.amount == token_size,
                                },
                            ))
                        }
                    },
                }
            },
        },
    }
}

/// Settle a buyer's bid against a seller's delegated listing at `buyer_price`:
/// both trade states must be authentic, the seller must still hold the
/// units, the buyer's escrow pays the price and
/// keeps its floor, and both trade states are removed. Returns what moves:
/// the price, divided between the fee account and the seller, and the
/// `token_size` units from the seller's holding to the buyer; the holding is
/// closed where the seller asks it and the sale empties it.
pub fn execute_sale(
    market: &mut Market,
    buyer: &Key,
    seller: &Key,
    auctioneer_authority: &Key,
    holding: &TokenHolding,
    buyer_trade_state: &Key,
    seller_trade_state: &Key,
    escrow_payment_bump: u8,
    buyer_price: u64,
    token_size: u64,
    close_seller_holding: bool,
) -> (r: Result<Settlement, AuctionHouseError>)
    requires
        old(market).wf(),
    ensures
        final(market).wf(),
        match r {
            Ok(settled) => execute_sale_outcome(
                old(market)@,
                buyer@,
                seller@,
                auctioneer_authority@,
                *holding,
                buyer_trade_state@,
                seller_trade_state@,
                escrow_payment_bump,
                buyer_price,
                token_size,
                close_seller_holding,
            ) == Ok::<(MarketView, Settlement), AuctionHouseError>((final(market)@, settled)),
            Err(e) => execute_sale_outcome(
                old(market)@,
                buyer@,
                seller@,
                auctioneer_authority@,
                *holding,
                buyer_trade_state@,
                seller_trade_state@,
                escrow_payment_bump,
                buyer_price,
                token_size,
                close_seller_holding,
            ) == Err::<(MarketView, Settlement), AuctionHouseError>(e) && final(market)@ == old(market)@,
        },
{
    market.check_delegation(auctioneer_authority)?;
    let escrow = market.resolve_escrow(buyer, escrow_payment_bump)?;
    if !market.validate_trade_state(buyer, &holding.address, &holding.mint, buyer_trade_state, buyer_price, token_size)
        || !market.validate_trade_state(seller, &holding.address, &holding.mint, seller_trade_state, u64::MAX, token_size) {
        return Err(AuctionHouseError::InvalidTradeStateAddress);
    }
    if !holding.owner.equals(seller) {
        return Err(AuctionHouseError::PublicKeyMismatch);
    }
    if token_size == 0 || token_size > holding.amount {
        return Err(AuctionHouseError::InvalidTokenAmount);
    }
    let split = fee_split(buyer_price, market.house().seller_fee_basis_points)?;
    let balance = market.escrow_balance(&escrow);
    if balance < buyer_price || balance - buyer_price < market.escrow_floor() {
        return Err(AuctionHouseError::NotEnoughBalance);
    }
    market.set_balance(&escrow, balance - buyer_price);
    market.unmark(buyer_trade_state);
    market.unmark(seller_trade_state);
    Ok(Settlement {
        fee: split.fee,
        net_to_seller: split.net_to_seller,
        token_amount: token_size,
        close_seller_holding: close_seller_holding && holding.amount == token_size,
    })
}

} // verus!
