use vstd::prelude::*;

use crate::key::Key;
use crate::market::{delegation_check, escrow_check, Market, MarketView};
use crate::state::AuctionHouseError;

verus! {

/// A deposit credits `amount`, plus what the escrow lacks of its floor, and
/// reports the sum that moves in.
pub open spec fn deposit_outcome(
    m: MarketView,
    wallet: Seq<u8>,
    authority: Seq<u8>,
    escrow_bump: u8,
    amount: u64,
) -> Result<(MarketView, u64), AuctionHouseError> {
    match delegation_check(m, authority) {
        Err(e) => Err(e),
        Ok(_) => match escrow_check(m, wallet, escrow_bump) {
            Err(e) => Err(e),
            Ok(escrow) => {
                let balance = m.balance(escrow);
                let shortfall: int = if balance < m.escrow_floor {
                    m.escrow_floor - balance
                } else {
                    0
                };
                let credited = amount + shortfall;
                if balance + credited > u64::MAX {
                    Err(AuctionHouseError::NumericalOverflow)
                } else {
                    Ok((m.with_balance(escrow, (balance + credited) as u64), credited as u64))
                }
            },
        },
    }
}

/// A withdrawal debits `amount` where the escrow keeps its floor afterwards.
pub open spec fn withdraw_outcome(
    m: MarketView,
    wallet: Seq<u8>,
    authority: Seq<u8>,
    escrow_bump: u8,
    amount: u64,
) -> Result<(MarketView, u64), AuctionHouseError> {
    match delegation_check(m, authority) {
        Err(e) => Err(e),
        Ok(_) => match escrow_check(m, wallet, escrow_bump) {
            Err(e) => Err(e),
            Ok(escrow) => {
                let balance = m.balance(escrow);
                if balance < amount || balance - amount < m.escrow_floor {
                    Err(AuctionHouseError::NotEnoughBalance)
                } else {
                    Ok((m.with_balance(escrow, (balance - amount) as u64), amount))
                }
            },
        },
    }
}

/// Deposit `amount` into the escrow of `wallet`, on the delegated path.
/// Returns what moves from the wallet into the escrow.
pub fn deposit(
    market: &mut Market,
    wallet: &Key,
    auctioneer_authority: &Key,
    escrow_payment_bump: u8,
    amount: u64,
) -> (r: Result<u64, AuctionHouseError>)
    requires
        old(market).wf(),
    ensures
        final(market).wf(),
        match r {
            Ok(moved) => deposit_outcome(old(market)@, wallet@, auctioneer_authority@, escrow_payment_bump, amount)
                == Ok::<(MarketView, u64), AuctionHouseError>((final(market)@, moved)),
            Err(e) => deposit_outcome(old(market)@, wallet@, auctioneer_authority@, escrow_payment_bump, amount)
                == Err::<(MarketView, u64), AuctionHouseError>(e) && final(market)@ == old(market)@,
        },
{
    market.check_delegation(auctioneer_authority)?;
    let escrow = market.resolve_escrow(wallet, escrow_payment_bump)?;
    let balance = market.escrow_balance(&escrow);
    let floor = market.escrow_floor();
    let shortfall: u64 = if balance < floor {
        floor - balance
    } else {
        0
    };
    let credited = match amount.checked_add(shortfall) {
        Some(c) => c,
        None => return Err(AuctionHouseError::NumericalOverflow),
    };
    let updated = match balance.checked_add(credited) {
        Some(b) => b,
        None => return Err(AuctionHouseError::NumericalOverflow),
    };
    market.set_balance(&escrow, updated);
    Ok(credited)
}

/// Withdraw `amount` from the escrow of `wallet`, on the delegated path.
/// Returns what moves out of the escrow to the wallet.
pub fn withdraw(
    market: &mut Market,
    wallet: &Key,
    auctioneer_authority: &Key,
    escrow_payment_bump: u8,
    amount: u64,
) -> (r: Result<u64, AuctionHouseError>)
    requires
        old(market).wf(),
    ensures
        final(market).wf(),
        match r {
            Ok(moved) => withdraw_outcome(old(market)@, wallet@, auctioneer_authority@, escrow_payment_bump, amount)
                == Ok::<(MarketView, u64), AuctionHouseError>((final(market)@, moved)),
            Err(e) => withdraw_outcome(old(market)@, wallet@, auctioneer_authority@, escrow_payment_bump, amount)
                == Err::<(MarketView, u64), AuctionHouseError>(e) && final(market)@ == old(market)@,
        },
{
    market.check_delegation(auctioneer_authority)?;
    let escrow = market.resolve_escrow(wallet, escrow_payment_bump)?;
    let balance = market.escrow_balance(&escrow);
    if balance < amount || balance - amount < market.escrow_floor() {
        return Err(AuctionHouseError::NotEnoughBalance);
    }
    market.set_balance(&escrow, balance - amount);
    Ok(amount)
}

} // verus!
