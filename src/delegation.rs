use vstd::prelude::*;

use crate::key::{program_id, Key};
use crate::market::{Market, MarketView};
use crate::pda::{auctioneer_seeds, canonical_address, find_auctioneer_address};
use crate::state::AuctionHouseError;

verus! {

/// The market once delegation points at `delegate`, with the record at its
/// canonical address.
pub open spec fn delegate_to(m: MarketView, delegate: Seq<u8>) -> Result<MarketView, AuctionHouseError> {
    match canonical_address(auctioneer_seeds(m.house_key, delegate), program_id()) {
        None => Err(AuctionHouseError::BumpSeedNotInHashMap),
        Some(found) => Ok(MarketView {
            has_auctioneer: true,
            auctioneer_address: found.0,
            delegate: delegate,
            delegate_house: m.house_key,
            delegate_bump: found.1,
            ..m
        }),
    }
}

pub open spec fn authorize_outcome(m: MarketView, authority: Seq<u8>, delegate: Seq<u8>) -> Result<MarketView, AuctionHouseError> {
    if authority != m.authority {
        Err(AuctionHouseError::PublicKeyMismatch)
    } else {
        delegate_to(m, delegate)
    }
}

pub open spec fn update_auctioneer_outcome(m: MarketView, authority: Seq<u8>, delegate: Seq<u8>) -> Result<MarketView, AuctionHouseError> {
    if authority != m.authority {
        Err(AuctionHouseError::PublicKeyMismatch)
    } else if !m.has_auctioneer {
        Err(AuctionHouseError::AuctionHouseNotDelegated)
    } else {
        delegate_to(m, delegate)
    }
}

fn point_delegation(market: &mut Market, auctioneer_authority: &Key) -> (r: Result<(), AuctionHouseError>)
    requires
        old(market).wf(),
    ensures
        final(market).wf(),
        match r {
            Ok(_) => delegate_to(old(market)@, auctioneer_authority@) == Ok::<MarketView, AuctionHouseError>(final(market)@),
            Err(e) => delegate_to(old(market)@, auctioneer_authority@) == Err::<MarketView, AuctionHouseError>(e)
                && final(market)@ == old(market)@,
        },
{
    let house_key = market.house_key();
    match find_auctioneer_address(&house_key, auctioneer_authority) {
        Some((address, bump)) => {
            market.set_delegation(auctioneer_authority, address, bump);
            Ok(())
        },
        None => Err(AuctionHouseError::BumpSeedNotInHashMap),
    }
}

/// The operator grants delegation to a policy module's authority: the
/// delegation record is written at its canonical address and the instance
/// is marked delegated.
pub fn authorize(market: &mut Market, authority: &Key, auctioneer_authority: &Key) -> (r: Result<(), AuctionHouseError>)
    requires
        old(market).wf(),
    ensures
        final(market).wf(),
        match r {
            Ok(_) => authorize_outcome(old(market)@, authority@, auctioneer_authority@)
                == Ok::<MarketView, AuctionHouseError>(final(market)@),
            Err(e) => authorize_outcome(old(market)@, authority@, auctioneer_authority@)
                == Err::<MarketView, AuctionHouseError>(e) && final(market)@ == old(market)@,
        },
{
    if !authority.equals(&market.house().authority) {
        return Err(AuctionHouseError::PublicKeyMismatch);
    }
    point_delegation(market, auctioneer_authority)
}

/// The operator re-points an existing delegation at another authority.
pub fn update_auctioneer(market: &mut Market, authority: &Key, auctioneer_authority: &Key) -> (r: Result<(), AuctionHouseError>)
    requires
        old(market).wf(),
    ensures
        final(market).wf(),
        match r {
            Ok(_) => update_auctioneer_outcome(old(market)@, authority@, auctioneer_authority@)
                == Ok::<MarketView, AuctionHouseError>(final(market)@),
            Err(e) => update_auctioneer_outcome(old(market)@, authority@, auctioneer_authority@)
                == Err::<MarketView, AuctionHouseError>(e) && final(market)@ == old(market)@,
        },
{
    if !authority.equals(&market.house().authority) {
        return Err(AuctionHouseError::PublicKeyMismatch);
    }
    if !market.house().has_auctioneer {
        return Err(AuctionHouseError::AuctionHouseNotDelegated);
    }
    point_delegation(market, auctioneer_authority)
}

} // verus!
