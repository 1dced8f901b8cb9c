use vstd::prelude::*;

use crate::key::{program_id, Key};
use crate::pda::{
    auctioneer_seeds, canonical_address, derived_address, escrow_seeds, find_auctioneer_address,
    find_escrow_payment_account_address, public_trade_state_seeds, trade_state_seeds,
    derivation_matches, trade_state_seed_vecs,
};
use crate::state::{AuctionHouse, AuctionHouseError, Auctioneer};
use crate::store::KeyedStore;

verus! {

/// The bytes of the wrapped native-asset mint,
/// `So11111111111111111111111111111111111111112` in base58.
pub open spec fn native_mint_id() -> Seq<u8> {
    seq![
        6u8, 155u8, 136u8, 87u8, 254u8, 171u8, 129u8, 132u8, 251u8, 104u8, 127u8, 99u8, 70u8,
        24u8, 192u8, 53u8, 218u8, 196u8, 57u8, 220u8, 26u8, 235u8, 59u8, 85u8, 152u8, 160u8,
        240u8, 0u8, 0u8, 0u8, 0u8, 1u8,
    ]
}

/// Relies on `spl_token::native_mint::id`: the address of the native-asset
/// mint that the token program declares.
#[verifier::external_body]
fn native_mint() -> (r: Key)
    ensures
        r@ == native_mint_id(),
{
    Key { bytes: spl_token::native_mint::id().to_bytes() }
}

/// The state a marketplace's operations read and change, in mathematical form.
pub struct MarketView {
    pub house_key: Seq<u8>,
    pub authority: Seq<u8>,
    pub treasury_mint: Seq<u8>,
    pub seller_fee_basis_points: u16,
    pub has_auctioneer: bool,
    pub auctioneer_address: Seq<u8>,
    /// The authority the delegation record binds.
    pub delegate: Seq<u8>,
    /// The instance the delegation record names.
    pub delegate_house: Seq<u8>,
    pub delegate_bump: u8,
    /// The balance an escrow keeps while it exists: the rent-exempt minimum
    /// for the native asset, nothing for a custom one.
    pub escrow_floor: u64,
    /// Escrow balances by escrow address.
    pub escrows: Map<Seq<u8>, u64>,
    /// Active trade states by address, each with the bump it records.
    pub trade_states: Map<Seq<u8>, u8>,
}

impl MarketView {
    pub open spec fn balance(self, escrow: Seq<u8>) -> u64 {
        if self.escrows.contains_key(escrow) {
            self.escrows[escrow]
        } else {
            0
        }
    }

    pub open spec fn with_balance(self, escrow: Seq<u8>, balance: u64) -> MarketView {
        MarketView { escrows: self.escrows.insert(escrow, balance), ..self }
    }

    /// Materialises a trade state; one that already exists stays as it is.
    pub open spec fn with_marker(self, trade_state: Seq<u8>, bump: u8) -> MarketView {
        if self.trade_states.contains_key(trade_state) {
            self
        } else {
            MarketView { trade_states: self.trade_states.insert(trade_state, bump), ..self }
        }
    }

    pub open spec fn without_marker(self, trade_state: Seq<u8>) -> MarketView {
        MarketView { trade_states: self.trade_states.remove(trade_state), ..self }
    }
}

/// One marketplace instance with its delegation record, escrows and trade states.
pub struct Market {
    house: AuctionHouse,
    house_key: Key,
    auctioneer: Auctioneer,
    escrow_floor: u64,
    native: bool,
    escrows: KeyedStore<u64>,
    trade_states: KeyedStore<u8>,
}

impl View for Market {
    type V = MarketView;

    closed spec fn view(&self) -> MarketView {
        MarketView {
            house_key: self.house_key@,
            authority: self.house.authority@,
            treasury_mint: self.house.treasury_mint@,
            seller_fee_basis_points: self.house.seller_fee_basis_points,
            has_auctioneer: self.house.has_auctioneer,
            auctioneer_address: self.house.auctioneer_address@,
            delegate: self.auctioneer.auctioneer_authority@,
            delegate_house: self.auctioneer.auction_house@,
            delegate_bump: self.auctioneer.bump,
            escrow_floor: self.escrow_floor,
            escrows: self.escrows.view(),
            trade_states: self.trade_states.view(),
        }
    }
}

/// Whether the calling authority may act for the instance: delegation is on,
/// the record binds this authority to this instance, and the record stands at
/// the canonical address derived from both with its recorded bump.
pub open spec fn delegation_check(m: MarketView, authority: Seq<u8>) -> Result<(), AuctionHouseError> {
    if !m.has_auctioneer {
        Err(AuctionHouseError::NoAuctioneerProgramSet)
    } else if m.delegate != authority || m.delegate_house != m.house_key {
        Err(AuctionHouseError::AuctionHouseNotDelegated)
    } else {
        match canonical_address(auctioneer_seeds(m.house_key, authority), program_id()) {
            Some(found) => if found.0 == m.auctioneer_address && found.1 == m.delegate_bump {
                Ok(())
            } else {
                Err(AuctionHouseError::AuctionHouseNotDelegated)
            },
            None => Err(AuctionHouseError::AuctionHouseNotDelegated),
        }
    }
}

/// The escrow address of a wallet, where the supplied bump is the canonical one.
pub open spec fn escrow_check(m: MarketView, wallet: Seq<u8>, escrow_bump: u8) -> Result<Seq<u8>, AuctionHouseError> {
    match canonical_address(escrow_seeds(m.house_key, wallet), program_id()) {
        Some(found) => if found.1 == escrow_bump {
            Ok(found.0)
        } else {
            Err(AuctionHouseError::BumpSeedNotInHashMap)
        },
        None => Err(AuctionHouseError::BumpSeedNotInHashMap),
    }
}

/// A trade state is authentic when it exists and its address derives, with
/// the bump it records, from the claimed parameters, bound to the token
/// account or not.
pub open spec fn trade_state_valid(
    m: MarketView,
    wallet: Seq<u8>,
    token_account: Seq<u8>,
    token_mint: Seq<u8>,
    trade_state: Seq<u8>,
    price: u64,
    token_size: u64,
) -> bool {
    &&& m.trade_states.contains_key(trade_state)
    &&& {
        let b = m.trade_states[trade_state];
        ||| derived_address(
            trade_state_seeds(wallet, m.house_key, token_account, m.treasury_mint, token_mint, price, token_size).push(seq![b]),
            program_id(),
        ) == Some(trade_state)
        ||| derived_address(
            public_trade_state_seeds(wallet, m.house_key, m.treasury_mint, token_mint, price, token_size).push(seq![b]),
            program_id(),
        ) == Some(trade_state)
    }
}

impl Market {
    pub closed spec fn wf(&self) -> bool {
        &&& self.escrows.wf()
        &&& self.trade_states.wf()
        &&& self.native == (self.house.treasury_mint@ == native_mint_id())
        &&& !self.native ==> self.escrow_floor == 0
    }

    /// Only an instance paid in the native asset keeps a floor in its escrows.
    pub proof fn floor_only_when_native(&self)
        requires
            self.wf(),
        ensures
            self@.treasury_mint != native_mint_id() ==> self@.escrow_floor == 0,
    {
    }

    /// Whether the instance is paid in the native asset.
    pub fn is_native(&self) -> (r: bool)
        requires
            self.wf(),
        ensures
            r == (self@.treasury_mint == native_mint_id()),
    {
        self.native
    }

    /// A marketplace with no escrows and no trade states. The escrow floor is
    /// `rent_floor` where the payment asset is the native one, else nothing.
    pub fn new(house: AuctionHouse, house_key: Key, auctioneer: Auctioneer, rent_floor: u64) -> (r: Market)
        ensures
            r.wf(),
            r@.house_key == house_key@,
            r@.authority == house.authority@,
            r@.treasury_mint == house.treasury_mint@,
            r@.seller_fee_basis_points == house.seller_fee_basis_points,
            r@.has_auctioneer == house.has_auctioneer,
            r@.auctioneer_address == house.auctioneer_address@,
            r@.delegate == auctioneer.auctioneer_authority@,
            r@.delegate_house == auctioneer.auction_house@,
            r@.delegate_bump == auctioneer.bump,
            r@.escrow_floor == (if house.treasury_mint@ == native_mint_id() { rent_floor } else { 0 }),
            r@.escrows == Map::<Seq<u8>, u64>::empty(),
            r@.trade_states == Map::<Seq<u8>, u8>::empty(),
    {
        let native = house.treasury_mint.equals(&native_mint());
        let escrow_floor = if native {
            rent_floor
        } else {
            0
        };
        Market {
            house,
            house_key,
            auctioneer,
            escrow_floor,
            native,
            escrows: KeyedStore::new(),
            trade_states: KeyedStore::new(),
        }
    }

    pub fn house(&self) -> (r: &AuctionHouse)
        ensures
            r.authority@ == self@.authority,
            r.treasury_mint@ == self@.treasury_mint,
            r.seller_fee_basis_points == self@.seller_fee_basis_points,
            r.has_auctioneer == self@.has_auctioneer,
            r.auctioneer_address@ == self@.auctioneer_address,
    {
        &self.house
    }

    pub fn house_key(&self) -> (r: Key)
        ensures
            r@ == self@.house_key,
    {
        self.house_key
    }

    pub fn auctioneer(&self) -> (r: &Auctioneer)
        ensures
            r.auctioneer_authority@ == self@.delegate,
            r.auction_house@ == self@.delegate_house,
            r.bump == self@.delegate_bump,
    {
        &self.auctioneer
    }

    pub fn escrow_floor(&self) -> (r: u64)
        ensures
            r == self@.escrow_floor,
    {
        self.escrow_floor
    }

    /// The balance of an escrow; an escrow that was never funded holds nothing.
    pub fn escrow_balance(&self, escrow: &Key) -> (r: u64)
        requires
            self.wf(),
        ensures
            r == self@.balance(escrow@),
    {
        match self.escrows.get(escrow) {
            Some(b) => b,
            None => 0,
        }
    }

    /// The bump an active trade state records, or nothing where none is active.
    pub fn trade_state(&self, trade_state: &Key) -> (r: Option<u8>)
        requires
            self.wf(),
        ensures
            r == (if self@.trade_states.contains_key(trade_state@) {
                Some(self@.trade_states[trade_state@])
            } else {
                None
            }),
    {
        self.trade_states.get(trade_state)
    }

    pub(crate) fn check_delegation(&self, authority: &Key) -> (r: Result<(), AuctionHouseError>)
        ensures
            r == delegation_check(self@, authority@),
    {
        if !self.house.has_auctioneer {
            return Err(AuctionHouseError::NoAuctioneerProgramSet);
        }
        if !self.auctioneer.auctioneer_authority.equals(authority)
            || !self.auctioneer.auction_house.equals(&self.house_key) {
            return Err(AuctionHouseError::AuctionHouseNotDelegated);
        }
        match find_auctioneer_address(&self.house_key, authority) {
            Some((address, bump)) => {
                if address.equals(&self.house.auctioneer_address) && bump == self.auctioneer.bump {
                    Ok(())
                } else {
                    Err(AuctionHouseError::AuctionHouseNotDelegated)
                }
            },
            None => Err(AuctionHouseError::AuctionHouseNotDelegated),
        }
    }

    pub(crate) fn resolve_escrow(&self, wallet: &Key, escrow_bump: u8) -> (r: Result<Key, AuctionHouseError>)
        ensures
            match r {
                Ok(k) => escrow_check(self@, wallet@, escrow_bump) == Ok::<Seq<u8>, AuctionHouseError>(k@),
                Err(e) => escrow_check(self@, wallet@, escrow_bump) == Err::<Seq<u8>, AuctionHouseError>(e),
            },
    {
        match find_escrow_payment_account_address(&self.house_key, wallet) {
            Some((address, bump)) => {
                if bump == escrow_bump {
                    Ok(address)
                } else {
                    Err(AuctionHouseError::BumpSeedNotInHashMap)
                }
            },
            None => Err(AuctionHouseError::BumpSeedNotInHashMap),
        }
    }

    pub(crate) fn validate_trade_state(
        &self,
        wallet: &Key,
        token_account: &Key,
        token_mint: &Key,
        trade_state: &Key,
        price: u64,
        token_size: u64,
    ) -> (r: bool)
        requires
            self.wf(),
        ensures
            r == trade_state_valid(self@, wallet@, token_account@, token_mint@, trade_state@, price, token_size),
    {
        match self.trade_states.get(trade_state) {
            None => false,
            Some(bump) => {
                let bound = trade_state_seed_vecs(
                    wallet,
                    &self.house_key,
                    Some(token_account),
                    &self.house.treasury_mint,
                    token_mint,
                    price,
                    token_size,
                );
                if derivation_matches(bound, bump, trade_state) {
                    return true;
                }
                let open = trade_state_seed_vecs(
                    wallet,
                    &self.house_key,
                    None,
                    &self.house.treasury_mint,
                    token_mint,
                    price,
                    token_size,
                );
                derivation_matches(open, bump, trade_state)
            },
        }
    }

    pub(crate) fn set_balance(&mut self, escrow: &Key, balance: u64)
        requires
            old(self).wf(),
        ensures
            final(self).wf(),
            final(self)@ == old(self)@.with_balance(escrow@, balance),
    {
        self.escrows.set(escrow, balance);
    }

    pub(crate) fn mark(&mut self, trade_state: &Key, bump: u8)
        requires
            old(self).wf(),
        ensures
            final(self).wf(),
            final(self)@ == old(self)@.with_marker(trade_state@, bump),
    {
        if !self.trade_states.contains(trade_state) {
            self.trade_states.set(trade_state, bump);
        }
    }

    pub(crate) fn unmark(&mut self, trade_state: &Key)
        requires
            old(self).wf(),
        ensures
            final(self).wf(),
            final(self)@ == old(self)@.without_marker(trade_state@),
    {
        self.trade_states.remove(trade_state);
    }

    pub(crate) fn set_delegation(&mut self, authority: &Key, address: Key, bump: u8)
        requires
            old(self).wf(),
        ensures
            final(self).wf(),
            final(self)@ == (MarketView {
                has_auctioneer: true,
                auctioneer_address: address@,
                delegate: authority@,
                delegate_house: old(self)@.house_key,
                delegate_bump: bump,
                ..old(self)@
            }),
    {
        self.house.has_auctioneer = true;
        self.house.auctioneer_address = address;
        self.auctioneer = Auctioneer { auctioneer_authority: *authority, auction_house: self.house_key, bump };
    }
}

} // verus!
