use vstd::prelude::*;

use crate::key::Key;

verus! {

/// The configuration record of one marketplace instance.
#[derive(Clone, Copy, Debug)]
pub struct AuctionHouse {
    pub auction_house_fee_account: Key,
    pub auction_house_treasury: Key,
    pub treasury_withdrawal_destination: Key,
    pub fee_withdrawal_destination: Key,
    pub treasury_mint: Key,
    pub authority: Key,
    pub creator: Key,
    pub bump: u8,
    pub treasury_bump: u8,
    pub fee_payer_bump: u8,
    pub seller_fee_basis_points: u16,
    pub can_change_sale_price: bool,
    pub escrow_payment_bump: u8,
    pub has_auctioneer: bool,
    pub auctioneer_address: Key,
}

/// The record that binds a policy module's authority to an instance.
#[derive(Clone, Copy, Debug)]
pub struct Auctioneer {
    pub auctioneer_authority: Key,
    pub auction_house: Key,
    pub bump: u8,
}

#[derive(Clone, Copy, Debug, PartialEq, Eq, Structural)]
pub enum AuctionHouseError {
    /// A delegated entry point was called on an instance without a policy module.
    NoAuctioneerProgramSet,
    /// The delegation record does not bind the calling authority to this instance.
    AuctionHouseNotDelegated,
    /// A trade state is absent or its address does not derive from the claimed parameters.
    InvalidTradeStateAddress,
    /// A supplied bump is not the canonical one of its derivation.
    BumpSeedNotInHashMap,
    /// Checked arithmetic would leave the range of `u64`.
    NumericalOverflow,
    /// The escrow cannot pay the amount and keep its rent floor.
    NotEnoughBalance,
    /// A key is not the one the operation requires: the signer is not the
    /// operator, or the holding is not the seller's.
    PublicKeyMismatch,
    /// The quantity is zero or more than the holding has.
    InvalidTokenAmount,
    /// The metadata account is not the one derived for the traded mint.
    InvalidMetadata,
}

/// What the logic reads of a token account: its address, the mint of the
/// asset it holds, its owner and its balance.
#[derive(Clone, Copy, Debug)]
pub struct TokenHolding {
    pub address: Key,
    pub mint: Key,
    pub owner: Key,
    pub amount: u64,
}

/// How a price divides between the fee account and the seller.
#[derive(Clone, Copy, Debug, PartialEq, Eq, Structural)]
pub struct FeeSplit {
    pub fee: u64,
    pub net_to_seller: u64,
}

/// What an executed sale moves: the fee and the seller's share out of the
/// buyer's escrow, `token_amount` units from the seller's holding to the
/// buyer, and whether the emptied holding is then closed.
#[derive(Clone, Copy, Debug, PartialEq, Eq, Structural)]
pub struct Settlement {
    pub fee: u64,
    pub net_to_seller: u64,
    pub token_amount: u64,
    pub close_seller_holding: bool,
}

} // verus!
