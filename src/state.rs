use crate::address::Address;
use vstd::prelude::*;

verus! {

/// A registered game.
#[derive(Clone, Debug)]
pub struct GameState {
    pub owner: Address,
    pub name: String,
    pub description: String,
}

/// A registered asset: its game, its token mint and its trading policy.
#[derive(Clone, Debug)]
pub struct AssetData {
    /// Address of the game that the asset belongs to.
    pub game: Address,
    /// Address of the asset's token mint on the ledger.
    pub mint: Address,
    pub name: String,
    pub symbol: String,
    pub uri: String,
    pub price: u64,
    pub score: u8,
    /// Whether the asset may be transferred and listed.
    pub trade: bool,
    /// Whether minting takes collateral.
    pub collateral_option: bool,
    /// The collateral ratio, in percent of the value minted.
    pub collateral: u64,
}

/// What a game owner supplies to register an asset.
#[derive(Clone, Debug)]
pub struct InitializeAssetDataArgs {
    pub name: String,
    pub symbol: String,
    pub uri: String,
    pub price: u64,
    pub score: u8,
    pub trade_option: bool,
    pub collateral_option: bool,
    pub collateral: u64,
}

/// The holder bound to a balance account: the one principal who may move it.
#[derive(Clone, Copy, Debug)]
pub struct AssetAuthority {
    pub user: Address,
}

/// A grant that lets `user` mint the asset at `asset_account`.
#[derive(Clone, Copy, Debug)]
pub struct MintAuthority {
    pub user: Address,
    pub asset_account: Address,
}

/// The marketplace's listing counter: the id the next listing receives.
#[derive(Clone, Copy, Debug)]
pub struct Marketplace {
    pub current_listing_id: u64,
}

#[derive(Clone, Copy, Debug, PartialEq, Eq, Structural)]
pub enum SaleState {
    Open,
    Settled,
}

/// A listing: an escrowed amount of an asset offered at a price.
#[derive(Clone, Copy, Debug)]
pub struct Sale {
    pub listing_id: u64,
    pub price: u64,
    pub sale_state: SaleState,
    pub sale_amount: u64,
    /// The seller's credit balance, which receives the price.
    pub dsc_credit_ata: Address,
    /// The token mint of the listed asset.
    pub mint: Address,
    /// The escrow balance that holds the listed amount; its holder authority,
    /// derived from it, releases it.
    pub escrow: Address,
}

} // verus!
