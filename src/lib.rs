//! Games, assets and a marketplace for in-game items backed by a ledger of
//! fungible tokens: who may register, mint, transfer and list an asset, the
//! delegation of minting rights, collateral for minting, and the escrowed
//! sale of listed amounts.
//!
//! A [`registry::Registry`] keeps the records, each under an address derived
//! from its keys. Each operation checks and updates the records and returns a
//! plan: the ledger operations to carry out, in one transaction, for it to
//! take effect.
pub mod address;
pub mod collateral;
pub mod errors;
pub mod laws;
pub mod ledger;
pub mod state;
pub mod registry;
pub mod store;
