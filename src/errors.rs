use vstd::prelude::*;

verus! {

/// Failures of the game registry and of mint-authority grants.
#[derive(Clone, Copy, Debug, PartialEq, Eq, Structural)]
pub enum GameErrors {
    /// A name or description is too long, or no address exists for the keys.
    InvalidArguments,
    /// The caller is not the owner of the game.
    Unauthorized,
    /// The asset and the game given do not belong together, or one is unknown.
    RelationMismatch,
    /// A record already exists under the same key.
    AlreadyExists,
}

/// Failures of asset registration, minting, holder binding and transfers.
#[derive(Clone, Copy, Debug, PartialEq, Eq, Structural)]
pub enum AssetErrors {
    /// A field is too long, or no address exists for the keys.
    InvalidArguments,
    /// The caller lacks the ownership or authority that the operation needs.
    Unauthorized,
    /// The asset or its game is unknown.
    RelationMismatch,
    /// An asset already exists under the same key.
    AlreadyExists,
    /// The balance account is already bound to another holder.
    AlreadyBound,
    /// The collateral due does not fit in 64 bits.
    ArithmeticOverflow,
    /// The asset cannot be traded.
    TransferRestricted,
    /// The ledger refused to create or mint the token, or to take the collateral.
    MintFailed,
    /// The ledger refused a transfer.
    TransferFailed,
}

/// Failures of the marketplace.
#[derive(Clone, Copy, Debug, PartialEq, Eq, Structural)]
pub enum MarketplaceError {
    /// No address exists for the keys.
    InvalidArguments,
    /// The asset is unknown.
    RelationMismatch,
    /// The asset cannot be traded.
    TransferRestricted,
    /// The seller is not the holder bound to the balance account.
    Unauthorized,
    /// The listing counter is exhausted.
    ArithmeticOverflow,
    /// No sale has the listing id.
    SaleNotFound,
    /// The sale has already been settled.
    AlreadySettled,
    /// The ledger refused to move the listed amount into escrow.
    TransferFailed,
    /// The ledger refused the buyer's payment.
    PaymentFailed,
    /// The ledger refused to deliver the escrowed asset.
    SettlementFailed,
}

} // verus!
