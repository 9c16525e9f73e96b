use super::{Registry, RegistryView};
use crate::address::{address_of, holder_address, holder_seeds, lemma_address_of, program_address, Address};
use crate::errors::MarketplaceError;
use crate::ledger::{receipt_view, Authority, LedgerAction, LedgerOp, Receipt};
use crate::state::{Sale, SaleState};
use vstd::prelude::*;

verus! {

/// Moving the listed amount from the seller's balance into escrow, signed for
/// by the seller's holder authority.
pub open spec fn escrow_op(mint: Address, seller_balance: Address, escrow: Address, amount: u64, seller_key: Address) -> LedgerOp<MarketplaceError> {
    LedgerOp {
        action: LedgerAction::Transfer { mint, from: seller_balance, to: escrow, amount },
        authority: Authority::Program(seller_key),
        on_failure: MarketplaceError::TransferFailed,
    }
}

/// The buyer's payment of the price, in the credit currency, to the seller's
/// credit balance, signed by the buyer.
pub open spec fn payment_op(credit_mint: Address, buyer_credit: Address, sale: Sale) -> LedgerOp<MarketplaceError> {
    LedgerOp {
        action: LedgerAction::Transfer {
            mint: credit_mint,
            from: buyer_credit,
            to: sale.dsc_credit_ata,
            amount: sale.price,
        },
        authority: Authority::Caller,
        on_failure: MarketplaceError::PaymentFailed,
    }
}

/// The delivery of the escrowed amount to the buyer's balance, signed for by
/// `escrow_authority`, the escrow's holder authority.
pub open spec fn delivery_op(buyer_asset: Address, sale: Sale, escrow_authority: Address) -> LedgerOp<MarketplaceError> {
    LedgerOp {
        action: LedgerAction::Transfer {
            mint: sale.mint,
            from: sale.escrow,
            to: buyer_asset,
            amount: sale.sale_amount,
        },
        authority: Authority::Program(escrow_authority),
        on_failure: MarketplaceError::SettlementFailed,
    }
}

impl RegistryView {
    /// Listing `amount` of `asset`, held in `seller_balance` whose holder
    /// authority is `seller_key`, for `price`, paid to `credit`. The amount
    /// goes to the escrow balance `escrow`. The asset must be tradable and
    /// `caller` must be the holder bound to `seller_key`. The value is the
    /// listing id.
    pub open spec fn list_asset_at(
        self,
        seller_key: Address,
        caller: Address,
        asset: Address,
        seller_balance: Address,
        escrow: Address,
        price: u64,
        amount: u64,
        credit: Address,
    ) -> (RegistryView, Result<(u64, Seq<LedgerOp<MarketplaceError>>), MarketplaceError>) {
        if !self.assets.contains_key(asset@) {
            (self, Err(MarketplaceError::RelationMismatch))
        } else if !self.assets[asset@].trade {
            (self, Err(MarketplaceError::TransferRestricted))
        } else if !self.holds(seller_key@, caller@) {
            (self, Err(MarketplaceError::Unauthorized))
        } else if self.next_listing_id == u64::MAX {
            (self, Err(MarketplaceError::ArithmeticOverflow))
        } else {
            let mint = self.assets[asset@].mint;
            let sale = Sale {
                listing_id: self.next_listing_id,
                price,
                sale_state: SaleState::Open,
                sale_amount: amount,
                dsc_credit_ata: credit,
                mint,
                escrow,
            };
            (
                RegistryView {
                    next_listing_id: (self.next_listing_id + 1) as u64,
                    sales: self.sales.push(sale),
                    ..self
                },
                Ok((self.next_listing_id, seq![escrow_op(mint, seller_balance, escrow, amount, seller_key)])),
            )
        }
    }

    /// Listing, with the seller's holder authority derived from its balance.
    pub open spec fn list_asset(
        self,
        caller: Address,
        asset: Address,
        seller_balance: Address,
        escrow: Address,
        price: u64,
        amount: u64,
        credit: Address,
    ) -> (RegistryView, Result<(u64, Seq<LedgerOp<MarketplaceError>>), MarketplaceError>) {
        match program_address(holder_seeds(seller_balance@), self.program@) {
            Some(s) => self.list_asset_at(
                address_of(s),
                caller,
                asset,
                seller_balance,
                escrow,
                price,
                amount,
                credit,
            ),
            None => (self, Err(MarketplaceError::InvalidArguments)),
        }
    }

    /// Buying the sale `listing_id`, whose escrow is released by
    /// `escrow_authority`: the sale must exist and be open. It becomes
    /// settled; the plan pays the seller and then delivers the escrow.
    pub open spec fn buy_from_marketplace_at(
        self,
        escrow_authority: Address,
        listing_id: u64,
        buyer_credit: Address,
        buyer_asset: Address,
    ) -> (RegistryView, Result<((), Seq<LedgerOp<MarketplaceError>>), MarketplaceError>) {
        if listing_id >= self.sales.len() {
            (self, Err(MarketplaceError::SaleNotFound))
        } else if self.sales[listing_id as int].sale_state == SaleState::Settled {
            (self, Err(MarketplaceError::AlreadySettled))
        } else {
            let sale = self.sales[listing_id as int];
            (
                RegistryView {
                    sales: self.sales.update(
                        listing_id as int,
                        Sale { sale_state: SaleState::Settled, ..sale },
                    ),
                    ..self
                },
                Ok(
                    (
                        (),
                        seq![
                            payment_op(self.credit_mint, buyer_credit, sale),
                            delivery_op(buyer_asset, sale, escrow_authority),
                        ],
                    ),
                ),
            )
        }
    }

    /// Buying, with the escrow released by the holder authority derived from
    /// the sale's escrow balance.
    pub open spec fn buy_from_marketplace(self, listing_id: u64, buyer_credit: Address, buyer_asset: Address) -> (
        RegistryView,
        Result<((), Seq<LedgerOp<MarketplaceError>>), MarketplaceError>,
    ) {
        if listing_id >= self.sales.len() {
            (self, Err(MarketplaceError::SaleNotFound))
        } else if self.sales[listing_id as int].sale_state == SaleState::Settled {
            (self, Err(MarketplaceError::AlreadySettled))
        } else {
            match program_address(holder_seeds(self.sales[listing_id as int].escrow@), self.program@) {
                Some(e) => self.buy_from_marketplace_at(address_of(e), listing_id, buyer_credit, buyer_asset),
                None => (self, Err(MarketplaceError::InvalidArguments)),
            }
        }
    }
}

impl Registry {
    /// Lists, with `seller_key` the holder authority derived from `seller_balance`.
    pub fn list_asset_at(
        &mut self,
        seller_key: Address,
        caller: Address,
        asset: Address,
        seller_balance: Address,
        escrow: Address,
        price: u64,
        amount: u64,
        credit: Address,
    ) -> (r: Result<Receipt<u64, MarketplaceError>, MarketplaceError>)
        requires
            old(self).inv(),
            program_address(holder_seeds(seller_balance@), old(self)@.program@) == Some(seller_key@),
        ensures
            final(self).inv(),
            (final(self)@, receipt_view(r)) == old(self)@.list_asset_at(
                seller_key,
                caller,
                asset,
                seller_balance,
                escrow,
                price,
                amount,
                credit,
            ),
    {
        let mint = match self.assets.get(&asset) {
            None => {
                return Err(MarketplaceError::RelationMismatch);
            },
            Some(a) => {
                if !a.trade {
                    return Err(MarketplaceError::TransferRestricted);
                }
                a.mint
            },
        };
        match self.holders.get(&seller_key) {
            None => {
                return Err(MarketplaceError::Unauthorized);
            },
            Some(h) => {
                if !h.user.same(&caller) {
                    return Err(MarketplaceError::Unauthorized);
                }
            },
        }
        let listing_id = self.marketplace.current_listing_id;
        let next = match listing_id.checked_add(1) {
            None => {
                return Err(MarketplaceError::ArithmeticOverflow);
            },
            Some(n) => n,
        };
        let sale = Sale {
            listing_id,
            price,
            sale_state: SaleState::Open,
            sale_amount: amount,
            dsc_credit_ata: credit,
            mint,
            escrow,
        };
        self.sales.push(sale);
        self.marketplace.current_listing_id = next;
        let mut ops: Vec<LedgerOp<MarketplaceError>> = Vec::new();
        ops.push(
            LedgerOp {
                action: LedgerAction::Transfer { mint, from: seller_balance, to: escrow, amount },
                authority: Authority::Program(seller_key),
                on_failure: MarketplaceError::TransferFailed,
            },
        );
        assert(ops@ =~= seq![escrow_op(mint, seller_balance, escrow, amount, seller_key)]);
        Ok(Receipt { value: listing_id, ops })
    }

    /// Lists `amount` of `asset` from `seller_balance` for `price` on behalf
    /// of `caller`, the holder bound to that balance; the plan moves the
    /// amount into `escrow`. Returns the listing id.
    pub fn list_asset(
        &mut self,
        caller: Address,
        asset: Address,
        seller_balance: Address,
        escrow: Address,
        price: u64,
        amount: u64,
        credit: Address,
    ) -> (r: Result<Receipt<u64, MarketplaceError>, MarketplaceError>)
        requires
            old(self).inv(),
        ensures
            final(self).inv(),
            (final(self)@, receipt_view(r)) == old(self)@.list_asset(
                caller,
                asset,
                seller_balance,
                escrow,
                price,
                amount,
                credit,
            ),
    {
        match holder_address(&seller_balance, &self.program) {
            Some(s) => {
                proof {
                    lemma_address_of(s);
                }
                self.list_asset_at(s, caller, asset, seller_balance, escrow, price, amount, credit)
            },
            None => Err(MarketplaceError::InvalidArguments),
        }
    }

    /// Buys, with `escrow_authority` the holder authority derived from the
    /// sale's escrow balance.
    pub fn buy_from_marketplace_at(
        &mut self,
        escrow_authority: Address,
        listing_id: u64,
        buyer_credit: Address,
        buyer_asset: Address,
    ) -> (r: Result<Receipt<(), MarketplaceError>, MarketplaceError>)
        requires
            old(self).inv(),
            listing_id < old(self)@.sales.len() ==> program_address(
                holder_seeds(old(self)@.sales[listing_id as int].escrow@),
                old(self)@.program@,
            ) == Some(escrow_authority@),
        ensures
            final(self).inv(),
            (final(self)@, receipt_view(r)) == old(self)@.buy_from_marketplace_at(
                escrow_authority,
                listing_id,
                buyer_credit,
                buyer_asset,
            ),
    {
        if listing_id >= self.sales.len() as u64 {
            return Err(MarketplaceError::SaleNotFound);
        }
        let i = listing_id as usize;
        let sale = self.sales[i];
        if sale.sale_state == SaleState::Settled {
            return Err(MarketplaceError::AlreadySettled);
        }
        self.sales.set(i, Sale { sale_state: SaleState::Settled, ..sale });
        let mut ops: Vec<LedgerOp<MarketplaceError>> = Vec::new();
        ops.push(
            LedgerOp {
                action: LedgerAction::Transfer {
                    mint: self.credit_mint,
                    from: buyer_credit,
                    to: sale.dsc_credit_ata,
                    amount: sale.price,
                },
                authority: Authority::Caller,
                on_failure: MarketplaceError::PaymentFailed,
            },
        );
        ops.push(
            LedgerOp {
                action: LedgerAction::Transfer {
                    mint: sale.mint,
                    from: sale.escrow,
                    to: buyer_asset,
                    amount: sale.sale_amount,
                },
                authority: Authority::Program(escrow_authority),
                on_failure: MarketplaceError::SettlementFailed,
            },
        );
        assert(ops@ =~= seq![
            payment_op(self.credit_mint, buyer_credit, sale),
            delivery_op(buyer_asset, sale, escrow_authority),
        ]);
        Ok(Receipt { value: (), ops })
    }

    /// Buys the sale `listing_id`, which must be open; it is settled at once.
    /// The plan pays the price from `buyer_credit` and delivers the escrowed
    /// amount to `buyer_asset`, released by the holder authority derived from
    /// the escrow balance.
    pub fn buy_from_marketplace(&mut self, listing_id: u64, buyer_credit: Address, buyer_asset: Address) -> (r: Result<
        Receipt<(), MarketplaceError>,
        MarketplaceError,
    >)
        requires
            old(self).inv(),
        ensures
            final(self).inv(),
            (final(self)@, receipt_view(r)) == old(self)@.buy_from_marketplace(listing_id, buyer_credit, buyer_asset),
    {
        if listing_id >= self.sales.len() as u64 {
            return Err(MarketplaceError::SaleNotFound);
        }
        let sale = self.sales[listing_id as usize];
        if sale.sale_state == SaleState::Settled {
            return Err(MarketplaceError::AlreadySettled);
        }
        match holder_address(&sale.escrow, &self.program) {
            Some(e) => {
                proof {
                    lemma_address_of(e);
                }
                self.buy_from_marketplace_at(e, listing_id, buyer_credit, buyer_asset)
            },
            None => Err(MarketplaceError::InvalidArguments),
        }
    }
}

} // verus!
