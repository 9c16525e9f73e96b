use super::{Registry, RegistryView};
use crate::address::{address_of, holder_address, holder_seeds, lemma_address_of, program_address, Address};
use crate::errors::AssetErrors;
use crate::ledger::{receipt_view, Authority, LedgerAction, LedgerOp, Receipt};
use vstd::prelude::*;

verus! {

/// Moving `amount` tokens of `mint` from `from` to `to`, signed for by the
/// holder authority `from_key` of the source balance.
pub open spec fn transfer_op(mint: Address, from: Address, to: Address, amount: u64, from_key: Address) -> LedgerOp<AssetErrors> {
    LedgerOp {
        action: LedgerAction::Transfer { mint, from, to, amount },
        authority: Authority::Program(from_key),
        on_failure: AssetErrors::TransferFailed,
    }
}

impl RegistryView {
    /// Whether the holder authority `key` is bound to `caller`.
    pub open spec fn holds(self, key: Seq<u8>, caller: Seq<u8>) -> bool {
        self.holders.contains_key(key) && self.holders[key].user@ == caller
    }

    /// Transferring `amount` of `asset` from the balance `from`, whose holder
    /// authority is `from_key`, to the balance `to`, whose holder authority
    /// `to_key` is bound to `to_holder`: the asset must be tradable and
    /// `caller` must be the holder bound to `from_key`.
    pub open spec fn transfer_assets_at(
        self,
        from_key: Address,
        to_key: Address,
        caller: Address,
        asset: Address,
        amount: u64,
        from: Address,
        to: Address,
        to_holder: Address,
    ) -> (RegistryView, Result<((), Seq<LedgerOp<AssetErrors>>), AssetErrors>) {
        if !self.assets.contains_key(asset@) {
            (self, Err(AssetErrors::RelationMismatch))
        } else if !self.assets[asset@].trade {
            (self, Err(AssetErrors::TransferRestricted))
        } else if !self.holds(from_key@, caller@) {
            (self, Err(AssetErrors::Unauthorized))
        } else {
            let (bound, b) = self.initialize_assets_ata_at(to_key@, to_holder);
            if b is Err {
                (self, Err(AssetErrors::AlreadyBound))
            } else {
                (bound, Ok(((), seq![transfer_op(self.assets[asset@].mint, from, to, amount, from_key)])))
            }
        }
    }

    /// Transferring, with the holder authorities derived from the two balances.
    pub open spec fn transfer_assets(
        self,
        caller: Address,
        asset: Address,
        amount: u64,
        from: Address,
        to: Address,
        to_holder: Address,
    ) -> (RegistryView, Result<((), Seq<LedgerOp<AssetErrors>>), AssetErrors>) {
        match (
            program_address(holder_seeds(from@), self.program@),
            program_address(holder_seeds(to@), self.program@),
        ) {
            (Some(f), Some(t)) => self.transfer_assets_at(
                address_of(f),
                address_of(t),
                caller,
                asset,
                amount,
                from,
                to,
                to_holder,
            ),
            _ => (self, Err(AssetErrors::InvalidArguments)),
        }
    }
}

impl Registry {
    /// Transfers, with `from_key` and `to_key` the holder authorities derived
    /// from `from` and `to`.
    pub fn transfer_assets_at(
        &mut self,
        from_key: Address,
        to_key: Address,
        caller: Address,
        asset: Address,
        amount: u64,
        from: Address,
        to: Address,
        to_holder: Address,
    ) -> (r: Result<Receipt<(), AssetErrors>, AssetErrors>)
        requires
            old(self).inv(),
            program_address(holder_seeds(from@), old(self)@.program@) == Some(from_key@),
            program_address(holder_seeds(to@), old(self)@.program@) == Some(to_key@),
        ensures
            final(self).inv(),
            (final(self)@, receipt_view(r)) == old(self)@.transfer_assets_at(
                from_key,
                to_key,
                caller,
                asset,
                amount,
                from,
                to,
                to_holder,
            ),
    {
        let mint = match self.assets.get(&asset) {
            None => {
                return Err(AssetErrors::RelationMismatch);
            },
            Some(a) => {
                if !a.trade {
                    return Err(AssetErrors::TransferRestricted);
                }
                a.mint
            },
        };
        match self.holders.get(&from_key) {
            None => {
                return Err(AssetErrors::Unauthorized);
            },
            Some(h) => {
                if !h.user.same(&caller) {
                    return Err(AssetErrors::Unauthorized);
                }
            },
        }
        match self.initialize_assets_ata_at(to, to_key, to_holder) {
            Err(_) => {
                return Err(AssetErrors::AlreadyBound);
            },
            Ok(_) => {},
        }
        let mut ops: Vec<LedgerOp<AssetErrors>> = Vec::new();
        ops.push(
            LedgerOp {
                action: LedgerAction::Transfer { mint, from, to, amount },
                authority: Authority::Program(from_key),
                on_failure: AssetErrors::TransferFailed,
            },
        );
        assert(ops@ =~= seq![transfer_op(mint, from, to, amount, from_key)]);
        Ok(Receipt { value: (), ops })
    }

    /// Moves `amount` of `asset` from the balance `from` to the balance `to`
    /// on behalf of `caller`, the holder bound to `from`; binds `to` to
    /// `to_holder`, and fails with `AlreadyBound` where `to` is bound to
    /// another holder, since a binding never changes. The asset must be
    /// tradable.
    pub fn transfer_assets(
        &mut self,
        caller: Address,
        asset: Address,
        amount: u64,
        from: Address,
        to: Address,
        to_holder: Address,
    ) -> (r: Result<Receipt<(), AssetErrors>, AssetErrors>)
        requires
            old(self).inv(),
        ensures
            final(self).inv(),
            (final(self)@, receipt_view(r)) == old(self)@.transfer_assets(caller, asset, amount, from, to, to_holder),
    {
        let from_key = holder_address(&from, &self.program);
        let to_key = holder_address(&to, &self.program);
        match (from_key, to_key) {
            (Some(f), Some(t)) => {
                proof {
                    lemma_address_of(f);
                    lemma_address_of(t);
                }
                self.transfer_assets_at(f, t, caller, asset, amount, from, to, to_holder)
            },
            _ => Err(AssetErrors::InvalidArguments),
        }
    }
}

} // verus!
