use super::{Registry, RegistryView};
use crate::address::{
    address_of, asset_address, asset_seeds, holder_address, holder_seeds, lemma_address_of,
    mint_address, mint_seeds, program_address, Address,
};
use crate::collateral::{collateral_due, collateral_spec};
use crate::errors::AssetErrors;
use crate::ledger::{receipt_view, Authority, LedgerAction, LedgerOp, Minted, Receipt};
use crate::state::{AssetAuthority, AssetData, InitializeAssetDataArgs, MintAuthority};
use crate::store::Store;
use vstd::prelude::*;
use vstd::utf8::encode_utf8;

verus! {

/// Names of assets are shorter than this, in bytes of UTF-8.
pub const ASSET_NAME_LIMIT: usize = 20;

/// Symbols of assets are shorter than this, in bytes of UTF-8.
pub const ASSET_SYMBOL_LIMIT: usize = 5;

/// URIs of assets are shorter than this, in bytes of UTF-8.
pub const ASSET_URI_LIMIT: usize = 20;

/// The record of an asset of `game` with the token mint `mint`.
pub open spec fn asset_record(game: Address, mint: Address, args: InitializeAssetDataArgs) -> AssetData {
    AssetData {
        game,
        mint,
        name: args.name,
        symbol: args.symbol,
        uri: args.uri,
        price: args.price,
        score: args.score,
        trade: args.trade_option,
        collateral_option: args.collateral_option,
        collateral: args.collateral,
    }
}

/// Creating the token mint `mint`, which is its own mint authority.
pub open spec fn create_mint_op(mint: Address) -> LedgerOp<AssetErrors> {
    LedgerOp {
        action: LedgerAction::CreateMint { mint, authority: mint },
        authority: Authority::Caller,
        on_failure: AssetErrors::MintFailed,
    }
}

/// Minting `amount` tokens of `mint` into `to`, signed for by the mint.
pub open spec fn mint_op(mint: Address, to: Address, amount: u64) -> LedgerOp<AssetErrors> {
    LedgerOp {
        action: LedgerAction::MintTo { mint, to, amount },
        authority: Authority::Program(mint),
        on_failure: AssetErrors::MintFailed,
    }
}

/// Moving the collateral `due` of the credit currency from the caller's
/// credit balance to the collateral vault, signed by the caller.
pub open spec fn collateral_op(
    credit_mint: Address,
    from: Address,
    vault: Address,
    due: u64,
) -> LedgerOp<AssetErrors> {
    LedgerOp {
        action: LedgerAction::Transfer { mint: credit_mint, from, to: vault, amount: due },
        authority: Authority::Caller,
        on_failure: AssetErrors::MintFailed,
    }
}

impl RegistryView {
    /// Whether the name, symbol and URI of `args` fit.
    pub open spec fn asset_args_fit(args: InitializeAssetDataArgs) -> bool {
        encode_utf8(args.name@).len() < ASSET_NAME_LIMIT && encode_utf8(args.symbol@).len()
            < ASSET_SYMBOL_LIMIT && encode_utf8(args.uri@).len() < ASSET_URI_LIMIT
    }

    /// Registering an asset of `game` under `key`, with token mint `mint`:
    /// the name, symbol and URI must fit, `caller` must own the game, and
    /// `key` must be free. The plan creates the mint.
    pub open spec fn initialize_assets_at(
        self,
        key: Seq<u8>,
        mint: Address,
        caller: Address,
        game: Address,
        args: InitializeAssetDataArgs,
    ) -> (RegistryView, Result<(Address, Seq<LedgerOp<AssetErrors>>), AssetErrors>) {
        if !Self::asset_args_fit(args) {
            (self, Err(AssetErrors::InvalidArguments))
        } else if !self.games.contains_key(game@) {
            (self, Err(AssetErrors::RelationMismatch))
        } else if self.games[game@].owner@ != caller@ {
            (self, Err(AssetErrors::Unauthorized))
        } else if self.assets.contains_key(key) {
            (self, Err(AssetErrors::AlreadyExists))
        } else {
            (
                RegistryView {
                    assets: self.assets.insert(key, asset_record(game, mint, args)),
                    ..self
                },
                Ok((address_of(key), seq![create_mint_op(mint)])),
            )
        }
    }

    /// Registering an asset under the address derived from its name and
    /// game, with the mint derived from the game and the asset; over-long
    /// fields are refused before any address is derived.
    pub open spec fn initialize_assets(
        self,
        caller: Address,
        game: Address,
        args: InitializeAssetDataArgs,
    ) -> (RegistryView, Result<(Address, Seq<LedgerOp<AssetErrors>>), AssetErrors>) {
        if !Self::asset_args_fit(args) {
            (self, Err(AssetErrors::InvalidArguments))
        } else {
            match program_address(asset_seeds(args.name@, game@), self.program@) {
                Some(k) => match program_address(mint_seeds(game@, k), self.program@) {
                    Some(m) => self.initialize_assets_at(k, address_of(m), caller, game, args),
                    None => (self, Err(AssetErrors::InvalidArguments)),
                },
                None => (self, Err(AssetErrors::InvalidArguments)),
            }
        }
    }

    /// Binding the holder authority `key` to `holder`: kept as it is where
    /// it is bound to `holder` already, refused where it is bound to another.
    pub open spec fn initialize_assets_ata_at(self, key: Seq<u8>, holder: Address) -> (
        RegistryView,
        Result<Address, AssetErrors>,
    ) {
        if self.holders.contains_key(key) {
            if self.holders[key].user@ == holder@ {
                (self, Ok(address_of(key)))
            } else {
                (self, Err(AssetErrors::AlreadyBound))
            }
        } else {
            (
                RegistryView {
                    holders: self.holders.insert(key, AssetAuthority { user: holder }),
                    ..self
                },
                Ok(address_of(key)),
            )
        }
    }

    /// Binding the holder authority derived from the balance account.
    pub open spec fn initialize_assets_ata(self, balance: Address, holder: Address) -> (
        RegistryView,
        Result<Address, AssetErrors>,
    ) {
        match program_address(holder_seeds(balance@), self.program@) {
            Some(k) => self.initialize_assets_ata_at(k, holder),
            None => (self, Err(AssetErrors::InvalidArguments)),
        }
    }

    /// Whether some grant lets `caller` mint the asset at `asset`.
    pub open spec fn has_grant(self, caller: Seq<u8>, asset: Seq<u8>) -> bool {
        exists|k: Seq<u8>|
            #![trigger self.grants[k]]
            self.grants.contains_key(k) && self.grants[k].user@ == caller && self.grants[k].asset_account@
                == asset
    }

    /// Whether `caller` may mint the asset at `asset`: it owns the asset's
    /// game, or holds a grant for the asset.
    pub open spec fn may_mint(self, caller: Seq<u8>, asset: Seq<u8>) -> bool {
        self.games[self.assets[asset].game@].owner@ == caller || self.has_grant(caller, asset)
    }

    /// Minting `amount` of `asset` into the balance `recipient`, whose holder
    /// authority `holder_key` is bound to `recipient_holder`. With collateral
    /// enabled, the collateral due is taken from `caller_credit`. The value
    /// is the amount minted and the collateral charged.
    pub open spec fn mint_at(
        self,
        holder_key: Seq<u8>,
        caller: Address,
        asset: Address,
        amount: u64,
        recipient: Address,
        recipient_holder: Address,
        caller_credit: Address,
    ) -> (RegistryView, Result<(Minted, Seq<LedgerOp<AssetErrors>>), AssetErrors>) {
        if !self.assets.contains_key(asset@) || !self.games.contains_key(
            self.assets[asset@].game@,
        ) {
            (self, Err(AssetErrors::RelationMismatch))
        } else if !self.may_mint(caller@, asset@) {
            (self, Err(AssetErrors::Unauthorized))
        } else {
            let a = self.assets[asset@];
            let (bound, b) = self.initialize_assets_ata_at(holder_key, recipient_holder);
            if b is Err {
                (self, Err(AssetErrors::AlreadyBound))
            } else if !a.collateral_option {
                (bound, Ok((Minted { amount, collateral: 0 }, seq![mint_op(a.mint, recipient, amount)])))
            } else {
                match collateral_spec(a.collateral, amount, a.price) {
                    None => (self, Err(AssetErrors::ArithmeticOverflow)),
                    Some(due) => (
                        bound,
                        Ok(
                            (
                                Minted { amount, collateral: due },
                                seq![
                                    mint_op(a.mint, recipient, amount),
                                    collateral_op(
                                        self.credit_mint,
                                        caller_credit,
                                        self.collateral_vault,
                                        due,
                                    ),
                                ],
                            ),
                        ),
                    ),
                }
            }
        }
    }

    /// Minting, with the holder authority derived from the recipient's balance.
    pub open spec fn mint(
        self,
        caller: Address,
        asset: Address,
        amount: u64,
        recipient: Address,
        recipient_holder: Address,
        caller_credit: Address,
    ) -> (RegistryView, Result<(Minted, Seq<LedgerOp<AssetErrors>>), AssetErrors>) {
        match program_address(holder_seeds(recipient@), self.program@) {
            Some(k) => self.mint_at(
                k,
                caller,
                asset,
                amount,
                recipient,
                recipient_holder,
                caller_credit,
            ),
            None => (self, Err(AssetErrors::InvalidArguments)),
        }
    }
}

/// Whether some grant in `grants` lets `caller` mint `asset`.
fn find_grant(grants: &Store<MintAuthority>, caller: &Address, asset: &Address) -> (r: bool)
    requires
        grants.inv(),
    ensures
        r == exists|k: Seq<u8>|
            #![trigger grants@[k]]
            grants@.contains_key(k) && grants@[k].user@ == caller@ && grants@[k].asset_account@
                == asset@,
{
    proof {
        grants.lemma_entries();
    }
    let n = grants.len();
    let mut i: usize = 0;
    while i < n
        invariant
            0 <= i <= n,
            n == grants.entries().len(),
            grants.inv(),
            forall|j: int|
                0 <= j < i ==> !((#[trigger] grants.entries()[j]).value.user@ == caller@
                    && grants.entries()[j].value.asset_account@ == asset@),
        decreases n - i,
    {
        let e = grants.entry(i);
        if e.value.user.same(caller) && e.value.asset_account.same(asset) {
            proof {
                grants.lemma_entries();
                assert(grants.entries()[i as int] == *e);
                assert(grants@.contains_key(e.key@));
                assert(grants@[e.key@] == e.value);
            }
            return true;
        }
        i = i + 1;
    }
    assert forall|k: Seq<u8>| #[trigger]
        grants@.contains_key(k) implies !(grants@[k].user@ == caller@ && grants@[k].asset_account@
        == asset@) by {
        let j = choose|j: int| 0 <= j < grants.entries().len() && (#[trigger] grants.entries()[j]).key@ == k;
        assert(grants@[grants.entries()[j].key@] == grants.entries()[j].value);
    }
    false
}

impl Registry {
    /// Registers an asset under `key` and `mint`, the addresses derived for
    /// its record and its token mint.
    pub fn initialize_assets_at(
        &mut self,
        key: Address,
        mint: Address,
        caller: Address,
        game: Address,
        args: InitializeAssetDataArgs,
    ) -> (r: Result<Receipt<Address, AssetErrors>, AssetErrors>)
        requires
            old(self).inv(),
            program_address(asset_seeds(args.name@, game@), old(self)@.program@) == Some(key@),
            program_address(mint_seeds(game@, key@), old(self)@.program@) == Some(mint@),
        ensures
            final(self).inv(),
            (final(self)@, receipt_view(r)) == old(self)@.initialize_assets_at(key@, mint, caller, game, args),
    {
        proof {
            lemma_address_of(key);
        }
        if args.name.as_str().as_bytes().len() >= ASSET_NAME_LIMIT
            || args.symbol.as_str().as_bytes().len() >= ASSET_SYMBOL_LIMIT
            || args.uri.as_str().as_bytes().len() >= ASSET_URI_LIMIT {
            return Err(AssetErrors::InvalidArguments);
        }
        match self.games.get(&game) {
            None => {
                return Err(AssetErrors::RelationMismatch);
            },
            Some(g) => {
                if !g.owner.same(&caller) {
                    return Err(AssetErrors::Unauthorized);
                }
            },
        }
        match self.assets.get(&key) {
            Some(_) => {
                return Err(AssetErrors::AlreadyExists);
            },
            None => {},
        }
        let record = AssetData {
            game,
            mint,
            name: args.name,
            symbol: args.symbol,
            uri: args.uri,
            price: args.price,
            score: args.score,
            trade: args.trade_option,
            collateral_option: args.collateral_option,
            collateral: args.collateral,
        };
        self.assets.insert(key, record);
        let mut ops: Vec<LedgerOp<AssetErrors>> = Vec::new();
        ops.push(
            LedgerOp {
                action: LedgerAction::CreateMint { mint, authority: mint },
                authority: Authority::Caller,
                on_failure: AssetErrors::MintFailed,
            },
        );
        assert(ops@ =~= seq![create_mint_op(mint)]);
        Ok(Receipt { value: key, ops })
    }

    /// Registers an asset of `game` on behalf of the game's owner; returns the
    /// asset's address and the plan that creates its token mint.
    pub fn initialize_assets(&mut self, caller: Address, game: Address, args: InitializeAssetDataArgs) -> (r:
        Result<Receipt<Address, AssetErrors>, AssetErrors>)
        requires
            old(self).inv(),
        ensures
            final(self).inv(),
            (final(self)@, receipt_view(r)) == old(self)@.initialize_assets(caller, game, args),
    {
        if args.name.as_str().as_bytes().len() >= ASSET_NAME_LIMIT
            || args.symbol.as_str().as_bytes().len() >= ASSET_SYMBOL_LIMIT
            || args.uri.as_str().as_bytes().len() >= ASSET_URI_LIMIT {
            return Err(AssetErrors::InvalidArguments);
        }
        let key = match asset_address(args.name.as_str(), &game, &self.program) {
            Some(k) => k,
            None => {
                return Err(AssetErrors::InvalidArguments);
            },
        };
        let mint = match mint_address(&game, &key, &self.program) {
            Some(m) => m,
            None => {
                return Err(AssetErrors::InvalidArguments);
            },
        };
        proof {
            lemma_address_of(mint);
        }
        self.initialize_assets_at(key, mint, caller, game, args)
    }

    /// Binds `key`, the holder authority derived from `balance`, to `holder`.
    pub fn initialize_assets_ata_at(&mut self, balance: Address, key: Address, holder: Address) -> (r: Result<
        Address,
        AssetErrors,
    >)
        requires
            old(self).inv(),
            program_address(holder_seeds(balance@), old(self)@.program@) == Some(key@),
        ensures
            final(self).inv(),
            (final(self)@, r) == old(self)@.initialize_assets_ata_at(key@, holder),
    {
        proof {
            lemma_address_of(key);
        }
        match self.holders.get(&key) {
            Some(h) => {
                if h.user.same(&holder) {
                    Ok(key)
                } else {
                    Err(AssetErrors::AlreadyBound)
                }
            },
            None => {
                self.holders.insert(key, AssetAuthority { user: holder });
                Ok(key)
            },
        }
    }

    /// Binds the balance account `balance` to `holder`, the one principal
    /// who may then move it; returns the holder authority's address.
    pub fn initialize_assets_ata(&mut self, balance: Address, holder: Address) -> (r: Result<
        Address,
        AssetErrors,
    >)
        requires
            old(self).inv(),
        ensures
            final(self).inv(),
            (final(self)@, r) == old(self)@.initialize_assets_ata(balance, holder),
    {
        match holder_address(&balance, &self.program) {
            Some(key) => self.initialize_assets_ata_at(balance, key, holder),
            None => Err(AssetErrors::InvalidArguments),
        }
    }

    /// Mints, with `holder_key` the holder authority derived from `recipient`.
    pub fn mint_at(
        &mut self,
        holder_key: Address,
        caller: Address,
        asset: Address,
        amount: u64,
        recipient: Address,
        recipient_holder: Address,
        caller_credit: Address,
    ) -> (r: Result<Receipt<Minted, AssetErrors>, AssetErrors>)
        requires
            old(self).inv(),
            program_address(holder_seeds(recipient@), old(self)@.program@) == Some(holder_key@),
        ensures
            final(self).inv(),
            (final(self)@, receipt_view(r)) == old(self)@.mint_at(
                holder_key@,
                caller,
                asset,
                amount,
                recipient,
                recipient_holder,
                caller_credit,
            ),
    {
        let (game, mint, price, collateral_option, ratio) = match self.assets.get(&asset) {
            None => {
                return Err(AssetErrors::RelationMismatch);
            },
            Some(a) => (a.game, a.mint, a.price, a.collateral_option, a.collateral),
        };
        let owner = match self.games.get(&game) {
            None => {
                return Err(AssetErrors::RelationMismatch);
            },
            Some(g) => g.owner,
        };
        if !owner.same(&caller) && !find_grant(&self.grants, &caller, &asset) {
            return Err(AssetErrors::Unauthorized);
        }
        match self.holders.get(&holder_key) {
            Some(h) => {
                if !h.user.same(&recipient_holder) {
                    return Err(AssetErrors::AlreadyBound);
                }
            },
            None => {},
        }
        let due: u64 = if collateral_option {
            match collateral_due(ratio, amount, price) {
                None => {
                    return Err(AssetErrors::ArithmeticOverflow);
                },
                Some(d) => d,
            }
        } else {
            0
        };
        let bound = self.initialize_assets_ata_at(recipient, holder_key, recipient_holder);
        assert(bound is Ok);
        let mut ops: Vec<LedgerOp<AssetErrors>> = Vec::new();
        ops.push(
            LedgerOp {
                action: LedgerAction::MintTo { mint, to: recipient, amount },
                authority: Authority::Program(mint),
                on_failure: AssetErrors::MintFailed,
            },
        );
        if collateral_option {
            ops.push(
                LedgerOp {
                    action: LedgerAction::Transfer {
                        mint: self.credit_mint,
                        from: caller_credit,
                        to: self.collateral_vault,
                        amount: due,
                    },
                    authority: Authority::Caller,
                    on_failure: AssetErrors::MintFailed,
                },
            );
        }
        if collateral_option {
            assert(ops@ =~= seq![
                mint_op(mint, recipient, amount),
                collateral_op(self.credit_mint, caller_credit, self.collateral_vault, due),
            ]);
        } else {
            assert(ops@ =~= seq![mint_op(mint, recipient, amount)]);
        }
        Ok(Receipt { value: Minted { amount, collateral: due }, ops })
    }

    /// Mints `amount` of `asset` into the balance `recipient` on behalf of
    /// `caller`, who must own the asset's game or hold a grant for the asset.
    /// Binds the balance to `recipient_holder`, and fails with `AlreadyBound`
    /// where it is bound to another holder, since a binding never changes.
    /// Where the asset takes collateral, the plan also takes it from
    /// `caller_credit`.
    pub fn mint(
        &mut self,
        caller: Address,
        asset: Address,
        amount: u64,
        recipient: Address,
        recipient_holder: Address,
        caller_credit: Address,
    ) -> (r: Result<Receipt<Minted, AssetErrors>, AssetErrors>)
        requires
            old(self).inv(),
        ensures
            final(self).inv(),
            (final(self)@, receipt_view(r)) == old(self)@.mint(
                caller,
                asset,
                amount,
                recipient,
                recipient_holder,
                caller_credit,
            ),
    {
        match holder_address(&recipient, &self.program) {
            Some(key) => {
                proof {
                    lemma_address_of(key);
                }
                self.mint_at(key, caller, asset, amount, recipient, recipient_holder, caller_credit)
            },
            None => Err(AssetErrors::InvalidArguments),
        }
    }
}

} // verus!
