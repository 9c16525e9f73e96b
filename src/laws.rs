use crate::address::{game_seeds, holder_seeds, program_address, Address};
use crate::collateral::collateral_spec;
use crate::errors::{AssetErrors, GameErrors, MarketplaceError};
use crate::registry::RegistryView;
use crate::state::{InitializeAssetDataArgs, SaleState};
use vstd::prelude::*;

verus! {

/// One operation on the registry, with its arguments.
pub enum Request {
    InitializeGame { owner: Address, name: String, description: String },
    InitializeAssets { caller: Address, game: Address, args: InitializeAssetDataArgs },
    GrantAssetMinting { caller: Address, asset: Address, source_game: Address, delegate: Address },
    InitializeAssetsAta { balance: Address, holder: Address },
    Mint {
        caller: Address,
        asset: Address,
        amount: u64,
        recipient: Address,
        recipient_holder: Address,
        caller_credit: Address,
    },
    TransferAssets {
        caller: Address,
        asset: Address,
        amount: u64,
        from: Address,
        to: Address,
        to_holder: Address,
    },
    ListAsset {
        caller: Address,
        asset: Address,
        seller_balance: Address,
        escrow: Address,
        price: u64,
        amount: u64,
        credit: Address,
    },
    BuyFromMarketplace { listing_id: u64, buyer_credit: Address, buyer_asset: Address },
}

/// The registry after the request, whether it succeeded or not.
pub open spec fn step(s: RegistryView, req: Request) -> RegistryView {
    match req {
        Request::InitializeGame { owner, name, description } => s.initialize_game(
            owner,
            name,
            description,
        ).0,
        Request::InitializeAssets { caller, game, args } => s.initialize_assets(caller, game, args).0,
        Request::GrantAssetMinting { caller, asset, source_game, delegate } => s.grant_asset_minting(
            caller,
            asset,
            source_game,
            delegate,
        ).0,
        Request::InitializeAssetsAta { balance, holder } => s.initialize_assets_ata(
            balance,
            holder,
        ).0,
        Request::Mint { caller, asset, amount, recipient, recipient_holder, caller_credit } => s.mint(
            caller,
            asset,
            amount,
            recipient,
            recipient_holder,
            caller_credit,
        ).0,
        Request::TransferAssets { caller, asset, amount, from, to, to_holder } => s.transfer_assets(
            caller,
            asset,
            amount,
            from,
            to,
            to_holder,
        ).0,
        Request::ListAsset { caller, asset, seller_balance, escrow, price, amount, credit } => s.list_asset(
            caller,
            asset,
            seller_balance,
            escrow,
            price,
            amount,
            credit,
        ).0,
        Request::BuyFromMarketplace { listing_id, buyer_credit, buyer_asset } => s.buy_from_marketplace(
            listing_id,
            buyer_credit,
            buyer_asset,
        ).0,
    }
}

/// Whether the request is accepted.
pub open spec fn accepted(s: RegistryView, req: Request) -> bool {
    match req {
        Request::InitializeGame { owner, name, description } => s.initialize_game(
            owner,
            name,
            description,
        ).1 is Ok,
        Request::InitializeAssets { caller, game, args } => s.initialize_assets(caller, game, args).1 is Ok,
        Request::GrantAssetMinting { caller, asset, source_game, delegate } => s.grant_asset_minting(
            caller,
            asset,
            source_game,
            delegate,
        ).1 is Ok,
        Request::InitializeAssetsAta { balance, holder } => s.initialize_assets_ata(
            balance,
            holder,
        ).1 is Ok,
        Request::Mint { caller, asset, amount, recipient, recipient_holder, caller_credit } => s.mint(
            caller,
            asset,
            amount,
            recipient,
            recipient_holder,
            caller_credit,
        ).1 is Ok,
        Request::TransferAssets { caller, asset, amount, from, to, to_holder } => s.transfer_assets(
            caller,
            asset,
            amount,
            from,
            to,
            to_holder,
        ).1 is Ok,
        Request::ListAsset { caller, asset, seller_balance, escrow, price, amount, credit } => s.list_asset(
            caller,
            asset,
            seller_balance,
            escrow,
            price,
            amount,
            credit,
        ).1 is Ok,
        Request::BuyFromMarketplace { listing_id, buyer_credit, buyer_asset } => s.buy_from_marketplace(
            listing_id,
            buyer_credit,
            buyer_asset,
        ).1 is Ok,
    }
}

/// A refused request changes nothing: every failure leaves the registry,
/// its counter and its sales exactly as they were.
pub proof fn lemma_refused_changes_nothing(s: RegistryView, req: Request)
    ensures
        !accepted(s, req) ==> step(s, req) == s,
{
}

/// The listing id that the request is issued, where it is a listing that succeeds.
pub open spec fn issued_by(s: RegistryView, req: Request) -> Option<u64> {
    match req {
        Request::ListAsset { caller, asset, seller_balance, escrow, price, amount, credit } => match s.list_asset(
            caller,
            asset,
            seller_balance,
            escrow,
            price,
            amount,
            credit,
        ).1 {
            Ok((id, _)) => Some(id),
            Err(_) => None,
        },
        _ => None,
    }
}

/// The registry after the requests, in order.
pub open spec fn run(s: RegistryView, reqs: Seq<Request>) -> RegistryView
    decreases reqs.len(),
{
    if reqs.len() == 0 {
        s
    } else {
        step(run(s, reqs.drop_last()), reqs.last())
    }
}

/// The listing ids issued while the requests run, in order.
pub open spec fn issued(s: RegistryView, reqs: Seq<Request>) -> Seq<u64>
    decreases reqs.len(),
{
    if reqs.len() == 0 {
        Seq::empty()
    } else {
        let before = issued(s, reqs.drop_last());
        match issued_by(run(s, reqs.drop_last()), reqs.last()) {
            Some(id) => before.push(id),
            None => before,
        }
    }
}

/// What one request does to the listing counter, the sales and the games.
proof fn lemma_step(s: RegistryView, req: Request)
    requires
        s.wf(),
    ensures
        step(s, req).wf(),
        step(s, req).program == s.program,
        match issued_by(s, req) {
            Some(id) => id == s.next_listing_id && step(s, req).next_listing_id == s.next_listing_id
                + 1,
            None => step(s, req).next_listing_id == s.next_listing_id,
        },
        step(s, req).sales.len() >= s.sales.len(),
        forall|i: int|
            0 <= i < s.sales.len() && (#[trigger] s.sales[i]).sale_state == SaleState::Settled
                ==> step(s, req).sales[i].sale_state == SaleState::Settled,
        forall|k: Seq<u8>| #[trigger] s.games.contains_key(k) ==> step(s, req).games.contains_key(k),
        forall|k: Seq<u8>|
            #[trigger] s.grants.contains_key(k) ==> step(s, req).grants.contains_key(k) && step(
                s,
                req,
            ).grants[k] == s.grants[k],
{
}

/// Listing ids are issued in strictly increasing order and never repeat,
/// over any sequence of requests: each one is at least the counter's value
/// before the sequence and below its value after.
pub proof fn lemma_listing_ids_increase(s: RegistryView, reqs: Seq<Request>)
    requires
        s.wf(),
    ensures
        run(s, reqs).wf(),
        run(s, reqs).next_listing_id >= s.next_listing_id,
        forall|i: int, j: int|
            0 <= i < j < issued(s, reqs).len() ==> issued(s, reqs)[i] < issued(s, reqs)[j],
        forall|i: int|
            0 <= i < issued(s, reqs).len() ==> s.next_listing_id <= #[trigger] issued(s, reqs)[i]
                < run(s, reqs).next_listing_id,
    decreases reqs.len(),
{
    if reqs.len() > 0 {
        let prefix = reqs.drop_last();
        lemma_listing_ids_increase(s, prefix);
        let r = run(s, prefix);
        lemma_step(r, reqs.last());
        let before = issued(s, prefix);
        let after = issued(s, reqs);
        match issued_by(r, reqs.last()) {
            Some(id) => {
                assert(after == before.push(id));
                assert forall|i: int| 0 <= i < after.len() implies s.next_listing_id
                    <= #[trigger] after[i] < run(s, reqs).next_listing_id by {
                    if i < before.len() {
                        assert(after[i] == before[i]);
                    }
                }
                assert forall|i: int, j: int| 0 <= i < j < after.len() implies after[i]
                    < after[j] by {
                    assert(after[i] == before[i]);
                    if j < before.len() {
                        assert(after[j] == before[j]);
                    } else {
                        assert(before[i] < r.next_listing_id);
                    }
                }
            },
            None => {
                assert(after == before);
            },
        }
    }
}

/// A settled sale stays settled whatever requests follow, so buying it again
/// fails with `AlreadySettled` and changes nothing.
pub proof fn lemma_settled_stays_settled(
    s: RegistryView,
    reqs: Seq<Request>,
    listing_id: u64,
    buyer_credit: Address,
    buyer_asset: Address,
)
    requires
        s.wf(),
        listing_id < s.sales.len(),
        s.sales[listing_id as int].sale_state == SaleState::Settled,
    ensures
        listing_id < run(s, reqs).sales.len(),
        run(s, reqs).sales[listing_id as int].sale_state == SaleState::Settled,
        run(s, reqs).buy_from_marketplace(listing_id, buyer_credit, buyer_asset) == (
            run(s, reqs),
            Err::<((), Seq<crate::ledger::LedgerOp<MarketplaceError>>), MarketplaceError>(
                MarketplaceError::AlreadySettled,
            ),
        ),
    decreases reqs.len(),
{
    if reqs.len() > 0 {
        let prefix = reqs.drop_last();
        lemma_settled_stays_settled(s, prefix, listing_id, buyer_credit, buyer_asset);
        lemma_listing_ids_increase(s, prefix);
        lemma_step(run(s, prefix), reqs.last());
    }
}

/// A successful buy settles the sale; a second buy of it fails with
/// `AlreadySettled`.
pub proof fn lemma_buy_settles(
    s: RegistryView,
    listing_id: u64,
    buyer_credit: Address,
    buyer_asset: Address,
    again_credit: Address,
    again_asset: Address,
)
    requires
        s.buy_from_marketplace(listing_id, buyer_credit, buyer_asset).1 is Ok,
    ensures
        ({
            let s1 = s.buy_from_marketplace(listing_id, buyer_credit, buyer_asset).0;
            &&& s1.sales[listing_id as int].sale_state == SaleState::Settled
            &&& s1.buy_from_marketplace(listing_id, again_credit, again_asset) == (
                s1,
                Err::<((), Seq<crate::ledger::LedgerOp<MarketplaceError>>), MarketplaceError>(
                    MarketplaceError::AlreadySettled,
                ),
            )
        }),
{
}

/// Game keys are unique: once `owner` has registered a game named `name`,
/// a later registration of that owner and name, after any requests, fails
/// with `AlreadyExists` and changes nothing, whatever its description.
pub proof fn lemma_game_keys_unique(
    s: RegistryView,
    owner: Address,
    name: String,
    description: String,
    reqs: Seq<Request>,
    again_name: String,
    again_description: String,
)
    requires
        s.wf(),
        s.initialize_game(owner, name, description).1 is Ok,
        again_name@ == name@,
    ensures
        ({
            let s1 = run(s.initialize_game(owner, name, description).0, reqs);
            s1.initialize_game(owner, again_name, again_description) == (
                s1,
                Err::<Address, GameErrors>(GameErrors::AlreadyExists),
            )
        }),
    decreases reqs.len(),
{
    let s0 = s.initialize_game(owner, name, description).0;
    let k = program_address(game_seeds(owner@, name@), s.program@)->0;
    assert(s0.games.contains_key(k));
    lemma_step(s, Request::InitializeGame { owner, name, description });
    lemma_games_kept(s0, reqs, k);
    lemma_listing_ids_increase(s0, reqs);
}

/// No two stored games share an owner and a name, and no two stored assets
/// share a game and a name.
pub proof fn lemma_records_unique(s: RegistryView)
    requires
        s.wf(),
    ensures
        forall|k1: Seq<u8>, k2: Seq<u8>|
            #![trigger s.games[k1], s.games[k2]]
            s.games.contains_key(k1) && s.games.contains_key(k2) && s.games[k1].owner@
                == s.games[k2].owner@ && s.games[k1].name@ == s.games[k2].name@ ==> k1 == k2,
        forall|k1: Seq<u8>, k2: Seq<u8>|
            #![trigger s.assets[k1], s.assets[k2]]
            s.assets.contains_key(k1) && s.assets.contains_key(k2) && s.assets[k1].game@
                == s.assets[k2].game@ && s.assets[k1].name@ == s.assets[k2].name@ ==> k1 == k2,
{
}

/// A grant is never removed or changed: after any requests the delegate
/// still holds it, so a mint of the asset by the delegate never fails with
/// `Unauthorized`.
pub proof fn lemma_grant_persists(
    s: RegistryView,
    reqs: Seq<Request>,
    key: Seq<u8>,
    amount: u64,
    recipient: Address,
    recipient_holder: Address,
    caller_credit: Address,
)
    requires
        s.wf(),
        s.grants.contains_key(key),
    ensures
        run(s, reqs).grants.contains_key(key),
        run(s, reqs).grants[key] == s.grants[key],
        run(s, reqs).mint(
            s.grants[key].user,
            s.grants[key].asset_account,
            amount,
            recipient,
            recipient_holder,
            caller_credit,
        ).1 != Err::<(crate::ledger::Minted, Seq<crate::ledger::LedgerOp<AssetErrors>>), AssetErrors>(
            AssetErrors::Unauthorized,
        ),
    decreases reqs.len(),
{
    if reqs.len() > 0 {
        let prefix = reqs.drop_last();
        lemma_grant_persists(s, prefix, key, amount, recipient, recipient_holder, caller_credit);
        lemma_listing_ids_increase(s, prefix);
        lemma_step(run(s, prefix), reqs.last());
    }
    let r = run(s, reqs);
    assert(r.grants[key].user@ == s.grants[key].user@);
    assert(r.has_grant(s.grants[key].user@, s.grants[key].asset_account@));
}

/// Games are never removed, and the program id never changes.
proof fn lemma_games_kept(s: RegistryView, reqs: Seq<Request>, key: Seq<u8>)
    requires
        s.wf(),
        s.games.contains_key(key),
    ensures
        run(s, reqs).games.contains_key(key),
        run(s, reqs).program == s.program,
    decreases reqs.len(),
{
    if reqs.len() > 0 {
        let prefix = reqs.drop_last();
        lemma_games_kept(s, prefix, key);
        lemma_listing_ids_increase(s, prefix);
        lemma_step(run(s, prefix), reqs.last());
    }
}

/// An asset that cannot be traded can be neither transferred nor listed:
/// both change nothing and fail with `TransferRestricted` (or with
/// `InvalidArguments` where no holder address exists for a balance).
pub proof fn lemma_untradable_asset(
    s: RegistryView,
    caller: Address,
    asset: Address,
    amount: u64,
    from: Address,
    to: Address,
    to_holder: Address,
    escrow: Address,
    price: u64,
    credit: Address,
)
    requires
        s.assets.contains_key(asset@),
        !s.assets[asset@].trade,
    ensures
        s.transfer_assets(caller, asset, amount, from, to, to_holder).0 == s,
        s.transfer_assets(caller, asset, amount, from, to, to_holder).1 == if program_address(
            holder_seeds(from@),
            s.program@,
        ) is Some && program_address(holder_seeds(to@), s.program@) is Some {
            Err::<((), Seq<crate::ledger::LedgerOp<AssetErrors>>), AssetErrors>(
                AssetErrors::TransferRestricted,
            )
        } else {
            Err(AssetErrors::InvalidArguments)
        },
        s.list_asset(caller, asset, from, escrow, price, amount, credit).0 == s,
        s.list_asset(caller, asset, from, escrow, price, amount, credit).1 == if program_address(
            holder_seeds(from@),
            s.program@,
        ) is Some {
            Err::<(u64, Seq<crate::ledger::LedgerOp<MarketplaceError>>), MarketplaceError>(
                MarketplaceError::TransferRestricted,
            )
        } else {
            Err(MarketplaceError::InvalidArguments)
        },
{
}

/// Only the owner of the asset's game, or a delegate holding a grant for the
/// asset, can mint it; any other caller fails with `Unauthorized` (given
/// that the asset and its game exist and a holder address exists for the
/// recipient's balance).
pub proof fn lemma_mint_authority(
    s: RegistryView,
    caller: Address,
    asset: Address,
    amount: u64,
    recipient: Address,
    recipient_holder: Address,
    caller_credit: Address,
)
    ensures
        s.mint(caller, asset, amount, recipient, recipient_holder, caller_credit).1 is Ok ==> (
        s.games[s.assets[asset@].game@].owner@ == caller@ || s.has_grant(caller@, asset@)),
        s.assets.contains_key(asset@) && s.games.contains_key(s.assets[asset@].game@)
            && s.games[s.assets[asset@].game@].owner@ != caller@ && !s.has_grant(caller@, asset@)
            && program_address(holder_seeds(recipient@), s.program@) is Some ==> s.mint(
            caller,
            asset,
            amount,
            recipient,
            recipient_holder,
            caller_credit,
        ) == (s, Err::<(crate::ledger::Minted, Seq<crate::ledger::LedgerOp<AssetErrors>>), AssetErrors>(AssetErrors::Unauthorized)),
{
}

/// Minting an asset that takes collateral, by a caller who may mint it into
/// a balance free for the recipient holder, charges exactly the collateral
/// due, and fails with `ArithmeticOverflow`, changing nothing, where a
/// product exceeds 64 bits.
pub proof fn lemma_mint_collateral(
    s: RegistryView,
    caller: Address,
    asset: Address,
    amount: u64,
    recipient: Address,
    recipient_holder: Address,
    caller_credit: Address,
)
    requires
        s.assets.contains_key(asset@),
        s.games.contains_key(s.assets[asset@].game@),
        s.assets[asset@].collateral_option,
        s.may_mint(caller@, asset@),
        program_address(holder_seeds(recipient@), s.program@) matches Some(k) && (
        !s.holders.contains_key(k) || s.holders[k].user@ == recipient_holder@),
    ensures
        ({
            let a = s.assets[asset@];
            let r = s.mint(caller, asset, amount, recipient, recipient_holder, caller_credit);
            match collateral_spec(a.collateral, amount, a.price) {
                None => r == (
                    s,
                    Err::<(crate::ledger::Minted, Seq<crate::ledger::LedgerOp<AssetErrors>>), AssetErrors>(
                        AssetErrors::ArithmeticOverflow,
                    ),
                ),
                Some(due) => r.1 matches Ok((m, _)) && m.amount == amount && m.collateral == due
                    && due == (a.collateral * amount * a.price) / 100,
            }
        }),
{
}

/// The collateral due is `ratio` percent of the value minted whichever order
/// the three factors are multiplied in, and it is refused, never wrapped,
/// where a product exceeds 64 bits.
pub proof fn lemma_collateral(ratio: u64, amount: u64, price: u64)
    ensures
        collateral_spec(ratio, amount, price) is None <==> (ratio * amount > u64::MAX || ratio
            * amount * price > u64::MAX),
        collateral_spec(ratio, amount, price) matches Some(due) ==> due == (amount * price * ratio)
            / 100 && due == (price * ratio * amount) / 100 && due == (ratio * (amount * price))
            / 100,
        collateral_spec(50, 10, 100) == Some(500u64),
{
    assert(ratio * amount * price == amount * price * ratio) by (nonlinear_arith);
    assert(ratio * amount * price == price * ratio * amount) by (nonlinear_arith);
    assert(ratio * amount * price == ratio * (amount * price)) by (nonlinear_arith);
}

} // verus!
