use indie_games::address::{game_address, holder_address, Address};
use indie_games::errors::{AssetErrors, GameErrors, MarketplaceError};
use indie_games::ledger::{conclude, Authority, LedgerAction, LedgerOp, Minted};
use indie_games::registry::Registry;
use indie_games::state::{InitializeAssetDataArgs, SaleState};
use std::collections::HashMap;

fn addr(n: u8) -> Address {
    Address::new([n; 32])
}

const ALICE: u8 = 1;
const BOB: u8 = 2;
const CAROL: u8 = 3;
const DAVE: u8 = 4;
const BOB_ASSETS: u8 = 12;
const BOB_CREDIT: u8 = 13;
const CAROL_ASSETS: u8 = 22;
const CAROL_CREDIT: u8 = 23;
const DAVE_ASSETS: u8 = 32;
const ALICE_CREDIT: u8 = 33;
const ESCROW: u8 = 40;
const PROGRAM: u8 = 200;
const CREDIT_MINT: u8 = 201;
const VAULT: u8 = 202;

/// Balances by (token mint, account), changed all-or-nothing by a plan.
type Balances = HashMap<([u8; 32], [u8; 32]), u64>;

fn balance(ledger: &Balances, mint: &Address, account: &Address) -> u64 {
    *ledger.get(&(mint.bytes, account.bytes)).unwrap_or(&0)
}

fn apply<E: Copy>(ledger: &mut Balances, ops: &[LedgerOp<E>]) -> Result<(), E> {
    let mut next = ledger.clone();
    for op in ops {
        match op.action {
            LedgerAction::CreateMint { .. } => {}
            LedgerAction::MintTo { mint, to, amount } => {
                *next.entry((mint.bytes, to.bytes)).or_insert(0) += amount;
            }
            LedgerAction::Transfer { mint, from, to, amount } => {
                let have = *next.get(&(mint.bytes, from.bytes)).unwrap_or(&0);
                if have < amount {
                    return Err(op.on_failure);
                }
                next.insert((mint.bytes, from.bytes), have - amount);
                *next.entry((mint.bytes, to.bytes)).or_insert(0) += amount;
            }
        }
    }
    *ledger = next;
    Ok(())
}

fn registry() -> Registry {
    Registry::new(addr(PROGRAM), addr(CREDIT_MINT), addr(VAULT))
}

fn sword(trade: bool, collateral_option: bool, collateral: u64) -> InitializeAssetDataArgs {
    InitializeAssetDataArgs {
        name: "Sword".to_string(),
        symbol: "SWD".to_string(),
        uri: "https://x.io/s".to_string(),
        price: 100,
        score: 7,
        trade_option: trade,
        collateral_option,
        collateral,
    }
}

/// Alice's game "RPG" with the asset "Sword"; returns (game, asset, mint).
fn alice_world(reg: &mut Registry, ledger: &mut Balances, trade: bool) -> (Address, Address, Address) {
    let game = reg
        .initialize_game(addr(ALICE), "RPG".to_string(), "desc".to_string())
        .unwrap();
    let receipt = reg.initialize_assets(addr(ALICE), game, sword(trade, false, 0)).unwrap();
    let asset = receipt.value;
    let mint = reg.asset(&asset).unwrap().mint;
    apply(ledger, &receipt.ops).unwrap();
    (game, asset, mint)
}

#[test]
fn owner_mints_to_bob() {
    let mut reg = registry();
    let mut ledger = Balances::new();
    let (game, asset, mint) = alice_world(&mut reg, &mut ledger, true);
    assert_eq!(reg.asset(&asset).unwrap().game, game);
    let receipt = reg
        .mint(addr(ALICE), asset, 50, addr(BOB_ASSETS), addr(BOB), addr(ALICE_CREDIT))
        .unwrap();
    assert_eq!(receipt.value, Minted { amount: 50, collateral: 0 });
    assert_eq!(receipt.ops.len(), 1);
    apply(&mut ledger, &receipt.ops).unwrap();
    assert_eq!(balance(&ledger, &mint, &addr(BOB_ASSETS)), 50);
    let bob_key = holder_address(&addr(BOB_ASSETS), &addr(PROGRAM)).unwrap();
    assert_eq!(reg.holder(&bob_key).unwrap().user, addr(BOB));
}

#[test]
fn stranger_cannot_mint() {
    let mut reg = registry();
    let mut ledger = Balances::new();
    let (_, asset, mint) = alice_world(&mut reg, &mut ledger, true);
    let receipt = reg
        .mint(addr(ALICE), asset, 50, addr(BOB_ASSETS), addr(BOB), addr(ALICE_CREDIT))
        .unwrap();
    apply(&mut ledger, &receipt.ops).unwrap();
    let refused = reg.mint(addr(BOB), asset, 10, addr(BOB_ASSETS), addr(BOB), addr(BOB_CREDIT));
    assert_eq!(refused.err(), Some(AssetErrors::Unauthorized));
    assert_eq!(balance(&ledger, &mint, &addr(BOB_ASSETS)), 50);
}

#[test]
fn list_then_buy_then_buy_again() {
    let mut reg = registry();
    let mut ledger = Balances::new();
    let (_, asset, mint) = alice_world(&mut reg, &mut ledger, true);
    let receipt = reg
        .mint(addr(ALICE), asset, 50, addr(BOB_ASSETS), addr(BOB), addr(ALICE_CREDIT))
        .unwrap();
    apply(&mut ledger, &receipt.ops).unwrap();
    ledger.insert((addr(CREDIT_MINT).bytes, addr(CAROL_CREDIT).bytes), 100);

    let listed = reg
        .list_asset(addr(BOB), asset, addr(BOB_ASSETS), addr(ESCROW), 20, 5, addr(BOB_CREDIT))
        .unwrap();
    assert_eq!(listed.value, 0);
    assert_eq!(reg.next_listing_id(), 1);
    apply(&mut ledger, &listed.ops).unwrap();
    assert_eq!(balance(&ledger, &mint, &addr(ESCROW)), 5);
    assert_eq!(balance(&ledger, &mint, &addr(BOB_ASSETS)), 45);
    assert_eq!(reg.sale(0).unwrap().sale_state, SaleState::Open);

    let bought = reg.buy_from_marketplace(0, addr(CAROL_CREDIT), addr(CAROL_ASSETS)).unwrap();
    assert_eq!(reg.sale(0).unwrap().sale_state, SaleState::Settled);
    apply(&mut ledger, &bought.ops).unwrap();
    assert_eq!(balance(&ledger, &mint, &addr(CAROL_ASSETS)), 5);
    assert_eq!(balance(&ledger, &mint, &addr(ESCROW)), 0);
    assert_eq!(balance(&ledger, &addr(CREDIT_MINT), &addr(CAROL_CREDIT)), 80);
    assert_eq!(balance(&ledger, &addr(CREDIT_MINT), &addr(BOB_CREDIT)), 20);

    let again = reg.buy_from_marketplace(0, addr(CAROL_CREDIT), addr(CAROL_ASSETS));
    assert_eq!(again.err(), Some(MarketplaceError::AlreadySettled));
}

#[test]
fn delegate_mints_after_grant() {
    let mut reg = registry();
    let mut ledger = Balances::new();
    let (game, asset, mint) = alice_world(&mut reg, &mut ledger, true);
    let before = reg.mint(addr(DAVE), asset, 3, addr(DAVE_ASSETS), addr(DAVE), addr(DAVE));
    assert_eq!(before.err(), Some(AssetErrors::Unauthorized));
    let grant = reg.grant_asset_minting(addr(ALICE), asset, game, addr(DAVE)).unwrap();
    let record = reg.grant(&grant).unwrap();
    assert_eq!(record.user, addr(DAVE));
    assert_eq!(record.asset_account, asset);
    let first = reg
        .mint(addr(DAVE), asset, 3, addr(DAVE_ASSETS), addr(DAVE), addr(DAVE))
        .unwrap();
    apply(&mut ledger, &first.ops).unwrap();
    let second = reg
        .mint(addr(DAVE), asset, 4, addr(DAVE_ASSETS), addr(DAVE), addr(DAVE))
        .unwrap();
    apply(&mut ledger, &second.ops).unwrap();
    assert_eq!(balance(&ledger, &mint, &addr(DAVE_ASSETS)), 7);
}

#[test]
fn collateral_is_half_the_value() {
    let mut reg = registry();
    let mut ledger = Balances::new();
    let game = reg
        .initialize_game(addr(ALICE), "RPG".to_string(), "desc".to_string())
        .unwrap();
    let asset = reg.initialize_assets(addr(ALICE), game, sword(true, true, 50)).unwrap().value;
    let mint = reg.asset(&asset).unwrap().mint;
    ledger.insert((addr(CREDIT_MINT).bytes, addr(ALICE_CREDIT).bytes), 600);
    let receipt = reg
        .mint(addr(ALICE), asset, 10, addr(BOB_ASSETS), addr(BOB), addr(ALICE_CREDIT))
        .unwrap();
    assert_eq!(receipt.value, Minted { amount: 10, collateral: 500 });
    assert_eq!(receipt.ops.len(), 2);
    match receipt.ops[1].action {
        LedgerAction::Transfer { mint: m, from, to, amount } => {
            assert_eq!(m, addr(CREDIT_MINT));
            assert_eq!(from, addr(ALICE_CREDIT));
            assert_eq!(to, addr(VAULT));
            assert_eq!(amount, 500);
        }
        _ => panic!("expected the collateral transfer"),
    }
    assert!(matches!(receipt.ops[1].authority, Authority::Caller));
    apply(&mut ledger, &receipt.ops).unwrap();
    assert_eq!(balance(&ledger, &addr(CREDIT_MINT), &addr(VAULT)), 500);
    assert_eq!(balance(&ledger, &addr(CREDIT_MINT), &addr(ALICE_CREDIT)), 100);
    assert_eq!(balance(&ledger, &mint, &addr(BOB_ASSETS)), 10);
}

#[test]
fn collateral_overflow_is_refused() {
    let mut reg = registry();
    let game = reg
        .initialize_game(addr(ALICE), "RPG".to_string(), "desc".to_string())
        .unwrap();
    let asset = reg.initialize_assets(addr(ALICE), game, sword(true, true, 50)).unwrap().value;
    let huge = reg.mint(addr(ALICE), asset, u64::MAX / 10, addr(BOB_ASSETS), addr(BOB), addr(ALICE_CREDIT));
    assert_eq!(huge.err(), Some(AssetErrors::ArithmeticOverflow));
    let bob_key = holder_address(&addr(BOB_ASSETS), &addr(PROGRAM)).unwrap();
    assert!(reg.holder(&bob_key).is_none());
}

#[test]
fn collateral_payment_failure_aborts_mint() {
    let mut reg = registry();
    let mut ledger = Balances::new();
    let game = reg
        .initialize_game(addr(ALICE), "RPG".to_string(), "desc".to_string())
        .unwrap();
    let asset = reg.initialize_assets(addr(ALICE), game, sword(true, true, 50)).unwrap().value;
    let mint = reg.asset(&asset).unwrap().mint;
    let receipt = reg
        .mint(addr(ALICE), asset, 10, addr(BOB_ASSETS), addr(BOB), addr(ALICE_CREDIT))
        .unwrap();
    assert_eq!(apply(&mut ledger, &receipt.ops), Err(AssetErrors::MintFailed));
    assert_eq!(balance(&ledger, &mint, &addr(BOB_ASSETS)), 0);
}

#[test]
fn untradable_asset_cannot_move() {
    let mut reg = registry();
    let mut ledger = Balances::new();
    let (_, asset, _) = alice_world(&mut reg, &mut ledger, false);
    let receipt = reg
        .mint(addr(ALICE), asset, 50, addr(BOB_ASSETS), addr(BOB), addr(ALICE_CREDIT))
        .unwrap();
    apply(&mut ledger, &receipt.ops).unwrap();
    let moved = reg.transfer_assets(addr(BOB), asset, 5, addr(BOB_ASSETS), addr(CAROL_ASSETS), addr(CAROL));
    assert_eq!(moved.err(), Some(AssetErrors::TransferRestricted));
    let listed = reg.list_asset(addr(BOB), asset, addr(BOB_ASSETS), addr(ESCROW), 20, 5, addr(BOB_CREDIT));
    assert_eq!(listed.err(), Some(MarketplaceError::TransferRestricted));
    assert_eq!(reg.next_listing_id(), 0);
}

#[test]
fn holder_transfers_to_another_balance() {
    let mut reg = registry();
    let mut ledger = Balances::new();
    let (_, asset, mint) = alice_world(&mut reg, &mut ledger, true);
    let receipt = reg
        .mint(addr(ALICE), asset, 50, addr(BOB_ASSETS), addr(BOB), addr(ALICE_CREDIT))
        .unwrap();
    apply(&mut ledger, &receipt.ops).unwrap();
    let stolen = reg.transfer_assets(addr(CAROL), asset, 5, addr(BOB_ASSETS), addr(CAROL_ASSETS), addr(CAROL));
    assert_eq!(stolen.err(), Some(AssetErrors::Unauthorized));
    let moved = reg
        .transfer_assets(addr(BOB), asset, 5, addr(BOB_ASSETS), addr(CAROL_ASSETS), addr(CAROL))
        .unwrap();
    let bob_key = holder_address(&addr(BOB_ASSETS), &addr(PROGRAM)).unwrap();
    assert!(matches!(moved.ops[0].authority, Authority::Program(k) if k == bob_key));
    apply(&mut ledger, &moved.ops).unwrap();
    assert_eq!(balance(&ledger, &mint, &addr(BOB_ASSETS)), 45);
    assert_eq!(balance(&ledger, &mint, &addr(CAROL_ASSETS)), 5);
    let too_much = reg
        .transfer_assets(addr(BOB), asset, 100, addr(BOB_ASSETS), addr(CAROL_ASSETS), addr(CAROL))
        .unwrap();
    assert_eq!(apply(&mut ledger, &too_much.ops), Err(AssetErrors::TransferFailed));
    let rebind = reg.transfer_assets(addr(BOB), asset, 1, addr(BOB_ASSETS), addr(CAROL_ASSETS), addr(DAVE));
    assert_eq!(rebind.err(), Some(AssetErrors::AlreadyBound));
}

#[test]
fn listing_needs_the_bound_holder() {
    let mut reg = registry();
    let mut ledger = Balances::new();
    let (_, asset, _) = alice_world(&mut reg, &mut ledger, true);
    let receipt = reg
        .mint(addr(ALICE), asset, 50, addr(BOB_ASSETS), addr(BOB), addr(ALICE_CREDIT))
        .unwrap();
    apply(&mut ledger, &receipt.ops).unwrap();
    let listed = reg.list_asset(addr(CAROL), asset, addr(BOB_ASSETS), addr(ESCROW), 20, 5, addr(CAROL_CREDIT));
    assert_eq!(listed.err(), Some(MarketplaceError::Unauthorized));
    let unknown = reg.list_asset(addr(BOB), addr(99), addr(BOB_ASSETS), addr(ESCROW), 20, 5, addr(BOB_CREDIT));
    assert_eq!(unknown.err(), Some(MarketplaceError::RelationMismatch));
    let escrow_short = reg
        .list_asset(addr(BOB), asset, addr(BOB_ASSETS), addr(ESCROW), 20, 500, addr(BOB_CREDIT))
        .unwrap();
    assert_eq!(apply(&mut ledger, &escrow_short.ops), Err(MarketplaceError::TransferFailed));
}

#[test]
fn listing_ids_count_up() {
    let mut reg = registry();
    let mut ledger = Balances::new();
    let (_, asset, _) = alice_world(&mut reg, &mut ledger, true);
    let receipt = reg
        .mint(addr(ALICE), asset, 50, addr(BOB_ASSETS), addr(BOB), addr(ALICE_CREDIT))
        .unwrap();
    apply(&mut ledger, &receipt.ops).unwrap();
    let mut ids = Vec::new();
    for _ in 0..3 {
        let listed = reg
            .list_asset(addr(BOB), asset, addr(BOB_ASSETS), addr(ESCROW), 20, 1, addr(BOB_CREDIT))
            .unwrap();
        ids.push(listed.value);
    }
    assert_eq!(ids, vec![0, 1, 2]);
    assert_eq!(reg.next_listing_id(), 3);
    assert_eq!(reg.sale(2).unwrap().listing_id, 2);
    assert!(reg.sale(3).is_none());
}

#[test]
fn buying_needs_a_sale_and_a_payment() {
    let mut reg = registry();
    let mut ledger = Balances::new();
    let (_, asset, mint) = alice_world(&mut reg, &mut ledger, true);
    assert_eq!(
        reg.buy_from_marketplace(0, addr(CAROL_CREDIT), addr(CAROL_ASSETS)).err(),
        Some(MarketplaceError::SaleNotFound)
    );
    let receipt = reg
        .mint(addr(ALICE), asset, 50, addr(BOB_ASSETS), addr(BOB), addr(ALICE_CREDIT))
        .unwrap();
    apply(&mut ledger, &receipt.ops).unwrap();
    let listed = reg
        .list_asset(addr(BOB), asset, addr(BOB_ASSETS), addr(ESCROW), 20, 5, addr(BOB_CREDIT))
        .unwrap();
    apply(&mut ledger, &listed.ops).unwrap();
    let bought = reg.buy_from_marketplace(0, addr(CAROL_CREDIT), addr(CAROL_ASSETS)).unwrap();
    assert_eq!(apply(&mut ledger, &bought.ops), Err(MarketplaceError::PaymentFailed));
    assert_eq!(balance(&ledger, &mint, &addr(CAROL_ASSETS)), 0);
    let sale = reg.sale(0).unwrap();
    let escrow_key = holder_address(&addr(ESCROW), &addr(PROGRAM)).unwrap();
    assert!(matches!(bought.ops[1].authority, Authority::Program(k) if k == escrow_key));
    assert_eq!(sale.price, 20);
    assert_eq!(sale.sale_amount, 5);
    let mut drained = ledger.clone();
    drained.insert((addr(CREDIT_MINT).bytes, addr(CAROL_CREDIT).bytes), 20);
    drained.insert((mint.bytes, addr(ESCROW).bytes), 0);
    assert_eq!(apply(&mut drained, &bought.ops), Err(MarketplaceError::SettlementFailed));
}

#[test]
fn games_are_unique_per_owner_and_name() {
    let mut reg = registry();
    let game = reg
        .initialize_game(addr(ALICE), "RPG".to_string(), "desc".to_string())
        .unwrap();
    assert_eq!(Some(game), game_address(&addr(ALICE), "RPG", &addr(PROGRAM)));
    assert_ne!(game, addr(ALICE));
    let again = reg.initialize_game(addr(ALICE), "RPG".to_string(), "other".to_string());
    assert_eq!(again.err(), Some(GameErrors::AlreadyExists));
    let again_long = reg.initialize_game(addr(ALICE), "RPG".to_string(), "d".repeat(51));
    assert_eq!(again_long.err(), Some(GameErrors::AlreadyExists));
    assert_eq!(reg.game(&game).unwrap().description, "desc");
    let other = reg
        .initialize_game(addr(BOB), "RPG".to_string(), "desc".to_string())
        .unwrap();
    assert_ne!(other, game);
    assert_eq!(reg.game(&game).unwrap().description, "desc");
    assert_eq!(reg.game(&other).unwrap().owner, addr(BOB));
}

#[test]
fn game_text_limits() {
    let mut reg = registry();
    let long_name = reg.initialize_game(addr(ALICE), "ABCDEFGHIJK".to_string(), "desc".to_string());
    assert_eq!(long_name.err(), Some(GameErrors::InvalidArguments));
    let long_description = reg.initialize_game(addr(ALICE), "RPG".to_string(), "d".repeat(51));
    assert_eq!(long_description.err(), Some(GameErrors::InvalidArguments));
    assert!(reg.initialize_game(addr(ALICE), "ABCDEFGHIJ".to_string(), "d".repeat(50)).is_ok());
}

#[test]
fn asset_registration_rules() {
    let mut reg = registry();
    let game = reg
        .initialize_game(addr(ALICE), "RPG".to_string(), "desc".to_string())
        .unwrap();
    let by_bob = reg.initialize_assets(addr(BOB), game, sword(true, false, 0));
    assert_eq!(by_bob.err(), Some(AssetErrors::Unauthorized));
    let mut long_by_bob = sword(true, false, 0);
    long_by_bob.name = "N".repeat(40);
    assert_eq!(
        reg.initialize_assets(addr(BOB), game, long_by_bob).err(),
        Some(AssetErrors::InvalidArguments)
    );
    let no_game = reg.initialize_assets(addr(ALICE), addr(77), sword(true, false, 0));
    assert_eq!(no_game.err(), Some(AssetErrors::RelationMismatch));
    let mut long_symbol = sword(true, false, 0);
    long_symbol.symbol = "SWORD".to_string();
    assert_eq!(
        reg.initialize_assets(addr(ALICE), game, long_symbol).err(),
        Some(AssetErrors::InvalidArguments)
    );
    let mut long_name = sword(true, false, 0);
    long_name.name = "N".repeat(20);
    assert_eq!(
        reg.initialize_assets(addr(ALICE), game, long_name).err(),
        Some(AssetErrors::InvalidArguments)
    );
    let mut long_uri = sword(true, false, 0);
    long_uri.uri = "u".repeat(20);
    assert_eq!(
        reg.initialize_assets(addr(ALICE), game, long_uri).err(),
        Some(AssetErrors::InvalidArguments)
    );
    let first = reg.initialize_assets(addr(ALICE), game, sword(true, false, 0)).unwrap();
    let data = reg.asset(&first.value).unwrap();
    assert_eq!(data.price, 100);
    assert_eq!(data.score, 7);
    assert!(data.trade);
    match first.ops[0].action {
        LedgerAction::CreateMint { mint, authority } => {
            assert_eq!(mint, data.mint);
            assert_eq!(authority, data.mint);
        }
        _ => panic!("expected the mint to be created"),
    }
    let second = reg.initialize_assets(addr(ALICE), game, sword(false, false, 0));
    assert_eq!(second.err(), Some(AssetErrors::AlreadyExists));
    let unknown = reg.mint(addr(ALICE), addr(78), 1, addr(BOB_ASSETS), addr(BOB), addr(ALICE_CREDIT));
    assert_eq!(unknown.err(), Some(AssetErrors::RelationMismatch));
}

#[test]
fn grant_rules() {
    let mut reg = registry();
    let mut ledger = Balances::new();
    let (game, asset, _) = alice_world(&mut reg, &mut ledger, true);
    let bob_game = reg
        .initialize_game(addr(BOB), "Kart".to_string(), "race".to_string())
        .unwrap();
    assert_eq!(
        reg.grant_asset_minting(addr(BOB), asset, game, addr(DAVE)).err(),
        Some(GameErrors::Unauthorized)
    );
    assert_eq!(
        reg.grant_asset_minting(addr(BOB), asset, bob_game, addr(DAVE)).err(),
        Some(GameErrors::RelationMismatch)
    );
    assert!(reg.grant_asset_minting(addr(ALICE), asset, game, addr(DAVE)).is_ok());
    assert_eq!(
        reg.grant_asset_minting(addr(ALICE), asset, game, addr(DAVE)).err(),
        Some(GameErrors::AlreadyExists)
    );
}

#[test]
fn binding_is_idempotent_but_exclusive() {
    let mut reg = registry();
    let key = reg.initialize_assets_ata(addr(BOB_ASSETS), addr(BOB)).unwrap();
    assert_eq!(Some(key), holder_address(&addr(BOB_ASSETS), &addr(PROGRAM)));
    assert_ne!(key, addr(BOB_ASSETS));
    assert_eq!(reg.initialize_assets_ata(addr(BOB_ASSETS), addr(BOB)), Ok(key));
    assert_eq!(
        reg.initialize_assets_ata(addr(BOB_ASSETS), addr(CAROL)),
        Err(AssetErrors::AlreadyBound)
    );
    assert_eq!(reg.holder(&key).unwrap().user, addr(BOB));
}

#[test]
fn refused_plan_keeps_the_registry_before() {
    let mut reg = registry();
    let mut ledger = Balances::new();
    let (_, asset, _) = alice_world(&mut reg, &mut ledger, true);
    let receipt = reg
        .mint(addr(ALICE), asset, 50, addr(BOB_ASSETS), addr(BOB), addr(ALICE_CREDIT))
        .unwrap();
    apply(&mut ledger, &receipt.ops).unwrap();
    let before = reg.clone();
    let listed = reg
        .list_asset(addr(BOB), asset, addr(BOB_ASSETS), addr(ESCROW), 20, 5, addr(BOB_CREDIT))
        .unwrap();
    let (kept, result) = conclude(before, reg, listed, Some(0));
    assert_eq!(result, Err(MarketplaceError::TransferFailed));
    assert_eq!(kept.next_listing_id(), 0);
    assert!(kept.sale(0).is_none());
    let mut reg = kept;
    let before = reg.clone();
    let listed = reg
        .list_asset(addr(BOB), asset, addr(BOB_ASSETS), addr(ESCROW), 20, 5, addr(BOB_CREDIT))
        .unwrap();
    let (kept, result) = conclude(before, reg, listed, None);
    assert_eq!(result, Ok(0));
    assert_eq!(kept.next_listing_id(), 1);
}
