use anchor_lang::prelude::Pubkey;
use indie_games::address::{
    asset_address, game_address, grant_address, holder_address, mint_address, sale_address, Address,
};

fn addr(n: u8) -> Address {
    Address::new([n; 32])
}

fn program() -> Pubkey {
    Pubkey::new_from_array([200; 32])
}

fn found(seeds: &[&[u8]]) -> Address {
    Address::new(Pubkey::find_program_address(seeds, &program()).0.to_bytes())
}

#[test]
fn game_address_uses_owner_and_name() {
    let got = game_address(&addr(1), "RPG", &addr(200)).unwrap();
    assert_eq!(got, found(&[&[1u8; 32], b"RPG"]));
    assert_ne!(got, game_address(&addr(1), "MMO", &addr(200)).unwrap());
    assert_ne!(got, game_address(&addr(2), "RPG", &addr(200)).unwrap());
}

#[test]
fn record_addresses_use_their_seeds() {
    assert_eq!(asset_address("Sword", &addr(5), &addr(200)).unwrap(), found(&[b"Sword", &[5u8; 32]]));
    assert_eq!(mint_address(&addr(5), &addr(6), &addr(200)).unwrap(), found(&[&[5u8; 32], &[6u8; 32]]));
    assert_eq!(
        grant_address(&addr(6), &addr(5), &addr(4), &addr(200)).unwrap(),
        found(&[&[6u8; 32], &[5u8; 32], &[4u8; 32]])
    );
    assert_eq!(holder_address(&addr(12), &addr(200)).unwrap(), found(&[&[12u8; 32]]));
}

#[test]
fn sale_address_uses_the_decimal_listing_id() {
    for id in [0u64, 7, 10, 12, 305, u64::MAX] {
        let text = id.to_string();
        assert_eq!(sale_address(id, &addr(200)).unwrap(), found(&[text.as_bytes()]));
    }
    assert_ne!(sale_address(1, &addr(200)), sale_address(10, &addr(200)));
}
