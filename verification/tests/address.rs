use anchor_lang::prelude::Pubkey;
use s3mt_presale::address::{
    associated_token_address, config_address, id, ASSOCIATED_TOKEN_PROGRAM_ID, CONFIG_SEED, ID,
    TOKEN_PROGRAM_ID,
};
use s3mt_presale::Identity;
use std::str::FromStr;

fn identity_of(key: &Pubkey) -> Identity {
    Identity::new(key.to_bytes())
}

#[test]
fn program_id_is_the_declared_one() {
    let declared = Pubkey::from_str("5tz5xFvHNnJViiCZ3iHdgqrTC1GfcEvnB49KoxvQpR3D").unwrap();
    assert_eq!(ID, declared.to_bytes());
    assert_eq!(id(), identity_of(&declared));
}

#[test]
fn config_seed_spells_config() {
    assert_eq!(&CONFIG_SEED[..], b"config");
}

#[test]
fn token_program_ids_are_those_of_the_token_crates() {
    assert_eq!(TOKEN_PROGRAM_ID, anchor_spl::token::ID.to_bytes());
    assert_eq!(
        ASSOCIATED_TOKEN_PROGRAM_ID,
        anchor_spl::associated_token::ID.to_bytes()
    );
}

#[test]
fn config_address_is_the_program_derived_address() {
    let program = Pubkey::new_from_array(ID);
    let (expected, _bump) = Pubkey::find_program_address(&[b"config"], &program);
    assert_eq!(config_address(), Some(identity_of(&expected)));
    assert_ne!(config_address(), Some(id()));
}

#[test]
fn associated_token_address_agrees_with_the_token_crates() {
    let wallet = Pubkey::new_from_array([7u8; 32]);
    let mint = Pubkey::new_from_array([9u8; 32]);
    let expected = anchor_spl::associated_token::get_associated_token_address(&wallet, &mint);
    let derived = associated_token_address(&identity_of(&wallet), &identity_of(&mint));
    assert_eq!(derived, Some(identity_of(&expected)));
    assert_ne!(derived, Some(identity_of(&wallet)));
    assert_ne!(derived, Some(identity_of(&mint)));
}

#[test]
fn associated_token_address_depends_on_wallet_and_mint() {
    let a = Identity::new([1u8; 32]);
    let b = Identity::new([2u8; 32]);
    assert_ne!(associated_token_address(&a, &b), associated_token_address(&b, &a));
    assert_eq!(associated_token_address(&a, &b), associated_token_address(&a, &b));
}
