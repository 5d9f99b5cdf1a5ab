use anchor_lang::prelude::Pubkey;
use donations::{
    donation_address, id_text, platform_address, program_id, registry_address, Key,
};
use std::str::FromStr;

fn sample_key(fill: u8) -> Key {
    Key::new([fill; 32])
}

fn outside_address(seeds: &[&[u8]]) -> Key {
    let program = Pubkey::new_from_array(program_id().bytes);
    let (address, _) = Pubkey::find_program_address(seeds, &program);
    Key::new(address.to_bytes())
}

#[test]
fn program_id_is_the_declared_one() {
    let declared = Pubkey::from_str("don2A9YodeAqq83ZGUjrXWTvjFBD7FeTUDQMA8XRX3Z").unwrap();
    assert_eq!(program_id().bytes, declared.to_bytes());
}

#[test]
fn id_text_of_small_numbers() {
    assert_eq!(id_text(0), vec![b'0']);
    assert_eq!(id_text(7), vec![b'7']);
    assert_eq!(id_text(10), vec![b'1', b'0']);
}

#[test]
fn id_text_matches_decimal_formatting() {
    for id in [0u64, 9, 10, 99, 100, 12345, 1_000_000_007, u64::MAX] {
        assert_eq!(id_text(id), format!("{}", id).into_bytes());
    }
    assert_eq!(id_text(u64::MAX), vec![
        b'1', b'8', b'4', b'4', b'6', b'7', b'4', b'4', b'0', b'7', b'3', b'7', b'0', b'9', b'5',
        b'5', b'1', b'6', b'1', b'5',
    ]);
}

#[test]
fn platform_address_is_derived_from_tag_and_owner() {
    let owner = sample_key(7);
    let derived = platform_address(&owner).unwrap();
    assert_eq!(derived, outside_address(&[b"donation_platform", &owner.bytes]));
    assert_ne!(derived, owner);
}

#[test]
fn registry_address_is_derived_from_tag_and_owner() {
    let owner = sample_key(7);
    let derived = registry_address(&owner).unwrap();
    assert_eq!(derived, outside_address(&[b"donators", &owner.bytes]));
    assert_ne!(derived, owner);
    assert_ne!(derived, platform_address(&owner).unwrap());
}

#[test]
fn donation_address_is_derived_from_tag_platform_and_id_text() {
    let platform = sample_key(9);
    let derived = donation_address(&platform, 42).unwrap();
    assert_eq!(derived, outside_address(&[b"donation", &platform.bytes, b"42"]));
    assert_ne!(derived, platform);
    assert_ne!(derived, donation_address(&platform, 43).unwrap());
}

#[test]
fn derivation_is_deterministic() {
    let owner = sample_key(200);
    assert_eq!(platform_address(&owner), platform_address(&owner));
    assert_eq!(registry_address(&owner), registry_address(&owner));
    assert_eq!(donation_address(&owner, 1), donation_address(&owner, 1));
}

#[test]
fn different_owners_get_different_addresses() {
    assert_ne!(platform_address(&sample_key(1)), platform_address(&sample_key(2)));
    assert_ne!(registry_address(&sample_key(1)), registry_address(&sample_key(2)));
}

#[test]
fn keys_compare_by_their_bytes() {
    let mut bytes = [3u8; 32];
    let a = Key::new(bytes);
    assert!(a.same(&Key::new(bytes)));
    bytes[31] = 4;
    assert!(!a.same(&Key::new(bytes)));
    bytes[31] = 3;
    bytes[0] = 0;
    assert!(!a.same(&Key::new(bytes)));
}
