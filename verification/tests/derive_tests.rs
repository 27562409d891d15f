use permissioned_markets::addr::{
    engine_address, fee_beneficiary_address, rent_sysvar_address, Address,
};
use permissioned_markets::derive::{derive_with_bump, CredentialKind};
use solana_program::pubkey::Pubkey;
use std::str::FromStr;

fn addr(n: u8) -> Address {
    Address::new([n; 32])
}

#[test]
fn fixed_identities_match_their_published_addresses() {
    let engine = Pubkey::from_str("9xQeWvG816bUx9EPjHmaT23yvVM2ZWbrrpZb9PusVFin").unwrap();
    assert_eq!(engine_address().bytes, engine.to_bytes());
    let fee = Pubkey::from_str("2k1bb16Hu7ocviT2KC3wcCgETtnC8tEUuvFBH4C5xStG").unwrap();
    assert_eq!(fee_beneficiary_address().bytes, fee.to_bytes());
    assert_eq!(rent_sysvar_address().bytes, solana_program::sysvar::rent::ID.to_bytes());
}

#[test]
fn derivation_is_deterministic() {
    let relay = addr(9);
    let market = addr(1);
    let user = addr(2);
    let a = permissioned_markets::derive::derive(CredentialKind::ResourceProxy, &relay, &market, Some(&user)).unwrap();
    let b = permissioned_markets::derive::derive(CredentialKind::ResourceProxy, &relay, &market, Some(&user)).unwrap();
    assert_eq!(a.address, b.address);
    assert_eq!(a.bump, b.bump);
    assert_eq!(a.seed_components, b.seed_components);
}

#[test]
fn derivation_matches_the_runtime() {
    let relay = addr(9);
    let market = addr(1);
    let user = addr(2);
    let relay_pk = Pubkey::from(relay.bytes);

    let proxy = permissioned_markets::derive::derive(CredentialKind::ResourceProxy, &relay, &market, Some(&user)).unwrap();
    let (pk, bump) = Pubkey::find_program_address(
        &[b"open-orders", &market.bytes, &user.bytes],
        &relay_pk,
    );
    assert_eq!(proxy.address.bytes, pk.to_bytes());
    assert_eq!(proxy.bump, bump);

    let init = permissioned_markets::derive::derive(CredentialKind::Initializer, &relay, &market, None).unwrap();
    let (ipk, ibump) =
        Pubkey::find_program_address(&[b"open-orders-init", &market.bytes], &relay_pk);
    assert_eq!(init.address.bytes, ipk.to_bytes());
    assert_eq!(init.bump, ibump);
}

#[test]
fn varying_any_input_changes_the_address() {
    let relay = addr(9);
    let market = addr(1);
    let user = addr(2);
    let base = permissioned_markets::derive::derive(CredentialKind::ResourceProxy, &relay, &market, Some(&user)).unwrap();

    let other_user = permissioned_markets::derive::derive(CredentialKind::ResourceProxy, &relay, &market, Some(&addr(3)))
        .unwrap();
    assert_ne!(base.address, other_user.address);

    let other_market = permissioned_markets::derive::derive(CredentialKind::ResourceProxy, &relay, &addr(4), Some(&user))
        .unwrap();
    assert_ne!(base.address, other_market.address);

    let other_relay = permissioned_markets::derive::derive(CredentialKind::ResourceProxy, &addr(5), &market, Some(&user))
        .unwrap();
    assert_ne!(base.address, other_relay.address);
}

#[test]
fn flavors_never_collide() {
    // The two flavors start from distinct seed lists; for the same relay
    // and market their derived addresses differ.
    let relay = addr(9);
    let market = addr(1);
    let user = addr(2);
    let proxy = permissioned_markets::derive::derive(CredentialKind::ResourceProxy, &relay, &market, Some(&user)).unwrap();
    let init = permissioned_markets::derive::derive(CredentialKind::Initializer, &relay, &market, None).unwrap();
    assert_ne!(proxy.address, init.address);
    assert_ne!(proxy.seed_components, init.seed_components);
}

#[test]
fn bump_validation_agrees_with_the_runtime_for_every_bump() {
    let relay = addr(9);
    let market = addr(1);
    let user = addr(2);
    let relay_pk = Pubkey::from(relay.bytes);
    let mut valid = 0u32;
    for bump in 0..=255u8 {
        let ours = derive_with_bump(
            CredentialKind::ResourceProxy,
            &relay,
            &market,
            Some(&user),
            bump,
        );
        let theirs = Pubkey::create_program_address(
            &[b"open-orders", &market.bytes, &user.bytes, &[bump]],
            &relay_pk,
        );
        match (ours, theirs) {
            (Some(c), Ok(pk)) => {
                assert_eq!(c.address.bytes, pk.to_bytes());
                assert_eq!(c.bump, bump);
                valid += 1;
            }
            (None, Err(_)) => {}
            (ours, theirs) => panic!("bump {}: {:?} vs {:?}", bump, ours.is_some(), theirs),
        }
    }
    // Roughly half of all bumps land off the curve; at least one must.
    assert!(valid > 0);
    assert!(valid < 256);
}

#[test]
fn found_bump_rederives_the_same_address() {
    let relay = addr(9);
    let market = addr(1);
    let user = addr(2);
    let searched = permissioned_markets::derive::derive(CredentialKind::ResourceProxy, &relay, &market, Some(&user)).unwrap();
    let exact = derive_with_bump(
        CredentialKind::ResourceProxy,
        &relay,
        &market,
        Some(&user),
        searched.bump,
    )
    .unwrap();
    assert_eq!(searched.address, exact.address);
}
