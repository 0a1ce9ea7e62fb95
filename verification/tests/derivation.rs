use anchor_lang::prelude::Pubkey;
use std::str::FromStr;
use token_vault_system::accounts::Vault;
use token_vault_system::authority::DerivedAuthority;
use token_vault_system::identity::{Identity, PROGRAM_ID};

fn alice() -> Identity {
    Identity { bytes: [1; 32] }
}

fn bob() -> Identity {
    Identity { bytes: [2; 32] }
}

fn registered_program() -> Pubkey {
    Pubkey::from_str("CjnVdEc6tRCZpDA6bRJC5qTpRga2miCGpCZoFHNtt6Te").unwrap()
}

#[test]
fn program_id_is_the_registered_one() {
    assert_eq!(registered_program().to_bytes(), PROGRAM_ID);
}

#[test]
fn seed_is_the_word_vault() {
    assert_eq!(&Vault::SEED[..], b"vault");
    assert_eq!(Vault::MAX_SIZE, 40);
}

#[test]
fn identities_compare_by_their_bytes() {
    assert_eq!(alice(), Identity { bytes: [1; 32] });
    assert_ne!(alice(), bob());
    let mut almost = [1u8; 32];
    almost[31] = 0;
    assert_ne!(alice(), Identity { bytes: almost });
    assert_eq!(alice().to_seed(), vec![1u8; 32]);
}

#[test]
fn derivation_agrees_with_the_address_library() {
    let owner = alice();
    let (address, bump) =
        Pubkey::find_program_address(&[b"vault", &owner.bytes], &registered_program());
    let derived = DerivedAuthority::derive(&Vault::SEED, &owner).unwrap();
    assert_eq!(derived.address.bytes, address.to_bytes());
    assert_eq!(derived.authority.nonce, bump);
    assert_eq!(derived.authority.owner, owner);
    assert_eq!(derived.authority.namespace_tag, b"vault".to_vec());
    assert_ne!(derived.address, owner);
}

#[test]
fn derivation_depends_on_the_tag() {
    let owner = alice();
    let vault = DerivedAuthority::derive(b"vault", &owner).unwrap();
    let other = DerivedAuthority::derive(b"other", &owner).unwrap();
    let (expected, _) =
        Pubkey::find_program_address(&[b"other", &owner.bytes], &registered_program());
    assert_eq!(other.address.bytes, expected.to_bytes());
    assert_ne!(vault.address, other.address);
}

#[test]
fn derivation_is_repeatable() {
    let first = DerivedAuthority::derive(&Vault::SEED, &alice()).unwrap();
    let second = DerivedAuthority::derive(&Vault::SEED, &alice()).unwrap();
    assert_eq!(first.address, second.address);
    assert_eq!(first.authority.nonce, second.authority.nonce);
    assert_eq!(first.authority.namespace_tag, second.authority.namespace_tag);
    assert_eq!(first.authority.owner, second.authority.owner);
}

#[test]
fn distinct_owners_get_distinct_addresses() {
    let first = DerivedAuthority::derive(&Vault::SEED, &alice()).unwrap();
    let second = DerivedAuthority::derive(&Vault::SEED, &bob()).unwrap();
    assert_ne!(first.address, second.address);
    assert_ne!(first.authority.prove(), second.authority.prove());
}

#[test]
fn overlong_tag_derives_nothing() {
    assert!(DerivedAuthority::derive(&[7u8; 32], &alice()).is_some());
    assert!(DerivedAuthority::derive(&[7u8; 33], &alice()).is_none());
}

#[test]
fn derived_address_has_no_key() {
    let derived = DerivedAuthority::derive(&Vault::SEED, &alice()).unwrap();
    assert!(!derived.address.is_key());
    assert!(!Pubkey::new_from_array(derived.address.bytes).is_on_curve());
}

#[test]
fn base_point_of_the_curve_is_a_key() {
    let mut bytes = [0x66u8; 32];
    bytes[0] = 0x58;
    let base_point = Identity { bytes };
    assert!(Pubkey::new_from_array(bytes).is_on_curve());
    assert!(base_point.is_key());
}

#[test]
fn capability_is_tag_owner_and_nonce() {
    let owner = alice();
    let derived = DerivedAuthority::derive(&Vault::SEED, &owner).unwrap();
    let seeds = derived.authority.prove();
    assert_eq!(
        seeds,
        vec![b"vault".to_vec(), owner.bytes.to_vec(), vec![derived.authority.nonce]]
    );
}

#[test]
fn capability_rederives_the_address() {
    let owner = alice();
    let derived = DerivedAuthority::derive(&Vault::SEED, &owner).unwrap();
    let expected = Pubkey::create_program_address(
        &[b"vault", &owner.bytes, &[derived.authority.nonce]],
        &registered_program(),
    )
    .unwrap();
    let address = derived.authority.address().unwrap();
    assert_eq!(address.bytes, expected.to_bytes());
    assert_eq!(address, derived.address);
    assert!(!address.is_key());
}

#[test]
fn capability_of_another_owner_stands_for_another_address() {
    let derived = DerivedAuthority::derive(&Vault::SEED, &alice()).unwrap();
    let forged = DerivedAuthority {
        namespace_tag: b"vault".to_vec(),
        owner: bob(),
        nonce: derived.authority.nonce,
    };
    assert_ne!(forged.address(), Some(derived.address));
}

#[test]
fn capability_with_an_overlong_tag_stands_for_nothing() {
    let forged = DerivedAuthority { namespace_tag: vec![0u8; 33], owner: alice(), nonce: 255 };
    assert_eq!(forged.address(), None);
}

#[test]
fn nonce_is_the_highest_that_derives_an_address() {
    for owner in [alice(), bob(), Identity { bytes: [0; 32] }, Identity { bytes: [255; 32] }] {
        let derived = DerivedAuthority::derive(&Vault::SEED, &owner).unwrap();
        let found = derived.authority.nonce;
        assert!(found >= 1);
        for higher in found.saturating_add(1)..=255 {
            if higher > found {
                let tried = DerivedAuthority {
                    namespace_tag: b"vault".to_vec(),
                    owner,
                    nonce: higher,
                };
                assert_eq!(tried.address(), None);
            }
        }
    }
}

#[test]
fn lower_nonce_stands_for_another_address_or_none() {
    let derived = DerivedAuthority::derive(&Vault::SEED, &alice()).unwrap();
    let lower = DerivedAuthority {
        namespace_tag: b"vault".to_vec(),
        owner: alice(),
        nonce: derived.authority.nonce - 1,
    };
    assert_ne!(lower.address(), Some(derived.address));
}

#[test]
fn default_record_has_the_zero_owner() {
    assert_eq!(Vault::default(), Vault { owner: Identity { bytes: [0; 32] } });
}
