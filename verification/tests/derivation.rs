use std::str::FromStr;

use asset_vault::address::derive_address;
use asset_vault::address::match_derived;
use asset_vault::address::verify_vault_address;
use asset_vault::address::Address;
use asset_vault::address::Derived;
use asset_vault::address::DomainTag;
use asset_vault::error::ErrorCode;
use solana_program::pubkey::Pubkey;

fn addr(tag: u8) -> Address {
    Address { bytes: [tag; 32] }
}

fn program() -> Address {
    Address { bytes: Pubkey::from_str("EbNFQpCGVTbJSvL7bvXrsjfkd4Z9GMZPrjFt6GEzRbfr").unwrap().to_bytes() }
}

#[test]
fn tags_are_the_bytes_of_their_names() {
    assert_eq!(DomainTag::Vault.seed(), b"vault".to_vec());
    assert_eq!(DomainTag::AssetVault.seed(), b"asset_vault".to_vec());
}

#[test]
fn derivation_agrees_with_the_ledger_primitive() {
    for tag in 0u8..20 {
        let authority = addr(tag);
        let (expected, bump) = Pubkey::find_program_address(
            &[b"vault", &authority.bytes],
            &Pubkey::new_from_array(program().bytes),
        );
        let found = derive_address(DomainTag::Vault, &authority, &program()).unwrap();
        assert_eq!(found.address.bytes, expected.to_bytes());
        assert_eq!(found.bump, bump);
        assert!(found.address != authority);
        assert!(found.address != program());

        let (expected, bump) = Pubkey::find_program_address(
            &[b"asset_vault", &authority.bytes],
            &Pubkey::new_from_array(program().bytes),
        );
        let found = derive_address(DomainTag::AssetVault, &authority, &program()).unwrap();
        assert_eq!(found.address.bytes, expected.to_bytes());
        assert_eq!(found.bump, bump);
    }
}

#[test]
fn derived_address_reproduces_from_its_bump() {
    let authority = addr(3);
    let found = derive_address(DomainTag::Vault, &authority, &program()).unwrap();
    let again = Pubkey::create_program_address(
        &[b"vault", &authority.bytes, &[found.bump]],
        &Pubkey::new_from_array(program().bytes),
    )
    .unwrap();
    assert_eq!(found.address.bytes, again.to_bytes());
}

#[test]
fn derivation_is_deterministic() {
    let first = derive_address(DomainTag::Vault, &addr(5), &program()).unwrap();
    let second = derive_address(DomainTag::Vault, &addr(5), &program()).unwrap();
    assert_eq!(first.address, second.address);
    assert_eq!(first.bump, second.bump);
}

#[test]
fn different_authorities_get_different_addresses() {
    let mut seen: Vec<[u8; 32]> = Vec::new();
    for tag in 0u8..50 {
        let found = derive_address(DomainTag::Vault, &addr(tag), &program()).unwrap();
        assert!(!seen.contains(&found.address.bytes));
        seen.push(found.address.bytes);
    }
}

#[test]
fn different_tags_and_programs_get_different_addresses() {
    let a = derive_address(DomainTag::Vault, &addr(5), &program()).unwrap();
    let b = derive_address(DomainTag::AssetVault, &addr(5), &program()).unwrap();
    let c = derive_address(DomainTag::Vault, &addr(5), &addr(200)).unwrap();
    assert!(a.address != b.address);
    assert!(a.address != c.address);
    assert!(b.address != c.address);
}

#[test]
fn match_derived_answers_the_bump_or_refuses() {
    let d = Derived { address: addr(9), bump: 254 };
    assert_eq!(match_derived(Some(d), &addr(9)), Ok(254));
    assert_eq!(match_derived(Some(d), &addr(8)), Err(ErrorCode::InvalidVaultAddress));
    assert_eq!(match_derived(None, &addr(9)), Err(ErrorCode::InvalidVaultAddress));
}

#[test]
fn verify_vault_address_accepts_only_the_derived_account() {
    let authority = addr(5);
    let found = derive_address(DomainTag::Vault, &authority, &program()).unwrap();
    assert_eq!(
        verify_vault_address(DomainTag::Vault, &authority, &program(), &found.address),
        Ok(found.bump)
    );
    assert_eq!(
        verify_vault_address(DomainTag::Vault, &authority, &program(), &authority),
        Err(ErrorCode::InvalidVaultAddress)
    );
    assert_eq!(
        verify_vault_address(DomainTag::AssetVault, &authority, &program(), &found.address),
        Err(ErrorCode::InvalidVaultAddress)
    );
    assert_eq!(
        verify_vault_address(DomainTag::Vault, &addr(6), &program(), &found.address),
        Err(ErrorCode::InvalidVaultAddress)
    );
}
