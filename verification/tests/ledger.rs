use asset_vault::address::derive_address;
use asset_vault::address::Address;
use asset_vault::address::Derived;
use asset_vault::address::DomainTag;
use asset_vault::error::ErrorCode;
use asset_vault::ledger::create_vault;
use asset_vault::ledger::deposit_tokens;
use asset_vault::ledger::open_vault;
use asset_vault::ledger::settle;
use asset_vault::ledger::stage_deposit;
use asset_vault::ledger::stage_withdrawal;
use asset_vault::ledger::withdraw_tokens;
use asset_vault::ledger::CreateVault;
use asset_vault::ledger::DepositTokens;
use asset_vault::ledger::VaultAccount;
use asset_vault::ledger::WithdrawTokens;
use asset_vault::policy::WithdrawalPolicy;
use asset_vault::transfer::Authorization;
use asset_vault::vault::VaultState;

fn addr(tag: u8) -> Address {
    Address { bytes: [tag; 32] }
}

const PROGRAM: u8 = 100;
const A: u8 = 1;
const B: u8 = 2;
const C: u8 = 3;
const T: u8 = 10;
const TOKEN_PROGRAM: u8 = 50;

fn vault_address(authority: u8) -> Derived {
    derive_address(DomainTag::Vault, &addr(authority), &addr(PROGRAM)).unwrap()
}

fn listed(vault: &VaultState) -> Vec<(u8, u64)> {
    vault.holdings().iter().map(|h| (h.mint.bytes[0], h.balance)).collect()
}

fn deposit_accounts(vault: &VaultState, customer: u8, mint: u8) -> DepositTokens {
    DepositTokens {
        customer: addr(customer),
        customer_token_account: addr(customer + 20),
        vault_token_account: addr(40),
        token_mint: addr(mint),
        vault_account: VaultAccount {
            address: vault_address(vault.asset_manager().bytes[0]).address,
            state: vault.clone(),
        },
        token_program: addr(TOKEN_PROGRAM),
    }
}

fn withdraw_accounts(vault: &VaultState, withdrawer: u8, mint: u8) -> WithdrawTokens {
    WithdrawTokens {
        vault_account: VaultAccount {
            address: vault_address(vault.asset_manager().bytes[0]).address,
            state: vault.clone(),
        },
        vault_token_account: addr(40),
        recipient_token_account: addr(withdrawer + 20),
        token_program: addr(TOKEN_PROGRAM),
        token_mint: addr(mint),
        withdrawer: addr(withdrawer),
    }
}

fn deposit(vault: &mut VaultState, customer: u8, mint: u8, amount: u64) -> Result<(), ErrorCode> {
    let staged = deposit_tokens(&addr(PROGRAM), &deposit_accounts(vault, customer, mint), amount)?;
    settle(vault, staged, Ok::<(), ErrorCode>(()))
}

fn withdraw(vault: &mut VaultState, withdrawer: u8, mint: u8, amount: u64) -> Result<(), ErrorCode> {
    let staged = withdraw_tokens(&addr(PROGRAM), &withdraw_accounts(vault, withdrawer, mint), amount)?;
    settle(vault, staged, Ok::<(), ErrorCode>(()))
}

fn new_vault(authority: u8) -> VaultState {
    let accounts = CreateVault {
        asset_manager: addr(authority),
        vault_account: vault_address(authority).address,
        system_program: addr(0),
    };
    create_vault(&addr(PROGRAM), &accounts).unwrap()
}

#[test]
fn create_vault_makes_empty_books_for_the_authority() {
    let vault = new_vault(A);
    assert_eq!(vault.asset_manager(), addr(A));
    assert!(vault.holdings().is_empty());
}

#[test]
fn create_vault_refuses_any_other_account() {
    let accounts = CreateVault {
        asset_manager: addr(A),
        vault_account: vault_address(B).address,
        system_program: addr(0),
    };
    assert_eq!(create_vault(&addr(PROGRAM), &accounts).err(), Some(ErrorCode::InvalidVaultAddress));
    let accounts = CreateVault { asset_manager: addr(A), vault_account: addr(A), system_program: addr(0) };
    assert_eq!(create_vault(&addr(PROGRAM), &accounts).err(), Some(ErrorCode::InvalidVaultAddress));
}

#[test]
fn open_vault_follows_the_derivation_it_is_given() {
    let accounts = CreateVault { asset_manager: addr(A), vault_account: addr(77), system_program: addr(0) };
    let made = open_vault(Some(Derived { address: addr(77), bump: 255 }), &accounts).unwrap();
    assert_eq!(made.asset_manager(), addr(A));
    assert!(made.holdings().is_empty());
    assert_eq!(
        open_vault(Some(Derived { address: addr(78), bump: 255 }), &accounts).err(),
        Some(ErrorCode::InvalidVaultAddress)
    );
    assert_eq!(open_vault(None, &accounts).err(), Some(ErrorCode::InvalidVaultAddress));
}

#[test]
fn deposits_accumulate_and_a_full_withdrawal_prunes() {
    let mut vault = new_vault(A);
    assert_eq!(deposit(&mut vault, B, T, 100), Ok(()));
    assert_eq!(listed(&vault), vec![(T, 100)]);
    assert_eq!(deposit(&mut vault, B, T, 50), Ok(()));
    assert_eq!(listed(&vault), vec![(T, 150)]);
    assert_eq!(withdraw(&mut vault, C, T, 150), Ok(()));
    assert!(vault.holdings().is_empty());
    assert_eq!(withdraw(&mut vault, C, T, 1), Err(ErrorCode::TokenNotFound));
    assert!(vault.holdings().is_empty());
    assert_eq!(vault.asset_manager(), addr(A));
}

#[test]
fn authority_cannot_withdraw_from_its_own_vault() {
    let mut vault = new_vault(A);
    deposit(&mut vault, B, T, 100).unwrap();
    for amount in [0u64, 1, 100, 101, u64::MAX] {
        assert_eq!(withdraw(&mut vault, A, T, amount), Err(ErrorCode::AssetManagerCannotWithdraw));
        assert_eq!(listed(&vault), vec![(T, 100)]);
    }
    assert_eq!(withdraw(&mut vault, A, 11, 1), Err(ErrorCode::AssetManagerCannotWithdraw));
    assert_eq!(listed(&vault), vec![(T, 100)]);
}

#[test]
fn withdrawal_beyond_the_balance_fails() {
    let mut vault = new_vault(A);
    deposit(&mut vault, B, T, 150).unwrap();
    assert_eq!(withdraw(&mut vault, C, T, 200), Err(ErrorCode::InsufficientFunds));
    assert_eq!(listed(&vault), vec![(T, 150)]);
}

#[test]
fn withdrawal_requests_a_transfer_signed_by_the_vault() {
    let mut vault = new_vault(A);
    deposit(&mut vault, B, T, 150).unwrap();
    let accounts = withdraw_accounts(&vault, C, T);
    let staged = withdraw_tokens(&addr(PROGRAM), &accounts, 60).unwrap();
    let expected = vault_address(A);
    assert_eq!(staged.transfer.token_program, addr(TOKEN_PROGRAM));
    assert_eq!(staged.transfer.from, addr(40));
    assert_eq!(staged.transfer.to, addr(C + 20));
    assert_eq!(staged.transfer.authority, expected.address);
    assert_eq!(staged.transfer.amount, 60);
    match staged.transfer.authorization {
        Authorization::Derived(seeds) => {
            assert_eq!(seeds.tag, DomainTag::Vault);
            assert_eq!(seeds.key, addr(A));
            assert_eq!(seeds.bump, expected.bump);
        }
        Authorization::Signature => panic!("the vault must sign with its seeds"),
    }
    assert_eq!(listed(&staged.vault), vec![(T, 90)]);
    assert_eq!(listed(&accounts.vault_account.state), vec![(T, 150)]);
}

#[test]
fn deposit_requests_a_transfer_signed_by_the_customer() {
    let vault = new_vault(A);
    let accounts = deposit_accounts(&vault, B, T);
    let staged = deposit_tokens(&addr(PROGRAM), &accounts, 100).unwrap();
    assert_eq!(staged.transfer.token_program, addr(TOKEN_PROGRAM));
    assert_eq!(staged.transfer.from, addr(B + 20));
    assert_eq!(staged.transfer.to, addr(40));
    assert_eq!(staged.transfer.authority, addr(B));
    assert_eq!(staged.transfer.amount, 100);
    assert!(matches!(staged.transfer.authorization, Authorization::Signature));
    assert_eq!(listed(&staged.vault), vec![(T, 100)]);
    assert!(accounts.vault_account.state.holdings().is_empty());
}

#[test]
fn deposit_of_nothing_still_asks_for_its_transfer() {
    let mut vault = new_vault(A);
    let staged = deposit_tokens(&addr(PROGRAM), &deposit_accounts(&vault, B, T), 0).unwrap();
    assert_eq!(staged.transfer.amount, 0);
    assert_eq!(staged.transfer.from, addr(B + 20));
    assert!(staged.vault.holdings().is_empty());
    settle(&mut vault, staged, Ok::<(), ErrorCode>(())).unwrap();
    assert!(vault.holdings().is_empty());
}

#[test]
fn deposit_that_overflows_is_refused() {
    let mut vault = new_vault(A);
    deposit(&mut vault, B, T, u64::MAX).unwrap();
    assert_eq!(deposit(&mut vault, B, T, 1), Err(ErrorCode::ArithmeticOverflow));
    assert_eq!(listed(&vault), vec![(T, u64::MAX)]);
    assert_eq!(deposit(&mut vault, B, 11, 1), Ok(()));
}

#[test]
fn deposit_into_a_misplaced_vault_is_refused() {
    let vault = new_vault(A);
    let mut accounts = deposit_accounts(&vault, B, T);
    accounts.vault_account.address = vault_address(B).address;
    assert_eq!(
        deposit_tokens(&addr(PROGRAM), &accounts, 5).err(),
        Some(ErrorCode::InvalidVaultAddress)
    );
    assert_eq!(
        deposit_tokens(&addr(PROGRAM + 1), &deposit_accounts(&vault, B, T), 5).err(),
        Some(ErrorCode::InvalidVaultAddress)
    );
}

#[test]
fn withdrawal_from_a_misplaced_vault_is_refused_before_the_policy() {
    let mut vault = new_vault(A);
    deposit(&mut vault, B, T, 10).unwrap();
    let mut accounts = withdraw_accounts(&vault, A, T);
    accounts.vault_account.address = addr(99);
    assert_eq!(
        withdraw_tokens(&addr(PROGRAM), &accounts, 5).err(),
        Some(ErrorCode::InvalidVaultAddress)
    );
}

#[test]
fn withdrawal_checks_the_token_type_before_the_balance() {
    let mut vault = new_vault(A);
    deposit(&mut vault, B, T, 10).unwrap();
    assert_eq!(withdraw(&mut vault, C, 11, 1000), Err(ErrorCode::TokenNotFound));
    assert_eq!(withdraw(&mut vault, C, 11, 0), Err(ErrorCode::TokenNotFound));
    assert_eq!(withdraw(&mut vault, C, T, 11), Err(ErrorCode::InsufficientFunds));
}

#[test]
fn stage_withdrawal_follows_the_derivation_it_is_given() {
    let mut state = VaultState::new(addr(A));
    state.credit(addr(T), 150).unwrap();
    let accounts = WithdrawTokens {
        vault_account: VaultAccount { address: addr(77), state },
        vault_token_account: addr(40),
        recipient_token_account: addr(41),
        token_program: addr(TOKEN_PROGRAM),
        token_mint: addr(T),
        withdrawer: addr(C),
    };
    let found = Some(Derived { address: addr(77), bump: 250 });
    let staged = stage_withdrawal(found, &accounts, 150).unwrap();
    assert!(staged.vault.holdings().is_empty());
    assert_eq!(staged.transfer.authority, addr(77));
    match staged.transfer.authorization {
        Authorization::Derived(seeds) => assert_eq!(seeds.bump, 250),
        Authorization::Signature => panic!("the vault must sign with its seeds"),
    }
    assert_eq!(stage_withdrawal(None, &accounts, 150).err(), Some(ErrorCode::InvalidVaultAddress));
    assert_eq!(
        stage_withdrawal(Some(Derived { address: addr(78), bump: 250 }), &accounts, 150).err(),
        Some(ErrorCode::InvalidVaultAddress)
    );
    assert_eq!(stage_withdrawal(found, &accounts, 151).err(), Some(ErrorCode::InsufficientFunds));
}

#[test]
fn stage_deposit_follows_the_derivation_it_is_given() {
    let accounts = DepositTokens {
        customer: addr(B),
        customer_token_account: addr(22),
        vault_token_account: addr(40),
        token_mint: addr(T),
        vault_account: VaultAccount { address: addr(77), state: VaultState::new(addr(A)) },
        token_program: addr(TOKEN_PROGRAM),
    };
    let staged = stage_deposit(Some(Derived { address: addr(77), bump: 250 }), &accounts, 9).unwrap();
    assert_eq!(listed(&staged.vault), vec![(T, 9)]);
    assert_eq!(stage_deposit(None, &accounts, 9).err(), Some(ErrorCode::InvalidVaultAddress));
}

#[test]
fn failed_transfer_leaves_the_vault_as_it_was() {
    let mut vault = new_vault(A);
    deposit(&mut vault, B, T, 150).unwrap();
    let staged = withdraw_tokens(&addr(PROGRAM), &withdraw_accounts(&vault, C, T), 150).unwrap();
    assert!(staged.vault.holdings().is_empty());
    assert_eq!(settle(&mut vault, staged, Err::<(), u32>(17)), Err(17));
    assert_eq!(listed(&vault), vec![(T, 150)]);

    let staged = deposit_tokens(&addr(PROGRAM), &deposit_accounts(&vault, B, T), 5).unwrap();
    assert_eq!(settle(&mut vault, staged, Err::<(), &str>("no funds")), Err("no funds"));
    assert_eq!(listed(&vault), vec![(T, 150)]);
}

#[test]
fn successful_transfer_puts_the_staged_books_in_place() {
    let mut vault = new_vault(A);
    deposit(&mut vault, B, T, 150).unwrap();
    let staged = withdraw_tokens(&addr(PROGRAM), &withdraw_accounts(&vault, C, T), 50).unwrap();
    assert_eq!(settle(&mut vault, staged, Ok::<(), u32>(())), Ok(()));
    assert_eq!(listed(&vault), vec![(T, 100)]);
    assert_eq!(vault.asset_manager(), addr(A));
}

#[test]
fn exclude_authority_refuses_only_the_authority() {
    let policy = WithdrawalPolicy::ExcludeAuthority;
    assert_eq!(policy.authorize(&addr(A), &addr(A)), Err(ErrorCode::AssetManagerCannotWithdraw));
    assert_eq!(policy.authorize(&addr(A), &addr(B)), Ok(()));
    assert_eq!(policy.authorize(&addr(A), &addr(C)), Ok(()));
}

#[test]
fn authority_only_refuses_everyone_else() {
    let policy = WithdrawalPolicy::AuthorityOnly;
    assert_eq!(policy.authorize(&addr(A), &addr(A)), Ok(()));
    assert_eq!(policy.authorize(&addr(A), &addr(B)), Err(ErrorCode::Unauthorized));
    assert_eq!(policy.authorize(&addr(A), &addr(C)), Err(ErrorCode::Unauthorized));
}
