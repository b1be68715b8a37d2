//! Vaults that keep their own books: creation, deposit and withdrawal.
//!
//! Each operation is staged first: it is checked against the vault as it
//! stands and answers with the transfer to request and the books as they will
//! be. The caller hands the transfer to the host and settles with the outcome;
//! only a transfer that went through changes the vault.

use vstd::prelude::*;
use crate::address::Address;
use crate::address::DomainTag;
use crate::address::Derived;
use crate::address::address_check;
use crate::address::derive_address;
use crate::address::derived;
use crate::address::match_derived;
use crate::error::ErrorCode;
use crate::policy::WithdrawalPolicy;
use crate::transfer::Authorization;
use crate::transfer::SignerSeeds;
use crate::transfer::Transfer;
use crate::vault::LedgerOp;
use crate::vault::Vault;
use crate::vault::VaultState;

verus! {

/// A vault account as an operation sees it: where it lives and what it records.
#[derive(Debug)]
pub struct VaultAccount {
    pub address: Address,
    pub state: VaultState,
}

/// The accounts of a vault's creation.
#[derive(Clone, Copy, Debug)]
pub struct CreateVault {
    /// The authority-to-be, who signs and pays for the new account.
    pub asset_manager: Address,
    /// The account that is to become the vault.
    pub vault_account: Address,
    pub system_program: Address,
}

/// The accounts of a deposit.
#[derive(Debug)]
pub struct DepositTokens {
    /// The depositor, who signs.
    pub customer: Address,
    pub customer_token_account: Address,
    pub vault_token_account: Address,
    pub token_mint: Address,
    pub vault_account: VaultAccount,
    pub token_program: Address,
}

/// The accounts of a withdrawal.
#[derive(Debug)]
pub struct WithdrawTokens {
    pub vault_account: VaultAccount,
    pub vault_token_account: Address,
    pub recipient_token_account: Address,
    pub token_program: Address,
    pub token_mint: Address,
    /// The party that asks for the funds, who signs.
    pub withdrawer: Address,
}

/// An operation that passed every check but has not moved any tokens yet.
#[derive(Debug)]
pub struct Staged {
    /// The transfer to request from the host.
    pub transfer: Transfer,
    /// The vault's record as it will be once the transfer has gone through.
    pub vault: VaultState,
}

/// The policy of these vaults: anyone may withdraw but the authority itself.
pub const POLICY: WithdrawalPolicy = WithdrawalPolicy::ExcludeAuthority;

/// What creating a vault answers, given the derivation for the authority-to-be.
pub open spec fn creation(found: Option<Derived>, accounts: CreateVault) -> Result<Vault, ErrorCode> {
    match address_check(found, accounts.vault_account) {
        Err(e) => Err(e),
        Ok(_) => Ok(Vault::empty(accounts.asset_manager)),
    }
}

/// What a deposit answers, given the derivation for the vault's authority.
pub open spec fn deposit(found: Option<Derived>, accounts: DepositTokens, amount: u64) -> Result<
    (Transfer, Vault),
    ErrorCode,
> {
    let vault = accounts.vault_account.state@;
    match address_check(found, accounts.vault_account.address) {
        Err(e) => Err(e),
        Ok(_) => if !vault.can_credit(accounts.token_mint, amount) {
            Err(ErrorCode::ArithmeticOverflow)
        } else {
            Ok(
                (
                    Transfer {
                        token_program: accounts.token_program,
                        from: accounts.customer_token_account,
                        to: accounts.vault_token_account,
                        authority: accounts.customer,
                        amount,
                        authorization: Authorization::Signature,
                    },
                    vault.credit(accounts.token_mint, amount),
                ),
            )
        },
    }
}

/// What a withdrawal answers, given the derivation for the vault's authority.
/// The checks come in this order: the vault's address, the policy, the token
/// type, the balance.
pub open spec fn withdrawal(found: Option<Derived>, accounts: WithdrawTokens, amount: u64) -> Result<
    (Transfer, Vault),
    ErrorCode,
> {
    let vault = accounts.vault_account.state@;
    match address_check(found, accounts.vault_account.address) {
        Err(e) => Err(e),
        Ok(bump) => match POLICY.verdict(vault.authority, accounts.withdrawer) {
            Err(e) => Err(e),
            Ok(()) => match vault.debit_check(accounts.token_mint, amount) {
                Err(e) => Err(e),
                Ok(()) => Ok(
                    (
                        Transfer {
                            token_program: accounts.token_program,
                            from: accounts.vault_token_account,
                            to: accounts.recipient_token_account,
                            authority: accounts.vault_account.address,
                            amount,
                            authorization: Authorization::Derived(
                                SignerSeeds { tag: DomainTag::Vault, key: vault.authority, bump },
                            ),
                        },
                        vault.debit(accounts.token_mint, amount),
                    ),
                ),
            },
        },
    }
}

/// Stages a withdrawal against a derivation that was already made.
pub fn stage_withdrawal(found: Option<Derived>, accounts: &WithdrawTokens, amount: u64) -> (staged:
    Result<Staged, ErrorCode>)
    requires
        accounts.vault_account.state@.wf(),
    ensures
        match staged {
            Ok(s) => withdrawal(found, *accounts, amount) == Ok::<(Transfer, Vault), ErrorCode>(
                (s.transfer, s.vault@),
            ) && s.vault@.wf() && s.vault@.authority
                == accounts.vault_account.state@.authority,
            Err(e) => withdrawal(found, *accounts, amount) == Err::<(Transfer, Vault), ErrorCode>(e),
        },
{
    let bump = match match_derived(found, &accounts.vault_account.address) {
        Ok(bump) => bump,
        Err(e) => { return Err(e); },
    };
    let authority = accounts.vault_account.state.asset_manager();
    match POLICY.authorize(&authority, &accounts.withdrawer) {
        Ok(()) => {},
        Err(e) => { return Err(e); },
    }
    let mut vault = accounts.vault_account.state.clone();
    match vault.debit(accounts.token_mint, amount) {
        Ok(()) => {},
        Err(e) => { return Err(e); },
    }
    let transfer = Transfer {
        token_program: accounts.token_program,
        from: accounts.vault_token_account,
        to: accounts.recipient_token_account,
        authority: accounts.vault_account.address,
        amount,
        authorization: Authorization::Derived(
            SignerSeeds { tag: DomainTag::Vault, key: authority, bump },
        ),
    };
    Ok(Staged { transfer, vault })
}

/// Stages the withdrawal of `amount` units of the token type from the vault to
/// the recipient's account. The vault's address is derived anew from its
/// authority and held against the supplied account before anything else.
pub fn withdraw_tokens(program_id: &Address, accounts: &WithdrawTokens, amount: u64) -> (staged: Result<
    Staged,
    ErrorCode,
>)
    requires
        accounts.vault_account.state@.wf(),
    ensures
        match staged {
            Ok(s) => withdrawal(
                derived(DomainTag::Vault, accounts.vault_account.state@.authority, *program_id),
                *accounts,
                amount,
            ) == Ok::<(Transfer, Vault), ErrorCode>((s.transfer, s.vault@)) && s.vault@.wf()
                && s.vault@.authority == accounts.vault_account.state@.authority,
            Err(e) => withdrawal(
                derived(DomainTag::Vault, accounts.vault_account.state@.authority, *program_id),
                *accounts,
                amount,
            ) == Err::<(Transfer, Vault), ErrorCode>(e),
        },
{
    let authority = accounts.vault_account.state.asset_manager();
    let found = derive_address(DomainTag::Vault, &authority, program_id);
    stage_withdrawal(found, accounts, amount)
}

/// Stages a deposit against a derivation that was already made.
pub fn stage_deposit(found: Option<Derived>, accounts: &DepositTokens, amount: u64) -> (staged: Result<
    Staged,
    ErrorCode,
>)
    requires
        accounts.vault_account.state@.wf(),
    ensures
        match staged {
            Ok(s) => deposit(found, *accounts, amount) == Ok::<(Transfer, Vault), ErrorCode>(
                (s.transfer, s.vault@),
            ) && s.vault@.wf() && s.vault@.authority
                == accounts.vault_account.state@.authority,
            Err(e) => deposit(found, *accounts, amount) == Err::<(Transfer, Vault), ErrorCode>(e),
        },
{
    match match_derived(found, &accounts.vault_account.address) {
        Ok(_) => {},
        Err(e) => { return Err(e); },
    }
    let mut vault = accounts.vault_account.state.clone();
    match vault.credit(accounts.token_mint, amount) {
        Ok(()) => {},
        Err(e) => { return Err(e); },
    }
    let transfer = Transfer {
        token_program: accounts.token_program,
        from: accounts.customer_token_account,
        to: accounts.vault_token_account,
        authority: accounts.customer,
        amount,
        authorization: Authorization::Signature,
    };
    Ok(Staged { transfer, vault })
}

/// Stages the deposit of `amount` units of the token type from the customer's
/// account into the vault. The customer signs for the transfer; a deposit of
/// nothing leaves the books alone and still asks for its transfer.
pub fn deposit_tokens(program_id: &Address, accounts: &DepositTokens, amount: u64) -> (staged: Result<
    Staged,
    ErrorCode,
>)
    requires
        accounts.vault_account.state@.wf(),
    ensures
        match staged {
            Ok(s) => deposit(
                derived(DomainTag::Vault, accounts.vault_account.state@.authority, *program_id),
                *accounts,
                amount,
            ) == Ok::<(Transfer, Vault), ErrorCode>((s.transfer, s.vault@)) && s.vault@.wf()
                && s.vault@.authority == accounts.vault_account.state@.authority,
            Err(e) => deposit(
                derived(DomainTag::Vault, accounts.vault_account.state@.authority, *program_id),
                *accounts,
                amount,
            ) == Err::<(Transfer, Vault), ErrorCode>(e),
        },
{
    let authority = accounts.vault_account.state.asset_manager();
    let found = derive_address(DomainTag::Vault, &authority, program_id);
    stage_deposit(found, accounts, amount)
}

/// Makes the record of a new vault against a derivation that was already made.
pub fn open_vault(found: Option<Derived>, accounts: &CreateVault) -> (made: Result<
    VaultState,
    ErrorCode,
>)
    ensures
        match made {
            Ok(vault) => creation(found, *accounts) == Ok::<Vault, ErrorCode>(vault@) && vault@.wf(),
            Err(e) => creation(found, *accounts) == Err::<Vault, ErrorCode>(e),
        },
{
    match match_derived(found, &accounts.vault_account) {
        Ok(_) => Ok(VaultState::new(accounts.asset_manager)),
        Err(e) => Err(e),
    }
}

/// Makes the record of a new vault for the asset manager: empty books under
/// its authority, at the address derived for it and nowhere else.
pub fn create_vault(program_id: &Address, accounts: &CreateVault) -> (made: Result<
    VaultState,
    ErrorCode,
>)
    ensures
        match made {
            Ok(vault) => creation(
                derived(DomainTag::Vault, accounts.asset_manager, *program_id),
                *accounts,
            ) == Ok::<Vault, ErrorCode>(vault@) && vault@.wf(),
            Err(e) => creation(
                derived(DomainTag::Vault, accounts.asset_manager, *program_id),
                *accounts,
            ) == Err::<Vault, ErrorCode>(e),
        },
{
    let found = derive_address(DomainTag::Vault, &accounts.asset_manager, program_id);
    open_vault(found, accounts)
}

/// Settles a staged operation with what the host answered to its transfer.
/// A transfer that went through puts the staged books in place; one that
/// failed leaves the vault exactly as it was and hands the failure on as it
/// came. The staged record must be one of this vault: whoever controls the
/// vault before controls it after.
pub fn settle<E>(vault: &mut VaultState, staged: Staged, outcome: Result<(), E>) -> (settled: Result<
    (),
    E,
>)
    requires
        staged.vault@.authority == old(vault)@.authority,
    ensures
        final(vault)@.authority == old(vault)@.authority,
        match outcome {
            Ok(()) => settled is Ok && final(vault)@ == staged.vault@,
            Err(e) => settled == Err::<(), E>(e) && final(vault)@ == old(vault)@,
        },
{
    match outcome {
        Ok(()) => {
            *vault = staged.vault;
            Ok(())
        },
        Err(e) => Err(e),
    }
}

/// Under this policy the authority never gets a withdrawal from its own vault
/// staged, whatever the token type, the amount or the balance: once the vault's
/// address has been confirmed, the answer is `AssetManagerCannotWithdraw`.
pub proof fn lemma_authority_cannot_withdraw(
    found: Option<Derived>,
    accounts: WithdrawTokens,
    amount: u64,
)
    requires
        accounts.withdrawer == accounts.vault_account.state@.authority,
        address_check(found, accounts.vault_account.address) is Ok,
    ensures
        withdrawal(found, accounts, amount) == Err::<(Transfer, Vault), ErrorCode>(
            ErrorCode::AssetManagerCannotWithdraw,
        ),
{
}

/// A staged withdrawal signs for the vault with the seeds of the vault's own
/// derivation and for no other address.
pub proof fn lemma_withdrawal_signs_for_vault(program_id: Address, accounts: WithdrawTokens, amount: u64)
    requires
        withdrawal(
            derived(DomainTag::Vault, accounts.vault_account.state@.authority, program_id),
            accounts,
            amount,
        ) is Ok,
    ensures
        ({
            let staged = withdrawal(
                derived(DomainTag::Vault, accounts.vault_account.state@.authority, program_id),
                accounts,
                amount,
            )->Ok_0;
            &&& staged.0.authorization matches Authorization::Derived(seeds)
            &&& seeds.sign_for(staged.0.authority, program_id)
            &&& staged.0.authority == accounts.vault_account.address
        }),
{
}

/// Neither a deposit nor a withdrawal changes who controls the vault, and
/// both keep its books well formed.
pub proof fn lemma_authority_is_kept(
    found: Option<Derived>,
    deposit_accounts: DepositTokens,
    withdraw_accounts: WithdrawTokens,
    amount: u64,
)
    requires
        deposit_accounts.vault_account.state@.wf(),
        withdraw_accounts.vault_account.state@.wf(),
    ensures
        deposit(found, deposit_accounts, amount) matches Ok(staged) ==> staged.1.wf() && staged.1.authority
            == deposit_accounts.vault_account.state@.authority,
        withdrawal(found, withdraw_accounts, amount) matches Ok(staged) ==> staged.1.wf()
            && staged.1.authority == withdraw_accounts.vault_account.state@.authority,
{
    let d = deposit_accounts.vault_account.state@;
    if d.can_credit(deposit_accounts.token_mint, amount) {
        d.lemma_credit(deposit_accounts.token_mint, amount, deposit_accounts.token_mint);
    }
    let w = withdraw_accounts.vault_account.state@;
    if w.debit_check(withdraw_accounts.token_mint, amount) is Ok {
        w.lemma_debit(withdraw_accounts.token_mint, amount, withdraw_accounts.token_mint);
    }
}

/// What a staged deposit or withdrawal does to the books is one entry in
/// their history, and one that the books take.
pub proof fn lemma_staging_is_one_entry(
    found: Option<Derived>,
    deposit_accounts: DepositTokens,
    withdraw_accounts: WithdrawTokens,
    amount: u64,
)
    ensures
        deposit(found, deposit_accounts, amount) matches Ok(staged) ==> {
            let entry = LedgerOp::Deposit { mint: deposit_accounts.token_mint, amount };
            &&& deposit_accounts.vault_account.state@.accepts(entry)
            &&& staged.1 == deposit_accounts.vault_account.state@.apply(entry)
        },
        withdrawal(found, withdraw_accounts, amount) matches Ok(staged) ==> {
            let entry = LedgerOp::Withdraw { mint: withdraw_accounts.token_mint, amount };
            &&& withdraw_accounts.vault_account.state@.accepts(entry)
            &&& staged.1 == withdraw_accounts.vault_account.state@.apply(entry)
        },
{
}

/// A withdrawal that takes the whole balance of a token type leaves no entry
/// of that type on the staged books.
pub proof fn lemma_emptied_entry_is_pruned(found: Option<Derived>, accounts: WithdrawTokens, amount: u64)
    requires
        accounts.vault_account.state@.wf(),
        withdrawal(found, accounts, amount) is Ok,
        accounts.vault_account.state@.balance(accounts.token_mint) == amount,
    ensures
        !(withdrawal(found, accounts, amount)->Ok_0).1.holds(accounts.token_mint),
{
    accounts.vault_account.state@.lemma_debit(accounts.token_mint, amount, accounts.token_mint);
}

} // verus!
