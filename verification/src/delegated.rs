//! Vaults that are themselves the token-holding account: the vault keeps no
//! books of its own, and what it holds is what the token program says.
//!
//! Each operation answers with the calls into other programs that carry it
//! out. A deposit and a withdrawal are one call each, and how it ends is how
//! the operation ends. The making of a vault is two calls: the caller makes
//! the first and asks [`after_creation`] what follows from its outcome.

use vstd::prelude::*;
use crate::address::Address;
use crate::address::DomainTag;
use crate::address::Derived;
use crate::address::address_check;
use crate::address::derive_address;
use crate::address::derived;
use crate::address::match_derived;
use crate::error::ErrorCode;
use crate::error::Failure;
use crate::instruction::Invocation;
use crate::instruction::InvocationView;
use crate::instruction::TOKEN_ACCOUNT_LEN;
use crate::instruction::build_system_create_account;
use crate::instruction::build_token_initialize_account;
use crate::instruction::build_token_transfer;
use crate::instruction::system_create_account;
use crate::instruction::token_initialize_account;
use crate::instruction::token_program_id;
use crate::instruction::token_transfer;
use crate::policy::WithdrawalPolicy;
use crate::transfer::SignerSeeds;

verus! {

/// The operations of the program.
#[derive(Clone, Copy, Debug, PartialEq, Eq, Structural)]
pub enum VaultInstruction {
    /// Make the vault of an authority and bind it to a token type.
    InitializeVault,
    /// Move this many units from the depositor into the depositor's vault.
    DepositTokens(u64),
    /// Move this many units out of the withdrawer's own vault.
    WithdrawTokens(u64),
}

/// The policy of these vaults: nobody may withdraw but the authority itself.
pub const POLICY: WithdrawalPolicy = WithdrawalPolicy::AuthorityOnly;

/// The two calls that make a vault. The second can only be written down for
/// the token program; for any other program it is the refusal that follows the
/// first call.
#[derive(Debug)]
pub struct VaultSetup {
    /// The system program allocates the account, with the vault signing.
    pub create: Invocation,
    /// The token program makes it a token account that the vault itself owns.
    pub initialize: Result<Invocation, ErrorCode>,
}

/// The making of a vault as contracts speak of it.
#[verifier::ext_equal]
pub struct VaultSetupView {
    pub create: InvocationView,
    pub initialize: Result<InvocationView, ErrorCode>,
}

impl View for VaultSetup {
    type V = VaultSetupView;

    open spec fn view(&self) -> VaultSetupView {
        VaultSetupView {
            create: self.create@,
            initialize: match self.initialize {
                Ok(invocation) => Ok(invocation@),
                Err(e) => Err(e),
            },
        }
    }
}

/// What an operation asks of its caller.
#[derive(Debug)]
pub enum Plan {
    Setup(VaultSetup),
    Transfer(Invocation),
}

/// A plan as contracts speak of it.
#[verifier::ext_equal]
pub enum PlanView {
    Setup(VaultSetupView),
    Transfer(InvocationView),
}

impl View for Plan {
    type V = PlanView;

    open spec fn view(&self) -> PlanView {
        match self {
            Plan::Setup(setup) => PlanView::Setup(setup@),
            Plan::Transfer(invocation) => PlanView::Transfer(invocation@),
        }
    }
}

/// What making a vault answers, given the derivation for the authority and
/// what the host said a rent-exempt token account costs. The accounts are, in
/// order: the authority, the vault, the token type, the system program, the
/// token program. The checks come in this order: the number of accounts, the
/// host's answer on rent, the vault's address.
pub open spec fn setup<E>(found: Option<Derived>, accounts: Seq<Address>, rent: Result<u64, E>) -> Result<
    VaultSetupView,
    Failure<E>,
> {
    if accounts.len() < 5 {
        Err(Failure::Refused(ErrorCode::NotEnoughAccountKeys))
    } else {
        match rent {
            Err(e) => Err(Failure::Host(e)),
            Ok(lamports) => match address_check(found, accounts[1]) {
                Err(e) => Err(Failure::Refused(e)),
                Ok(bump) => Ok(
                    VaultSetupView {
                        create: InvocationView {
                            instruction: system_create_account(
                                accounts[0],
                                accounts[1],
                                lamports,
                                TOKEN_ACCOUNT_LEN,
                                accounts[4],
                            ),
                            accounts: seq![0usize, 1usize, 3usize],
                            signer: Some(
                                SignerSeeds { tag: DomainTag::AssetVault, key: accounts[0], bump },
                            ),
                        },
                        initialize: if accounts[4] == token_program_id() {
                            Ok(
                                InvocationView {
                                    instruction: token_initialize_account(
                                        accounts[4],
                                        accounts[1],
                                        accounts[2],
                                        accounts[1],
                                    ),
                                    accounts: seq![1usize, 2usize, 1usize, 4usize],
                                    signer: None,
                                },
                            )
                        } else {
                            Err(ErrorCode::IncorrectProgramId)
                        },
                    },
                ),
            },
        }
    }
}

/// What follows the first call of a vault's making, given how that call
/// ended: the host's failure as it came, or else the second call, or the
/// refusal that stands in its place.
pub open spec fn follow_up<E>(made: VaultSetupView, created: Result<(), E>) -> Result<
    InvocationView,
    Failure<E>,
> {
    match created {
        Err(e) => Err(Failure::Host(e)),
        Ok(_) => match made.initialize {
            Ok(invocation) => Ok(invocation),
            Err(e) => Err(Failure::Refused(e)),
        },
    }
}

/// What a deposit answers, given the derivation for the depositor. The
/// accounts are, in order: the depositor, the depositor's token account, the
/// vault, the token program.
pub open spec fn deposit(found: Option<Derived>, accounts: Seq<Address>, amount: u64) -> Result<
    InvocationView,
    ErrorCode,
> {
    if accounts.len() < 4 {
        Err(ErrorCode::NotEnoughAccountKeys)
    } else {
        match address_check(found, accounts[2]) {
            Err(e) => Err(e),
            Ok(_) => if accounts[3] == token_program_id() {
                Ok(
                    InvocationView {
                        instruction: token_transfer(
                            accounts[3],
                            accounts[1],
                            accounts[2],
                            accounts[0],
                            amount,
                        ),
                        accounts: seq![1usize, 2usize, 0usize, 3usize],
                        signer: None,
                    },
                )
            } else {
                Err(ErrorCode::IncorrectProgramId)
            },
        }
    }
}

/// What a withdrawal answers, given the derivation for the vault's
/// authority. The accounts are, in order: the withdrawer, the withdrawer's
/// token account, the vault, the vault's authority, the token program. The
/// checks come in this order: the number of accounts, the vault's address,
/// the policy, the token program.
pub open spec fn withdrawal(found: Option<Derived>, accounts: Seq<Address>, amount: u64) -> Result<
    InvocationView,
    ErrorCode,
> {
    if accounts.len() < 5 {
        Err(ErrorCode::NotEnoughAccountKeys)
    } else {
        match address_check(found, accounts[2]) {
            Err(e) => Err(e),
            Ok(bump) => match POLICY.verdict(accounts[3], accounts[0]) {
                Err(e) => Err(e),
                Ok(()) => if accounts[4] == token_program_id() {
                    Ok(
                        InvocationView {
                            instruction: token_transfer(
                                accounts[4],
                                accounts[2],
                                accounts[1],
                                accounts[2],
                                amount,
                            ),
                            accounts: seq![2usize, 1usize, 2usize, 4usize],
                            signer: Some(
                                SignerSeeds { tag: DomainTag::AssetVault, key: accounts[3], bump },
                            ),
                        },
                    )
                } else {
                    Err(ErrorCode::IncorrectProgramId)
                },
            },
        }
    }
}

/// The authority whose vault an instruction works on: the fourth account of a
/// withdrawal, the first account in every other case.
pub open spec fn acting_authority(instruction: VaultInstruction, accounts: Seq<Address>) -> Address {
    match instruction {
        VaultInstruction::InitializeVault => accounts[0],
        VaultInstruction::DepositTokens(_) => accounts[0],
        VaultInstruction::WithdrawTokens(_) => accounts[3],
    }
}

/// What an instruction answers, given the derivation for its acting authority
/// and what the host said a rent-exempt token account costs.
pub open spec fn outcome<E>(
    found: Option<Derived>,
    accounts: Seq<Address>,
    instruction: VaultInstruction,
    rent: Result<u64, E>,
) -> Result<PlanView, Failure<E>> {
    match instruction {
        VaultInstruction::InitializeVault => match setup(found, accounts, rent) {
            Ok(made) => Ok(PlanView::Setup(made)),
            Err(e) => Err(e),
        },
        VaultInstruction::DepositTokens(amount) => match deposit(found, accounts, amount) {
            Ok(invocation) => Ok(PlanView::Transfer(invocation)),
            Err(e) => Err(Failure::Refused(e)),
        },
        VaultInstruction::WithdrawTokens(amount) => match withdrawal(found, accounts, amount) {
            Ok(invocation) => Ok(PlanView::Transfer(invocation)),
            Err(e) => Err(Failure::Refused(e)),
        },
    }
}

/// Plans the withdrawal against a derivation that was already made.
pub fn plan_withdrawal(found: Option<Derived>, accounts: &[Address], amount: u64) -> (planned: Result<
    Invocation,
    ErrorCode,
>)
    ensures
        match planned {
            Ok(invocation) => withdrawal(found, accounts@, amount) == Ok::<InvocationView, ErrorCode>(
                invocation@,
            ),
            Err(e) => withdrawal(found, accounts@, amount) == Err::<InvocationView, ErrorCode>(e),
        },
{
    if accounts.len() < 5 {
        return Err(ErrorCode::NotEnoughAccountKeys);
    }
    let withdrawer = accounts[0];
    let withdrawer_token_account = accounts[1];
    let vault_account = accounts[2];
    let vault_authority = accounts[3];
    let token_program = accounts[4];
    let bump = match match_derived(found, &vault_account) {
        Ok(bump) => bump,
        Err(e) => { return Err(e); },
    };
    match POLICY.authorize(&vault_authority, &withdrawer) {
        Ok(()) => {},
        Err(e) => { return Err(e); },
    }
    let instruction = match build_token_transfer(
        &token_program,
        &vault_account,
        &withdrawer_token_account,
        &vault_account,
        amount,
    ) {
        Ok(instruction) => instruction,
        Err(_) => { return Err(ErrorCode::IncorrectProgramId); },
    };
    let places: Vec<usize> = vec![2usize, 1usize, 2usize, 4usize];
    assert(places@ =~= seq![2usize, 1usize, 2usize, 4usize]);
    Ok(
        Invocation {
            instruction,
            accounts: places,
            signer: Some(SignerSeeds { tag: DomainTag::AssetVault, key: vault_authority, bump }),
        },
    )
}

/// Plans the withdrawal of `amount` units from the vault to the withdrawer's
/// token account, with the vault signing for itself. The vault's address is
/// derived anew from the authority it is bound to; only then is the withdrawer
/// held against that authority.
pub fn withdraw_tokens(program_id: &Address, accounts: &[Address], amount: u64) -> (planned: Result<
    Invocation,
    ErrorCode,
>)
    ensures
        match planned {
            Ok(invocation) => withdrawal(
                derived(DomainTag::AssetVault, accounts@[3], *program_id),
                accounts@,
                amount,
            ) == Ok::<InvocationView, ErrorCode>(invocation@),
            Err(e) => withdrawal(
                derived(DomainTag::AssetVault, accounts@[3], *program_id),
                accounts@,
                amount,
            ) == Err::<InvocationView, ErrorCode>(e),
        },
{
    if accounts.len() < 5 {
        return Err(ErrorCode::NotEnoughAccountKeys);
    }
    let found = derive_address(DomainTag::AssetVault, &accounts[3], program_id);
    plan_withdrawal(found, accounts, amount)
}

/// Plans the making of a vault against a derivation that was already made.
pub fn plan_setup<E>(found: Option<Derived>, accounts: &[Address], rent: Result<u64, E>) -> (planned:
    Result<VaultSetup, Failure<E>>)
    ensures
        match planned {
            Ok(made) => setup(found, accounts@, rent) == Ok::<VaultSetupView, Failure<E>>(made@),
            Err(e) => setup(found, accounts@, rent) == Err::<VaultSetupView, Failure<E>>(e),
        },
{
    if accounts.len() < 5 {
        return Err(Failure::Refused(ErrorCode::NotEnoughAccountKeys));
    }
    let vault_authority = accounts[0];
    let vault_account = accounts[1];
    let token_mint = accounts[2];
    let token_program = accounts[4];
    let lamports = match rent {
        Ok(lamports) => lamports,
        Err(e) => { return Err(Failure::Host(e)); },
    };
    let bump = match match_derived(found, &vault_account) {
        Ok(bump) => bump,
        Err(e) => { return Err(Failure::Refused(e)); },
    };
    let create_places: Vec<usize> = vec![0usize, 1usize, 3usize];
    assert(create_places@ =~= seq![0usize, 1usize, 3usize]);
    let create = Invocation {
        instruction: build_system_create_account(
            &vault_authority,
            &vault_account,
            lamports,
            TOKEN_ACCOUNT_LEN,
            &token_program,
        ),
        accounts: create_places,
        signer: Some(SignerSeeds { tag: DomainTag::AssetVault, key: vault_authority, bump }),
    };
    let initialize = match build_token_initialize_account(
        &token_program,
        &vault_account,
        &token_mint,
        &vault_account,
    ) {
        Ok(instruction) => {
            let places: Vec<usize> = vec![1usize, 2usize, 1usize, 4usize];
            assert(places@ =~= seq![1usize, 2usize, 1usize, 4usize]);
            Ok(Invocation { instruction, accounts: places, signer: None })
        },
        Err(_) => Err(ErrorCode::IncorrectProgramId),
    };
    Ok(VaultSetup { create, initialize })
}

/// Plans the making of the authority's vault: an account at the derived
/// address, paid for by the authority, large enough for a token account and
/// exempt from rent, owned by the token program and holding the given token
/// type for the vault itself. `rent` is what the host answered when asked what
/// such an account must hold to be exempt; where the host failed, its failure
/// is handed on as it came.
pub fn initialize_vault<E>(program_id: &Address, accounts: &[Address], rent: Result<u64, E>) -> (planned:
    Result<VaultSetup, Failure<E>>)
    ensures
        match planned {
            Ok(made) => setup(
                derived(DomainTag::AssetVault, accounts@[0], *program_id),
                accounts@,
                rent,
            ) == Ok::<VaultSetupView, Failure<E>>(made@),
            Err(e) => setup(
                derived(DomainTag::AssetVault, accounts@[0], *program_id),
                accounts@,
                rent,
            ) == Err::<VaultSetupView, Failure<E>>(e),
        },
{
    if accounts.len() < 5 {
        return Err(Failure::Refused(ErrorCode::NotEnoughAccountKeys));
    }
    let lamports = match rent {
        Ok(lamports) => lamports,
        Err(e) => { return Err(Failure::Host(e)); },
    };
    let found = derive_address(DomainTag::AssetVault, &accounts[0], program_id);
    plan_setup(found, accounts, Ok(lamports))
}

/// Says what comes after the first call of a vault's making, once the host
/// has answered it. A creation that failed ends the operation with the host's
/// failure, exactly as it came; one that went through is followed by the
/// second call, or by the refusal that stands in its place.
pub fn after_creation<E>(made: VaultSetup, created: Result<(), E>) -> (next: Result<
    Invocation,
    Failure<E>,
>)
    ensures
        match next {
            Ok(invocation) => follow_up(made@, created) == Ok::<InvocationView, Failure<E>>(
                invocation@,
            ),
            Err(e) => follow_up(made@, created) == Err::<InvocationView, Failure<E>>(e),
        },
{
    match created {
        Err(e) => Err(Failure::Host(e)),
        Ok(_) => match made.initialize {
            Ok(invocation) => Ok(invocation),
            Err(e) => Err(Failure::Refused(e)),
        },
    }
}

/// Plans the deposit against a derivation that was already made.
pub fn plan_deposit(found: Option<Derived>, accounts: &[Address], amount: u64) -> (planned: Result<
    Invocation,
    ErrorCode,
>)
    ensures
        match planned {
            Ok(invocation) => deposit(found, accounts@, amount) == Ok::<InvocationView, ErrorCode>(
                invocation@,
            ),
            Err(e) => deposit(found, accounts@, amount) == Err::<InvocationView, ErrorCode>(e),
        },
{
    if accounts.len() < 4 {
        return Err(ErrorCode::NotEnoughAccountKeys);
    }
    let depositor = accounts[0];
    let depositor_token_account = accounts[1];
    let vault_account = accounts[2];
    let token_program = accounts[3];
    match match_derived(found, &vault_account) {
        Ok(_) => {},
        Err(e) => { return Err(e); },
    }
    let instruction = match build_token_transfer(
        &token_program,
        &depositor_token_account,
        &vault_account,
        &depositor,
        amount,
    ) {
        Ok(instruction) => instruction,
        Err(_) => { return Err(ErrorCode::IncorrectProgramId); },
    };
    let places: Vec<usize> = vec![1usize, 2usize, 0usize, 3usize];
    assert(places@ =~= seq![1usize, 2usize, 0usize, 3usize]);
    Ok(Invocation { instruction, accounts: places, signer: None })
}

/// Plans the deposit of `amount` units from the depositor's token account into
/// the depositor's vault, on the depositor's own signature.
pub fn deposit_tokens(program_id: &Address, accounts: &[Address], amount: u64) -> (planned: Result<
    Invocation,
    ErrorCode,
>)
    ensures
        match planned {
            Ok(invocation) => deposit(
                derived(DomainTag::AssetVault, accounts@[0], *program_id),
                accounts@,
                amount,
            ) == Ok::<InvocationView, ErrorCode>(invocation@),
            Err(e) => deposit(
                derived(DomainTag::AssetVault, accounts@[0], *program_id),
                accounts@,
                amount,
            ) == Err::<InvocationView, ErrorCode>(e),
        },
{
    if accounts.len() < 4 {
        return Err(ErrorCode::NotEnoughAccountKeys);
    }
    let found = derive_address(DomainTag::AssetVault, &accounts[0], program_id);
    plan_deposit(found, accounts, amount)
}

/// Plans one instruction of the program. `rent` is what the host answered
/// when asked what a rent-exempt token account costs; only the making of a
/// vault reads it.
pub fn process_instruction<E>(
    program_id: &Address,
    accounts: &[Address],
    instruction: VaultInstruction,
    rent: Result<u64, E>,
) -> (planned: Result<Plan, Failure<E>>)
    ensures
        match planned {
            Ok(plan) => outcome(
                derived(DomainTag::AssetVault, acting_authority(instruction, accounts@), *program_id),
                accounts@,
                instruction,
                rent,
            ) == Ok::<PlanView, Failure<E>>(plan@),
            Err(e) => outcome(
                derived(DomainTag::AssetVault, acting_authority(instruction, accounts@), *program_id),
                accounts@,
                instruction,
                rent,
            ) == Err::<PlanView, Failure<E>>(e),
        },
{
    match instruction {
        VaultInstruction::InitializeVault => match initialize_vault(program_id, accounts, rent) {
            Ok(made) => Ok(Plan::Setup(made)),
            Err(e) => Err(e),
        },
        VaultInstruction::DepositTokens(amount) => match deposit_tokens(program_id, accounts, amount) {
            Ok(invocation) => Ok(Plan::Transfer(invocation)),
            Err(e) => Err(Failure::Refused(e)),
        },
        VaultInstruction::WithdrawTokens(amount) => match withdraw_tokens(program_id, accounts, amount) {
            Ok(invocation) => Ok(Plan::Transfer(invocation)),
            Err(e) => Err(Failure::Refused(e)),
        },
    }
}

/// Under this policy nobody but the authority that a vault is bound to gets a
/// withdrawal from it planned, whatever the amount and wherever the funds are
/// to go: for a vault at the address derived for its authority, the answer to
/// any other withdrawer is `Unauthorized`.
pub proof fn lemma_only_authority_withdraws(program_id: Address, accounts: Seq<Address>, amount: u64)
    requires
        accounts.len() >= 5,
        derived(DomainTag::AssetVault, accounts[3], program_id) matches Some(vault)
            && vault.address == accounts[2],
        accounts[0] != accounts[3],
    ensures
        withdrawal(derived(DomainTag::AssetVault, accounts[3], program_id), accounts, amount) == Err::<
            InvocationView,
            ErrorCode,
        >(ErrorCode::Unauthorized),
{
}

/// A planned withdrawal moves the funds out of the vault on the vault's own
/// word, and the program signs for the vault with the seeds of the vault's own
/// derivation.
pub proof fn lemma_withdrawal_signs_for_vault(program_id: Address, accounts: Seq<Address>, amount: u64)
    requires
        withdrawal(derived(DomainTag::AssetVault, accounts[3], program_id), accounts, amount) is Ok,
    ensures
        ({
            let planned = withdrawal(
                derived(DomainTag::AssetVault, accounts[3], program_id),
                accounts,
                amount,
            )->Ok_0;
            &&& planned.signer matches Some(seeds)
            &&& seeds.sign_for(accounts[2], program_id)
            &&& planned.instruction.accounts[0].pubkey == accounts[2]
            &&& planned.instruction.accounts[2].pubkey == accounts[2]
        }),
{
}

/// The making of a vault creates the second account, paid for by the first,
/// and the program signs for it with the seeds of its derivation from the
/// first.
pub proof fn lemma_setup_creates_the_vault_of_the_authority<E>(
    program_id: Address,
    accounts: Seq<Address>,
    rent: Result<u64, E>,
)
    requires
        setup(derived(DomainTag::AssetVault, accounts[0], program_id), accounts, rent) is Ok,
    ensures
        ({
            let made = setup(
                derived(DomainTag::AssetVault, accounts[0], program_id),
                accounts,
                rent,
            )->Ok_0;
            &&& made.create.signer matches Some(seeds)
            &&& seeds.sign_for(accounts[1], program_id)
            &&& made.create.instruction.accounts[0].pubkey == accounts[0]
            &&& made.create.instruction.accounts[1].pubkey == accounts[1]
        }),
{
}

/// Every account that a plan hands over is one of the accounts of the
/// operation that made it.
pub proof fn lemma_places_are_in_range<E>(
    found: Option<Derived>,
    accounts: Seq<Address>,
    instruction: VaultInstruction,
    rent: Result<u64, E>,
)
    requires
        outcome(found, accounts, instruction, rent) is Ok,
    ensures
        match outcome(found, accounts, instruction, rent)->Ok_0 {
            PlanView::Setup(made) => {
                &&& forall|i: int|
                    0 <= i < made.create.accounts.len() ==> #[trigger] made.create.accounts[i]
                        < accounts.len()
                &&& made.initialize matches Ok(invocation) ==> forall|i: int|
                    0 <= i < invocation.accounts.len() ==> #[trigger] invocation.accounts[i]
                        < accounts.len()
            },
            PlanView::Transfer(invocation) => forall|i: int|
                0 <= i < invocation.accounts.len() ==> #[trigger] invocation.accounts[i]
                    < accounts.len(),
        },
{
}

} // verus!
