//! Instructions for the token program and the system program, as the
//! operations of a vault hand them to the host.

use vstd::prelude::*;
use vstd::bytes::spec_u64_to_le_bytes;
use crate::address::Address;
use crate::transfer::SignerSeeds;

verus! {

/// The error type of `solana_program`, carried through and never looked into.
#[verifier::external_type_specification]
#[verifier::external_body]
pub struct ExProgramError(solana_program::program_error::ProgramError);

/// The bytes of the token program's address.
pub const TOKEN_PROGRAM_BYTES: [u8; 32] = [
    6, 221, 246, 225, 215, 101, 161, 147, 217, 203, 225, 70, 206, 235, 121, 172, 28, 180, 133, 237,
    95, 91, 55, 145, 58, 140, 245, 133, 126, 255, 0, 169,
];

/// The bytes of the system program's address.
pub const SYSTEM_PROGRAM_BYTES: [u8; 32] = [
    0, 0, 0, 0, 0, 0, 0, 0, 0, 0, 0, 0, 0, 0, 0, 0, 0, 0, 0, 0, 0, 0, 0, 0, 0, 0, 0, 0, 0, 0, 0, 0,
];

/// The bytes of the address under which the host keeps its rent schedule.
pub const RENT_SYSVAR_BYTES: [u8; 32] = [
    6, 167, 213, 23, 25, 44, 92, 81, 33, 140, 201, 76, 61, 74, 241, 127, 88, 218, 238, 8, 155, 161,
    253, 68, 227, 219, 217, 138, 0, 0, 0, 0,
];

/// The address of the token program.
pub open spec fn token_program_id() -> Address {
    Address { bytes: TOKEN_PROGRAM_BYTES }
}

/// The address of the system program.
pub open spec fn system_program_id() -> Address {
    Address { bytes: SYSTEM_PROGRAM_BYTES }
}

/// The address under which the host keeps its rent schedule.
pub open spec fn rent_sysvar_id() -> Address {
    Address { bytes: RENT_SYSVAR_BYTES }
}

/// The size in bytes of a token-holding account.
pub const TOKEN_ACCOUNT_LEN: u64 = 165;

/// One account of an instruction and what the instruction may do with it.
#[derive(Clone, Copy, Debug)]
pub struct AccountMeta {
    pub pubkey: Address,
    pub is_signer: bool,
    pub is_writable: bool,
}

impl AccountMeta {
    /// An account that the instruction may write to.
    pub open spec fn writable(pubkey: Address, is_signer: bool) -> AccountMeta {
        AccountMeta { pubkey, is_signer, is_writable: true }
    }

    /// An account that the instruction only reads.
    pub open spec fn readonly(pubkey: Address, is_signer: bool) -> AccountMeta {
        AccountMeta { pubkey, is_signer, is_writable: false }
    }
}

/// An instruction for another program.
#[derive(Debug)]
pub struct Instruction {
    pub program_id: Address,
    pub accounts: Vec<AccountMeta>,
    pub data: Vec<u8>,
}

/// An instruction as contracts speak of it.
#[verifier::ext_equal]
pub struct InstructionView {
    pub program_id: Address,
    pub accounts: Seq<AccountMeta>,
    pub data: Seq<u8>,
}

impl View for Instruction {
    type V = InstructionView;

    open spec fn view(&self) -> InstructionView {
        InstructionView { program_id: self.program_id, accounts: self.accounts@, data: self.data@ }
    }
}

/// The token program's transfer of `amount` units from `source` to
/// `destination`, signed for by `authority` alone.
pub open spec fn token_transfer(
    token_program: Address,
    source: Address,
    destination: Address,
    authority: Address,
    amount: u64,
) -> InstructionView {
    InstructionView {
        program_id: token_program,
        accounts: seq![
            AccountMeta::writable(source, false),
            AccountMeta::writable(destination, false),
            AccountMeta::readonly(authority, true),
        ],
        data: seq![3u8] + spec_u64_to_le_bytes(amount),
    }
}

/// The token program's initialization of `account` as a holder of `mint`
/// owned by `owner`.
pub open spec fn token_initialize_account(
    token_program: Address,
    account: Address,
    mint: Address,
    owner: Address,
) -> InstructionView {
    InstructionView {
        program_id: token_program,
        accounts: seq![
            AccountMeta::writable(account, false),
            AccountMeta::readonly(mint, false),
            AccountMeta::readonly(owner, false),
            AccountMeta::readonly(rent_sysvar_id(), false),
        ],
        data: seq![1u8],
    }
}

/// The system program's creation of the account `to`, paid for by `from`,
/// with `lamports`, `space` bytes of data and `owner` as its owning program.
pub open spec fn system_create_account(
    from: Address,
    to: Address,
    lamports: u64,
    space: u64,
    owner: Address,
) -> InstructionView {
    InstructionView {
        program_id: system_program_id(),
        accounts: seq![AccountMeta::writable(from, true), AccountMeta::writable(to, true)],
        data: seq![0u8, 0u8, 0u8, 0u8] + spec_u64_to_le_bytes(lamports) + spec_u64_to_le_bytes(space)
            + owner@,
    }
}

/// Calls `spl_token::instruction::transfer` with no further signers. It
/// refuses every program but the token program with an error, and else
/// returns the instruction: source and destination writable, the authority
/// read-only and signing, and as data the byte 3 and the amount in
/// little-endian order.
#[verifier::external_body]
pub(crate) fn build_token_transfer(
    token_program: &Address,
    source: &Address,
    destination: &Address,
    authority: &Address,
    amount: u64,
) -> (built: Result<Instruction, solana_program::program_error::ProgramError>)
    ensures
        built is Ok <==> *token_program == token_program_id(),
        built matches Ok(instruction) ==> instruction@ == token_transfer(
            *token_program,
            *source,
            *destination,
            *authority,
            amount,
        ),
{
    let key = |a: &Address| solana_program::pubkey::Pubkey::new_from_array(a.bytes);
    let built = spl_token::instruction::transfer(
        &key(token_program), &key(source), &key(destination), &key(authority), &[], amount,
    )?;
    let meta = |m: &solana_program::instruction::AccountMeta| AccountMeta {
        pubkey: Address { bytes: m.pubkey.to_bytes() },
        is_signer: m.is_signer,
        is_writable: m.is_writable,
    };
    Ok(Instruction {
        program_id: Address { bytes: built.program_id.to_bytes() },
        accounts: built.accounts.iter().map(meta).collect(),
        data: built.data,
    })
}

/// Calls `spl_token::instruction::initialize_account`. It refuses every
/// program but the token program with an error, and else returns the
/// instruction: the account writable, then the mint, the owner and the rent
/// schedule read-only, none signing, and as data the single byte 1.
#[verifier::external_body]
pub(crate) fn build_token_initialize_account(
    token_program: &Address,
    account: &Address,
    mint: &Address,
    owner: &Address,
) -> (built: Result<Instruction, solana_program::program_error::ProgramError>)
    ensures
        built is Ok <==> *token_program == token_program_id(),
        built matches Ok(instruction) ==> instruction@ == token_initialize_account(
            *token_program,
            *account,
            *mint,
            *owner,
        ),
{
    let key = |a: &Address| solana_program::pubkey::Pubkey::new_from_array(a.bytes);
    let built = spl_token::instruction::initialize_account(
        &key(token_program), &key(account), &key(mint), &key(owner),
    )?;
    let meta = |m: &solana_program::instruction::AccountMeta| AccountMeta {
        pubkey: Address { bytes: m.pubkey.to_bytes() },
        is_signer: m.is_signer,
        is_writable: m.is_writable,
    };
    Ok(Instruction {
        program_id: Address { bytes: built.program_id.to_bytes() },
        accounts: built.accounts.iter().map(meta).collect(),
        data: built.data,
    })
}

/// Calls `solana_program::system_instruction::create_account`. It returns an
/// instruction for the system program with both accounts writable and
/// signing; its data is the encoding that `bincode` gives the request: the
/// variant's index 0 in four bytes, the lamports and the space in eight bytes
/// each, little-endian, and the 32 bytes of the owner.
#[verifier::external_body]
pub(crate) fn build_system_create_account(
    from: &Address,
    to: &Address,
    lamports: u64,
    space: u64,
    owner: &Address,
) -> (instruction: Instruction)
    ensures
        instruction@ == system_create_account(*from, *to, lamports, space, *owner),
{
    let key = |a: &Address| solana_program::pubkey::Pubkey::new_from_array(a.bytes);
    let built = solana_program::system_instruction::create_account(
        &key(from), &key(to), lamports, space, &key(owner),
    );
    let meta = |m: &solana_program::instruction::AccountMeta| AccountMeta {
        pubkey: Address { bytes: m.pubkey.to_bytes() },
        is_signer: m.is_signer,
        is_writable: m.is_writable,
    };
    Instruction {
        program_id: Address { bytes: built.program_id.to_bytes() },
        accounts: built.accounts.iter().map(meta).collect(),
        data: built.data,
    }
}

/// One call into another program: the instruction, the places of the accounts
/// to hand over among those of the running operation, and the seeds with
/// which the program signs, if it signs at all.
#[derive(Debug)]
pub struct Invocation {
    pub instruction: Instruction,
    pub accounts: Vec<usize>,
    pub signer: Option<SignerSeeds>,
}

/// An invocation as contracts speak of it.
#[verifier::ext_equal]
pub struct InvocationView {
    pub instruction: InstructionView,
    pub accounts: Seq<usize>,
    pub signer: Option<SignerSeeds>,
}

impl View for Invocation {
    type V = InvocationView;

    open spec fn view(&self) -> InvocationView {
        InvocationView {
            instruction: self.instruction@,
            accounts: self.accounts@,
            signer: self.signer,
        }
    }
}

} // verus!
