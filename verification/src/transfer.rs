//! Requests to the host's transfer primitive and how they are authorized.

use vstd::prelude::*;
use crate::address::Address;
use crate::address::DomainTag;
use crate::address::Derived;
use crate::address::derived;

verus! {

/// What lets the program sign for an address it holds no key for: the tag and
/// the authority's identifier that the address was derived from, and the bump
/// seed that the derivation gave.
#[derive(Clone, Copy, Debug)]
pub struct SignerSeeds {
    pub tag: DomainTag,
    pub key: Address,
    pub bump: u8,
}

impl SignerSeeds {
    /// These seeds are the ones from which `program_id` derives `address`.
    pub open spec fn sign_for(self, address: Address, program_id: Address) -> bool {
        derived(self.tag, self.key, program_id) == Some(Derived { address, bump: self.bump })
    }
}

/// How a transfer proves that its authority controls the source account.
#[derive(Clone, Copy, Debug)]
pub enum Authorization {
    /// The authority has signed the enclosing request itself.
    Signature,
    /// The program signs for the authority with the seeds of its derivation.
    Derived(SignerSeeds),
}

/// A request to move `amount` units from one token account to another on the
/// word of `authority`.
#[derive(Clone, Copy, Debug)]
pub struct Transfer {
    pub token_program: Address,
    pub from: Address,
    pub to: Address,
    pub authority: Address,
    pub amount: u64,
    pub authorization: Authorization,
}

} // verus!
