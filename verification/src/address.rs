//! Account addresses and the derivation of program-owned addresses.

use vstd::prelude::*;
use crate::error::ErrorCode;

verus! {

/// The identifier of an account on the ledger: 32 bytes.
#[derive(Clone, Copy, Debug)]
pub struct Address {
    pub bytes: [u8; 32],
}

impl View for Address {
    type V = Seq<u8>;

    open spec fn view(&self) -> Seq<u8> {
        self.bytes@
    }
}

impl PartialEq for Address {
    fn eq(&self, other: &Address) -> (same: bool) {
        let mut i: usize = 0;
        while i < 32
            invariant
                i <= 32,
                forall|j: int| 0 <= j < i ==> self.bytes[j] == other.bytes[j],
            decreases 32 - i,
        {
            if self.bytes[i] != other.bytes[i] {
                return false;
            }
            i = i + 1;
        }
        assert(self.bytes =~= other.bytes);
        true
    }
}

impl Eq for Address {}

impl vstd::std_specs::cmp::PartialEqSpecImpl for Address {
    open spec fn obeys_eq_spec() -> bool {
        true
    }

    open spec fn eq_spec(&self, other: &Address) -> bool {
        *self == *other
    }
}

impl Address {
    /// The address whose bytes are `bytes`.
    pub open spec fn of(bytes: Seq<u8>) -> Address {
        choose|a: Address| a@ == bytes
    }

    /// Two addresses with the same bytes are the same address.
    pub proof fn lemma_view_injective(a: Address, b: Address)
        ensures
            (a@ == b@) <==> (a == b),
    {
        if a@ == b@ {
            assert(a.bytes =~= b.bytes);
        }
    }

    /// An address is recovered from its bytes.
    pub proof fn lemma_of_view(a: Address)
        ensures
            Address::of(a@) == a,
    {
        Address::lemma_view_injective(Address::of(a@), a);
    }
}

/// The fixed tag that keeps the addresses of one kind of vault apart from
/// every other address the program derives.
#[derive(Clone, Copy, Debug, PartialEq, Eq, Structural)]
pub enum DomainTag {
    /// Vaults that keep their own ledger: the bytes of `vault`.
    Vault,
    /// Vaults that are themselves the token-holding account: the bytes of
    /// `asset_vault`.
    AssetVault,
}

impl DomainTag {
    pub open spec fn bytes(self) -> Seq<u8> {
        match self {
            DomainTag::Vault => seq![118u8, 97u8, 117u8, 108u8, 116u8],
            DomainTag::AssetVault => seq![
                97u8, 115u8, 115u8, 101u8, 116u8, 95u8, 118u8, 97u8, 117u8, 108u8, 116u8,
            ],
        }
    }

    /// The tag as the seed bytes that go into the derivation.
    pub fn seed(self) -> (seed: Vec<u8>)
        ensures
            seed@ == self.bytes(),
    {
        let seed = match self {
            DomainTag::Vault => vec![118u8, 97u8, 117u8, 108u8, 116u8],
            DomainTag::AssetVault => vec![
                97u8, 115u8, 115u8, 101u8, 116u8, 95u8, 118u8, 97u8, 117u8, 108u8, 116u8,
            ],
        };
        assert(seed@ =~= self.bytes());
        seed
    }
}

/// A derived address together with the bump seed that reproduces it.
#[derive(Clone, Copy, Debug)]
pub struct Derived {
    pub address: Address,
    pub bump: u8,
}

/// What `Pubkey::try_find_program_address` of `solana_program` returns for the
/// given seeds and program: the bytes of the derived address with its bump
/// seed, or `None` where the search finds no address.
pub uninterp spec fn program_address(seeds: Seq<Seq<u8>>, program_id: Seq<u8>) -> Option<(Seq<u8>, u8)>;

/// The address that `program_id` derives for `authority` under `tag`.
pub open spec fn derived(tag: DomainTag, authority: Address, program_id: Address) -> Option<Derived> {
    match program_address(seq![tag.bytes(), authority@], program_id@) {
        Some((bytes, bump)) => Some(Derived { address: Address::of(bytes), bump }),
        None => None,
    }
}

/// Calls `Pubkey::try_find_program_address` of `solana_program` on the two
/// seeds `tag` and the bytes of `key`. The search hashes the seeds, a
/// candidate bump seed and the program's address, and depends on nothing but
/// its arguments; the contract gives its outcome a name and claims no more.
#[verifier::external_body]
fn find_program_address(tag: &[u8], key: &Address, program_id: &Address) -> (found: Option<
    (Address, u8),
>)
    ensures
        match found {
            Some((address, bump)) => program_address(seq![tag@, key@], program_id@) == Some(
                (address@, bump),
            ),
            None => program_address(seq![tag@, key@], program_id@) is None,
        },
{
    let program = solana_program::pubkey::Pubkey::new_from_array(program_id.bytes);
    solana_program::pubkey::Pubkey::try_find_program_address(&[tag, &key.bytes], &program)
        .map(|(address, bump)| (Address { bytes: address.to_bytes() }, bump))
}

/// Derives the vault address of `authority` under `tag`, with its bump seed.
pub fn derive_address(tag: DomainTag, authority: &Address, program_id: &Address) -> (found: Option<
    Derived,
>)
    ensures
        found == derived(tag, *authority, *program_id),
{
    let seed = tag.seed();
    match find_program_address(seed.as_slice(), authority, program_id) {
        Some((address, bump)) => {
            proof {
                Address::lemma_of_view(address);
            }
            Some(Derived { address, bump })
        },
        None => None,
    }
}

/// The derivation is a function of the tag, the authority and the program:
/// made twice on the same three, it gives the same address with the same bump
/// seed, or no address both times.
pub proof fn lemma_derivation_is_deterministic(
    tag: DomainTag,
    authority: Address,
    program_id: Address,
    other_tag: DomainTag,
    other_authority: Address,
    other_program_id: Address,
)
    requires
        tag == other_tag,
        authority == other_authority,
        program_id == other_program_id,
    ensures
        derived(tag, authority, program_id) == derived(other_tag, other_authority, other_program_id),
{
}

/// What the address check answers when the derivation gave `found` and the
/// caller supplied `supplied` as the vault account.
pub open spec fn address_check(found: Option<Derived>, supplied: Address) -> Result<u8, ErrorCode> {
    match found {
        Some(d) => if d.address == supplied {
            Ok(d.bump)
        } else {
            Err(ErrorCode::InvalidVaultAddress)
        },
        None => Err(ErrorCode::InvalidVaultAddress),
    }
}

/// Holds the supplied vault account against a derivation that was already
/// made: the bump seed where they agree, `InvalidVaultAddress` where they do
/// not or where there is no derived address at all.
pub fn match_derived(found: Option<Derived>, supplied: &Address) -> (checked: Result<u8, ErrorCode>)
    ensures
        checked == address_check(found, *supplied),
{
    match found {
        Some(d) => {
            if d.address == *supplied {
                Ok(d.bump)
            } else {
                Err(ErrorCode::InvalidVaultAddress)
            }
        },
        None => Err(ErrorCode::InvalidVaultAddress),
    }
}

/// Recomputes the vault address of `authority` and holds the supplied account
/// against it.
pub fn verify_vault_address(
    tag: DomainTag,
    authority: &Address,
    program_id: &Address,
    supplied: &Address,
) -> (checked: Result<u8, ErrorCode>)
    ensures
        checked == address_check(derived(tag, *authority, *program_id), *supplied),
{
    match_derived(derive_address(tag, authority, program_id), supplied)
}

} // verus!
