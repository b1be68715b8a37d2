//! Who may withdraw from a vault.

use vstd::prelude::*;
use crate::address::Address;
use crate::error::ErrorCode;

verus! {

/// The rule that decides which caller may take funds out of a vault. The two
/// rules are opposites; a deployment picks one and says so.
#[derive(Clone, Copy, Debug, PartialEq, Eq, Structural)]
pub enum WithdrawalPolicy {
    /// Anyone may withdraw except the vault's own controlling authority.
    ExcludeAuthority,
    /// Nobody may withdraw except the vault's own controlling authority.
    AuthorityOnly,
}

impl WithdrawalPolicy {
    /// The answer of this policy to a withdrawal by `withdrawer` from the
    /// vault of `authority`.
    pub open spec fn verdict(self, authority: Address, withdrawer: Address) -> Result<(), ErrorCode> {
        match self {
            WithdrawalPolicy::ExcludeAuthority => if withdrawer == authority {
                Err(ErrorCode::AssetManagerCannotWithdraw)
            } else {
                Ok(())
            },
            WithdrawalPolicy::AuthorityOnly => if withdrawer == authority {
                Ok(())
            } else {
                Err(ErrorCode::Unauthorized)
            },
        }
    }

    /// Decides whether `withdrawer` may withdraw from the vault of
    /// `authority`. Balances play no part in the answer.
    pub fn authorize(self, authority: &Address, withdrawer: &Address) -> (answer: Result<(), ErrorCode>)
        ensures
            answer == self.verdict(*authority, *withdrawer),
    {
        let same = *withdrawer == *authority;
        match self {
            WithdrawalPolicy::ExcludeAuthority => {
                if same {
                    Err(ErrorCode::AssetManagerCannotWithdraw)
                } else {
                    Ok(())
                }
            },
            WithdrawalPolicy::AuthorityOnly => {
                if same {
                    Ok(())
                } else {
                    Err(ErrorCode::Unauthorized)
                }
            },
        }
    }
}

} // verus!
