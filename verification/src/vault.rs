//! The vault record: who controls it and what it holds.

use vstd::prelude::*;
use crate::address::Address;
use crate::error::ErrorCode;

verus! {

/// One line of a vault's books: a token type and the units held of it.
#[derive(Clone, Copy, Debug)]
pub struct Holding {
    pub mint: Address,
    pub balance: u64,
}

/// A vault as contracts speak of it: the controlling authority and the
/// holdings in the order in which their token types first came in.
#[verifier::ext_equal]
pub struct Vault {
    pub authority: Address,
    pub entries: Seq<Holding>,
}

impl Vault {
    /// A vault of `authority` that holds nothing.
    pub open spec fn empty(authority: Address) -> Vault {
        Vault { authority, entries: Seq::empty() }
    }

    /// No token type is listed twice and no listed balance is zero.
    pub open spec fn wf(self) -> bool {
        &&& forall|i: int| 0 <= i < self.entries.len() ==> (#[trigger] self.entries[i]).balance > 0
        &&& forall|i: int, j: int|
            0 <= i < j < self.entries.len() ==> (#[trigger] self.entries[i]).mint != (
            #[trigger] self.entries[j]).mint
    }

    /// The vault lists `mint`.
    pub open spec fn holds(self, mint: Address) -> bool {
        exists|i: int| 0 <= i < self.entries.len() && (#[trigger] self.entries[i]).mint == mint
    }

    /// Where the vault lists `mint`, if it does.
    pub open spec fn slot(self, mint: Address) -> int {
        choose|i: int| 0 <= i < self.entries.len() && (#[trigger] self.entries[i]).mint == mint
    }

    /// The units of `mint` on the books; zero where it is not listed.
    pub open spec fn balance(self, mint: Address) -> nat {
        if self.holds(mint) {
            self.entries[self.slot(mint)].balance as nat
        } else {
            0
        }
    }

    /// The books as a mapping from each listed token type to its balance.
    pub open spec fn as_map(self) -> Map<Address, u64> {
        Map::new(
            |mint: Address| self.holds(mint),
            |mint: Address| self.entries[self.slot(mint)].balance,
        )
    }

    /// A deposit of `amount` units of `mint` fits the books.
    pub open spec fn can_credit(self, mint: Address, amount: u64) -> bool {
        self.balance(mint) + amount <= u64::MAX
    }

    /// The books after a deposit that fits: a listed balance grows in place, a
    /// new token type goes to the end, and a deposit of nothing changes nothing.
    pub open spec fn credit(self, mint: Address, amount: u64) -> Vault {
        if amount == 0 {
            self
        } else if self.holds(mint) {
            let i = self.slot(mint);
            Vault {
                authority: self.authority,
                entries: self.entries.update(
                    i,
                    Holding { mint, balance: (self.entries[i].balance + amount) as u64 },
                ),
            }
        } else {
            Vault {
                authority: self.authority,
                entries: self.entries.push(Holding { mint, balance: amount }),
            }
        }
    }

    /// Whether `amount` units of `mint` can be taken off the books, and why not.
    pub open spec fn debit_check(self, mint: Address, amount: u64) -> Result<(), ErrorCode> {
        if !self.holds(mint) {
            Err(ErrorCode::TokenNotFound)
        } else if self.balance(mint) < amount {
            Err(ErrorCode::InsufficientFunds)
        } else {
            Ok(())
        }
    }

    /// The books after a withdrawal that passed `debit_check`: the balance
    /// shrinks in place, and a balance that reaches zero leaves the list.
    pub open spec fn debit(self, mint: Address, amount: u64) -> Vault {
        let i = self.slot(mint);
        let left = self.entries[i].balance - amount;
        if left == 0 {
            Vault { authority: self.authority, entries: self.entries.remove(i) }
        } else {
            Vault {
                authority: self.authority,
                entries: self.entries.update(i, Holding { mint, balance: left as u64 }),
            }
        }
    }

    /// In well-formed books a listed token type has exactly one place.
    pub proof fn lemma_slot(self, i: int)
        requires
            self.wf(),
            0 <= i < self.entries.len(),
        ensures
            self.holds(self.entries[i].mint),
            self.slot(self.entries[i].mint) == i,
            self.balance(self.entries[i].mint) == self.entries[i].balance,
    {
        let mint = self.entries[i].mint;
        let j = self.slot(mint);
        assert(0 <= j < self.entries.len() && self.entries[j].mint == mint);
        if j < i {
            assert(self.entries[j].mint != self.entries[i].mint);
        } else if i < j {
            assert(self.entries[i].mint != self.entries[j].mint);
        }
    }

    /// Books that list the same entries of a token type hold the same of it,
    /// wherever in the list those entries stand.
    pub proof fn lemma_carried(self, after: Vault, other: Address)
        requires
            self.wf(),
            after.wf(),
            forall|k: int|
                0 <= k < self.entries.len() && (#[trigger] self.entries[k]).mint == other
                    ==> after.entries.contains(self.entries[k]),
            forall|k: int|
                0 <= k < after.entries.len() && (#[trigger] after.entries[k]).mint == other
                    ==> self.entries.contains(after.entries[k]),
        ensures
            after.holds(other) <==> self.holds(other),
            after.balance(other) == self.balance(other),
    {
        if self.holds(other) {
            let k = self.slot(other);
            self.lemma_slot(k);
            let j = choose|j: int| 0 <= j < after.entries.len() && after.entries[j] == self.entries[k];
            after.lemma_slot(j);
        } else if after.holds(other) {
            let k = after.slot(other);
            let j = choose|j: int| 0 <= j < self.entries.len() && self.entries[j] == after.entries[k];
            self.lemma_slot(j);
        }
    }

    /// A deposit that fits keeps the books well formed, adds `amount` to the
    /// balance of `mint` and leaves every other balance as it was.
    pub proof fn lemma_credit(self, mint: Address, amount: u64, other: Address)
        requires
            self.wf(),
            self.can_credit(mint, amount),
        ensures
            self.credit(mint, amount).wf(),
            self.credit(mint, amount).authority == self.authority,
            self.credit(mint, amount).balance(mint) == self.balance(mint) + amount,
            other != mint ==> self.credit(mint, amount).balance(other) == self.balance(other),
            other != mint ==> (self.credit(mint, amount).holds(other) <==> self.holds(other)),
    {
        let after = self.credit(mint, amount);
        if amount > 0 {
            // Where the entry of `mint` stands afterwards: its old place, or the end.
            let i = if self.holds(mint) { self.slot(mint) } else { self.entries.len() as int };
            if self.holds(mint) {
                self.lemma_slot(i);
            }
            assert(after.entries[i].mint == mint);
            assert forall|a: int| 0 <= a < after.entries.len() && a != i implies (
            #[trigger] after.entries[a]) == self.entries[a] && self.entries[a].mint != mint by {
                if a < i {
                    assert(self.entries[a].mint != self.entries[i].mint || !self.holds(mint));
                } else {
                    assert(self.entries[i].mint != self.entries[a].mint);
                }
            }
            assert forall|a: int, b: int| 0 <= a < b < after.entries.len() implies (
            #[trigger] after.entries[a]).mint != (#[trigger] after.entries[b]).mint by {
                if a != i && b != i {
                    assert(self.entries[a].mint != self.entries[b].mint);
                }
            }
            assert forall|a: int| 0 <= a < after.entries.len() implies (
            #[trigger] after.entries[a]).balance > 0 by {
                if a != i {
                    assert(self.entries[a].balance > 0);
                }
            }
            after.lemma_slot(i);
            if other != mint {
                assert forall|k: int|
                    0 <= k < self.entries.len() && (#[trigger] self.entries[k]).mint
                        == other implies after.entries.contains(self.entries[k]) by {
                    assert(after.entries[k] == self.entries[k]);
                }
                assert forall|k: int|
                    0 <= k < after.entries.len() && (#[trigger] after.entries[k]).mint
                        == other implies self.entries.contains(after.entries[k]) by {
                    assert(self.entries[k] == after.entries[k]);
                }
                self.lemma_carried(after, other);
            }
        }
    }

    /// A withdrawal that passed the check keeps the books well formed, takes
    /// `amount` off the balance of `mint`, leaves every other balance as it
    /// was, and keeps `mint` listed exactly when something of it is left.
    pub proof fn lemma_debit(self, mint: Address, amount: u64, other: Address)
        requires
            self.wf(),
            self.debit_check(mint, amount) is Ok,
        ensures
            self.debit(mint, amount).wf(),
            self.debit(mint, amount).authority == self.authority,
            self.debit(mint, amount).balance(mint) == self.balance(mint) - amount,
            self.debit(mint, amount).holds(mint) <==> self.balance(mint) > amount,
            other != mint ==> self.debit(mint, amount).balance(other) == self.balance(other),
            other != mint ==> (self.debit(mint, amount).holds(other) <==> self.holds(other)),
    {
        let after = self.debit(mint, amount);
        let i = self.slot(mint);
        self.lemma_slot(i);
        let pruned = self.entries[i].balance == amount;
        // Where an entry of afterwards stood before, and the other way round.
        let before = |a: int| if pruned && a >= i { a + 1 } else { a };
        let later = |a: int| if pruned && a > i { a - 1 } else { a };
        assert forall|a: int| 0 <= a < after.entries.len() && (pruned || a != i) implies (
        #[trigger] after.entries[a]) == self.entries[before(a)] && self.entries[before(a)].mint
            != mint by {
            if before(a) < i {
                assert(self.entries[before(a)].mint != self.entries[i].mint);
            } else {
                assert(self.entries[i].mint != self.entries[before(a)].mint);
            }
        }
        assert forall|a: int, b: int| 0 <= a < b < after.entries.len() implies (
        #[trigger] after.entries[a]).mint != (#[trigger] after.entries[b]).mint by {
            assert(self.entries[before(a)].mint != self.entries[before(b)].mint);
        }
        assert forall|a: int| 0 <= a < after.entries.len() implies (
        #[trigger] after.entries[a]).balance > 0 by {
            assert(self.entries[before(a)].balance > 0);
        }
        if pruned {
            if after.holds(mint) {
                let k = after.slot(mint);
                assert(after.entries[k] == self.entries[before(k)]);
            }
        } else {
            assert(after.entries[i].mint == mint);
            after.lemma_slot(i);
        }
        if other != mint {
            assert forall|k: int|
                0 <= k < self.entries.len() && (#[trigger] self.entries[k]).mint
                    == other implies after.entries.contains(self.entries[k]) by {
                assert(after.entries[later(k)] == self.entries[k]);
            }
            assert forall|k: int|
                0 <= k < after.entries.len() && (#[trigger] after.entries[k]).mint
                    == other implies self.entries.contains(after.entries[k]) by {
                assert(self.entries[before(k)] == after.entries[k]);
            }
            self.lemma_carried(after, other);
        }
    }

    /// Seen as a mapping, a deposit of something that fits sets the balance
    /// of its token type and touches no other.
    pub proof fn lemma_credit_as_map(self, mint: Address, amount: u64)
        requires
            self.wf(),
            self.can_credit(mint, amount),
            amount > 0,
        ensures
            self.credit(mint, amount).as_map() == self.as_map().insert(
                mint,
                (self.balance(mint) + amount) as u64,
            ),
    {
        let after = self.credit(mint, amount);
        let expected = self.as_map().insert(mint, (self.balance(mint) + amount) as u64);
        assert forall|other: Address| #[trigger]
            after.as_map().dom().contains(other) == expected.dom().contains(other) && (
            expected.dom().contains(other) ==> after.as_map()[other] == expected[other]) by {
            self.lemma_credit(mint, amount, other);
        }
        assert(after.as_map() =~= expected);
    }

    /// Seen as a mapping, a withdrawal that passed the check sets the balance
    /// of its token type, or drops the token type when nothing of it is left,
    /// and touches no other.
    pub proof fn lemma_debit_as_map(self, mint: Address, amount: u64)
        requires
            self.wf(),
            self.debit_check(mint, amount) is Ok,
        ensures
            self.debit(mint, amount).as_map() == if self.balance(mint) == amount {
                self.as_map().remove(mint)
            } else {
                self.as_map().insert(mint, (self.balance(mint) - amount) as u64)
            },
    {
        let after = self.debit(mint, amount);
        let expected = if self.balance(mint) == amount {
            self.as_map().remove(mint)
        } else {
            self.as_map().insert(mint, (self.balance(mint) - amount) as u64)
        };
        assert forall|other: Address| #[trigger]
            after.as_map().dom().contains(other) == expected.dom().contains(other) && (
            expected.dom().contains(other) ==> after.as_map()[other] == expected[other]) by {
            self.lemma_debit(mint, amount, other);
        }
        assert(after.as_map() =~= expected);
    }
}

/// One entry in the history of a vault's books.
pub enum LedgerOp {
    Deposit { mint: Address, amount: u64 },
    Withdraw { mint: Address, amount: u64 },
}

impl Vault {
    /// The books take `op`: a deposit that fits, or a withdrawal of a listed
    /// token type that the balance covers.
    pub open spec fn accepts(self, op: LedgerOp) -> bool {
        match op {
            LedgerOp::Deposit { mint, amount } => self.can_credit(mint, amount),
            LedgerOp::Withdraw { mint, amount } => self.debit_check(mint, amount) is Ok,
        }
    }

    /// The books after `op`; an operation that is refused leaves them alone.
    pub open spec fn apply(self, op: LedgerOp) -> Vault {
        if !self.accepts(op) {
            self
        } else {
            match op {
                LedgerOp::Deposit { mint, amount } => self.credit(mint, amount),
                LedgerOp::Withdraw { mint, amount } => self.debit(mint, amount),
            }
        }
    }

    /// The books after the operations of `ops`, one after the other.
    pub open spec fn replay(self, ops: Seq<LedgerOp>) -> Vault
        decreases ops.len(),
    {
        if ops.len() == 0 {
            self
        } else {
            self.replay(ops.drop_last()).apply(ops.last())
        }
    }

    /// The units of `mint` that `op` puts on these books.
    pub open spec fn gain(self, op: LedgerOp, mint: Address) -> nat {
        match op {
            LedgerOp::Deposit { mint: m, amount } => if m == mint && self.accepts(op) {
                amount as nat
            } else {
                0
            },
            LedgerOp::Withdraw { .. } => 0,
        }
    }

    /// The units of `mint` that `op` takes off these books.
    pub open spec fn loss(self, op: LedgerOp, mint: Address) -> nat {
        match op {
            LedgerOp::Deposit { .. } => 0,
            LedgerOp::Withdraw { mint: m, amount } => if m == mint && self.accepts(op) {
                amount as nat
            } else {
                0
            },
        }
    }

    /// The sum of the deposits of `mint` that were taken in the course of `ops`.
    pub open spec fn deposited(self, ops: Seq<LedgerOp>, mint: Address) -> nat
        decreases ops.len(),
    {
        if ops.len() == 0 {
            0
        } else {
            self.deposited(ops.drop_last(), mint) + self.replay(ops.drop_last()).gain(ops.last(), mint)
        }
    }

    /// The sum of the withdrawals of `mint` that were taken in the course of
    /// `ops`.
    pub open spec fn withdrawn(self, ops: Seq<LedgerOp>, mint: Address) -> nat
        decreases ops.len(),
    {
        if ops.len() == 0 {
            0
        } else {
            self.withdrawn(ops.drop_last(), mint) + self.replay(ops.drop_last()).loss(ops.last(), mint)
        }
    }

    /// One operation moves the balance of a token type by what it deposits or
    /// withdraws of that type, and by nothing else.
    pub proof fn lemma_apply(self, op: LedgerOp, mint: Address)
        requires
            self.wf(),
        ensures
            self.apply(op).wf(),
            self.apply(op).authority == self.authority,
            self.apply(op).balance(mint) == self.balance(mint) + self.gain(op, mint) - self.loss(
                op,
                mint,
            ),
    {
        if self.accepts(op) {
            match op {
                LedgerOp::Deposit { mint: m, amount } => {
                    self.lemma_credit(m, amount, mint);
                },
                LedgerOp::Withdraw { mint: m, amount } => {
                    self.lemma_debit(m, amount, mint);
                },
            }
        }
    }

    /// Whatever deposits and withdrawals are tried in whatever order, the
    /// books stay well formed under the same authority, and the balance of
    /// each token type is what it was, plus the deposits that were taken,
    /// less the withdrawals that were taken. Being a natural number, it is
    /// never negative.
    pub proof fn lemma_balance_conservation(self, ops: Seq<LedgerOp>, mint: Address)
        requires
            self.wf(),
        ensures
            self.replay(ops).wf(),
            self.replay(ops).authority == self.authority,
            self.replay(ops).balance(mint) == self.balance(mint) + self.deposited(ops, mint)
                - self.withdrawn(ops, mint),
            self.withdrawn(ops, mint) <= self.balance(mint) + self.deposited(ops, mint),
        decreases ops.len(),
    {
        if ops.len() > 0 {
            self.lemma_balance_conservation(ops.drop_last(), mint);
            self.replay(ops.drop_last()).lemma_apply(ops.last(), mint);
        }
    }

    /// In a vault that started with empty books, the balance of each token
    /// type is the sum of the deposits that were taken less the sum of the
    /// withdrawals that were taken.
    pub proof fn lemma_balance_from_empty(authority: Address, ops: Seq<LedgerOp>, mint: Address)
        ensures
            Vault::empty(authority).replay(ops).balance(mint) == Vault::empty(authority).deposited(
                ops,
                mint,
            ) - Vault::empty(authority).withdrawn(ops, mint),
    {
        Vault::empty(authority).lemma_balance_conservation(ops, mint);
    }
}

/// The entries that pair `mints` with `balances`, place by place.
pub open spec fn paired(mints: Seq<Address>, balances: Seq<u64>) -> Seq<Holding> {
    Seq::new(mints.len(), |i: int| Holding { mint: mints[i], balance: balances[i] })
}

/// The record of one vault. Its authority is fixed when it is made. Every
/// constructor hands out a record whose books are well formed (`self@.wf()`),
/// and every operation keeps them so.
#[derive(Debug)]
pub struct VaultState {
    asset_manager: Address,
    holdings: Vec<Holding>,
}

impl View for VaultState {
    type V = Vault;

    closed spec fn view(&self) -> Vault {
        Vault { authority: self.asset_manager, entries: self.holdings@ }
    }
}

impl VaultState {
    /// A new vault of `asset_manager` with empty books.
    pub fn new(asset_manager: Address) -> (vault: VaultState)
        ensures
            vault@ == Vault::empty(asset_manager),
            vault@.wf(),
    {
        VaultState { asset_manager, holdings: Vec::new() }
    }

    /// The authority that controls this vault.
    pub fn asset_manager(&self) -> (authority: Address)
        ensures
            authority == self@.authority,
    {
        self.asset_manager
    }

    /// The books, entry by entry.
    pub fn holdings(&self) -> (entries: &[Holding])
        ensures
            entries@ == self@.entries,
    {
        self.holdings.as_slice()
    }

    /// The record with the given authority and entries, as one that was
    /// written down earlier is read back. Entries that list a token type twice
    /// or with a balance of zero make no record.
    pub fn restore(asset_manager: Address, holdings: Vec<Holding>) -> (restored: Option<VaultState>)
        ensures
            match restored {
                Some(vault) => vault@ == (Vault { authority: asset_manager, entries: holdings@ })
                    && vault@.wf(),
                None => !(Vault { authority: asset_manager, entries: holdings@ }).wf(),
            },
    {
        let ghost model = Vault { authority: asset_manager, entries: holdings@ };
        let mut i: usize = 0;
        while i < holdings.len()
            invariant
                i <= holdings.len(),
                model == (Vault { authority: asset_manager, entries: holdings@ }),
                forall|a: int| 0 <= a < i ==> (#[trigger] holdings@[a]).balance > 0,
                forall|a: int, b: int|
                    0 <= a < b < i ==> (#[trigger] holdings@[a]).mint != (#[trigger] holdings@[b]).mint,
            decreases holdings.len() - i,
        {
            if holdings[i].balance == 0 {
                assert(!(model.entries[i as int].balance > 0));
                return None;
            }
            let mut j: usize = 0;
            while j < i
                invariant
                    j <= i < holdings.len(),
                    model == (Vault { authority: asset_manager, entries: holdings@ }),
                    forall|a: int|
                        0 <= a < j ==> (#[trigger] holdings@[a]).mint != holdings@[i as int].mint,
                decreases i - j,
            {
                if holdings[j].mint == holdings[i].mint {
                    assert(!(model.entries[j as int].mint != model.entries[i as int].mint));
                    return None;
                }
                j = j + 1;
            }
            i = i + 1;
        }
        Some(VaultState { asset_manager, holdings })
    }

    /// The record with the given authority whose books list `token_mints`
    /// with `balances`, place by place. Lists of different lengths make no
    /// record, nor does a token type listed twice or a balance of zero.
    pub fn from_parts(asset_manager: Address, token_mints: Vec<Address>, balances: Vec<u64>) -> (restored:
        Option<VaultState>)
        ensures
            match restored {
                Some(vault) => token_mints@.len() == balances@.len() && vault@ == (Vault {
                    authority: asset_manager,
                    entries: paired(token_mints@, balances@),
                }) && vault@.wf(),
                None => token_mints@.len() != balances@.len() || !(Vault {
                    authority: asset_manager,
                    entries: paired(token_mints@, balances@),
                }).wf(),
            },
    {
        if token_mints.len() != balances.len() {
            return None;
        }
        let mut holdings: Vec<Holding> = Vec::new();
        let mut i: usize = 0;
        while i < token_mints.len()
            invariant
                i <= token_mints.len(),
                token_mints.len() == balances.len(),
                holdings@ == paired(token_mints@, balances@).take(i as int),
            decreases token_mints.len() - i,
        {
            holdings.push(Holding { mint: token_mints[i], balance: balances[i] });
            assert(holdings@ =~= paired(token_mints@, balances@).take(i + 1));
            i = i + 1;
        }
        assert(holdings@ =~= paired(token_mints@, balances@));
        VaultState::restore(asset_manager, holdings)
    }

    /// The token types on the books, in their order.
    pub fn token_mints(&self) -> (mints: Vec<Address>)
        ensures
            mints@ == Seq::new(self@.entries.len(), |i: int| self@.entries[i].mint),
    {
        let mut mints: Vec<Address> = Vec::new();
        let mut i: usize = 0;
        while i < self.holdings.len()
            invariant
                i <= self.holdings.len(),
                mints@ == Seq::new(i as nat, |k: int| self.holdings@[k].mint),
            decreases self.holdings.len() - i,
        {
            mints.push(self.holdings[i].mint);
            assert(mints@ =~= Seq::new((i + 1) as nat, |k: int| self.holdings@[k].mint));
            i = i + 1;
        }
        assert(mints@ =~= Seq::new(self@.entries.len(), |k: int| self@.entries[k].mint));
        mints
    }

    /// The balances on the books, in the order of their token types.
    pub fn balances(&self) -> (balances: Vec<u64>)
        ensures
            balances@ == Seq::new(self@.entries.len(), |i: int| self@.entries[i].balance),
    {
        let mut balances: Vec<u64> = Vec::new();
        let mut i: usize = 0;
        while i < self.holdings.len()
            invariant
                i <= self.holdings.len(),
                balances@ == Seq::new(i as nat, |k: int| self.holdings@[k].balance),
            decreases self.holdings.len() - i,
        {
            balances.push(self.holdings[i].balance);
            assert(balances@ =~= Seq::new((i + 1) as nat, |k: int| self.holdings@[k].balance));
            i = i + 1;
        }
        assert(balances@ =~= Seq::new(self@.entries.len(), |k: int| self@.entries[k].balance));
        balances
    }

    /// Where the books list `mint`, if they do.
    pub fn position(&self, mint: &Address) -> (found: Option<usize>)
        requires
            self@.wf(),
        ensures
            match found {
                Some(i) => self@.holds(*mint) && i == self@.slot(*mint),
                None => !self@.holds(*mint),
            },
    {
        let mut i: usize = 0;
        while i < self.holdings.len()
            invariant
                i <= self.holdings.len(),
                self@.wf(),
                self@.entries == self.holdings@,
                forall|j: int| 0 <= j < i ==> (#[trigger] self.holdings@[j]).mint != *mint,
            decreases self.holdings.len() - i,
        {
            if self.holdings[i].mint == *mint {
                proof {
                    self@.lemma_slot(i as int);
                }
                return Some(i);
            }
            i = i + 1;
        }
        None
    }

    /// The units of `mint` on the books; zero where it is not listed.
    pub fn balance_of(&self, mint: &Address) -> (units: u64)
        requires
            self@.wf(),
        ensures
            units == self@.balance(*mint),
    {
        match self.position(mint) {
            Some(i) => self.holdings[i].balance,
            None => 0,
        }
    }

    /// Books a deposit of `amount` units of `mint`. A deposit that would take
    /// the balance past `u64::MAX` is refused and leaves the books as they were.
    pub fn credit(&mut self, mint: Address, amount: u64) -> (booked: Result<(), ErrorCode>)
        requires
            old(self)@.wf(),
        ensures
            final(self)@.wf(),
            final(self)@.authority == old(self)@.authority,
            match booked {
                Ok(()) => old(self)@.can_credit(mint, amount) && final(self)@ == old(self)@.credit(
                    mint,
                    amount,
                ) && final(self)@.balance(mint) == old(self)@.balance(mint) + amount,
                Err(e) => e == ErrorCode::ArithmeticOverflow && !old(self)@.can_credit(mint, amount)
                    && final(self)@ == old(self)@,
            },
    {
        proof {
            if self@.can_credit(mint, amount) {
                self@.lemma_credit(mint, amount, mint);
            }
        }
        if amount == 0 {
            return Ok(());
        }
        match self.position(&mint) {
            Some(i) => {
                match self.holdings[i].balance.checked_add(amount) {
                    Some(sum) => {
                        proof {
                            self@.lemma_credit(mint, amount, mint);
                        }
                        self.holdings.set(i, Holding { mint, balance: sum });
                        Ok(())
                    },
                    None => Err(ErrorCode::ArithmeticOverflow),
                }
            },
            None => {
                proof {
                    self@.lemma_credit(mint, amount, mint);
                }
                self.holdings.push(Holding { mint, balance: amount });
                Ok(())
            },
        }
    }

    /// Books a withdrawal of `amount` units of `mint`. A token type that is
    /// not listed, or a balance that is too small, is refused and leaves the
    /// books as they were. A balance that reaches zero leaves the list.
    pub fn debit(&mut self, mint: Address, amount: u64) -> (booked: Result<(), ErrorCode>)
        requires
            old(self)@.wf(),
        ensures
            final(self)@.wf(),
            final(self)@.authority == old(self)@.authority,
            booked == old(self)@.debit_check(mint, amount),
            booked is Ok ==> final(self)@ == old(self)@.debit(mint, amount),
            booked is Ok ==> final(self)@.balance(mint) == old(self)@.balance(mint) - amount,
            booked is Ok ==> (final(self)@.holds(mint) <==> old(self)@.balance(mint) > amount),
            booked is Err ==> final(self)@ == old(self)@,
    {
        match self.position(&mint) {
            Some(i) => {
                let held = self.holdings[i].balance;
                if held < amount {
                    return Err(ErrorCode::InsufficientFunds);
                }
                proof {
                    self@.lemma_debit(mint, amount, mint);
                }
                let left = held - amount;
                if left == 0 {
                    self.holdings.remove(i);
                } else {
                    self.holdings.set(i, Holding { mint, balance: left });
                }
                Ok(())
            },
            None => Err(ErrorCode::TokenNotFound),
        }
    }
}

impl Clone for VaultState {
    /// A second record with the same authority and the same books.
    fn clone(&self) -> (copy: VaultState)
        ensures
            copy@ == self@,
    {
        let mut holdings: Vec<Holding> = Vec::new();
        let mut i: usize = 0;
        while i < self.holdings.len()
            invariant
                i <= self.holdings.len(),
                holdings@ == self.holdings@.take(i as int),
            decreases self.holdings.len() - i,
        {
            holdings.push(self.holdings[i]);
            i = i + 1;
        }
        assert(self.holdings@.take(i as int) =~= self.holdings@);
        VaultState { asset_manager: self.asset_manager, holdings }
    }
}

} // verus!
