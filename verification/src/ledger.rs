//! The ledger that the vault operations act on: the balance of every account
//! and the record accounts that the program keeps.
//!
//! An account that never received funds holds a balance of zero, so every
//! address has a balance. Funds move between accounts by transfers only; a
//! transfer that the ledger refuses changes nothing.

use crate::address::Address;
use crate::derivation::AuthorityProof;
use crate::derivation::AuthorityProofView;
use crate::error::VaultError;
use vstd::prelude::*;

verus! {

/// What a record account stores: the bump from which its own address derives.
#[derive(Clone, Copy, Debug, PartialEq, Eq, Structural)]
pub struct VaultState {
    pub bump: u8,
}

/// One account of the ledger.
#[derive(Clone, Copy, Debug)]
struct Account {
    address: Address,
    lamports: u64,
    record: Option<VaultState>,
}

/// The ledger as a mathematical value.
pub struct LedgerView {
    /// The identity of the program that controls the derived accounts.
    pub program: Address,
    /// The least balance that keeps an account without data alive.
    pub rent_floor: u64,
    /// The storage deposit that a record account is created with.
    pub record_deposit: u64,
    /// The balance of every address: zero where none was ever paid in.
    pub balances: Map<Address, u64>,
    /// The record accounts that exist, by address.
    pub records: Map<Address, VaultState>,
}

impl LedgerView {
    /// The ledger on which no account holds funds and no record exists.
    pub open spec fn empty(program: Address, rent_floor: u64, record_deposit: u64) -> LedgerView {
        LedgerView {
            program,
            rent_floor,
            record_deposit,
            balances: Map::total(|a: Address| 0u64),
            records: Map::empty(),
        }
    }

    /// The balance of `a`.
    pub open spec fn balance(self, a: Address) -> u64 {
        self.balances[a]
    }

    /// The record stored at `a`, if one exists.
    pub open spec fn record(self, a: Address) -> Option<VaultState> {
        if self.records.dom().contains(a) {
            Some(self.records[a])
        } else {
            None
        }
    }

    /// The ledger with the balance of `a` set to `lamports`.
    pub open spec fn with_balance(self, a: Address, lamports: u64) -> LedgerView {
        LedgerView { balances: self.balances.insert(a, lamports), ..self }
    }

    /// The ledger with the record at `a` set to `record`.
    pub open spec fn with_record(self, a: Address, record: Option<VaultState>) -> LedgerView {
        match record {
            Some(state) => LedgerView { records: self.records.insert(a, state), ..self },
            None => LedgerView { records: self.records.remove(a), ..self },
        }
    }

    /// Whether `amount` can move from `from` to `to`: `from` holds it, and the
    /// balance of `to` stays in range once `from` has paid.
    pub open spec fn can_transfer(self, from: Address, to: Address, amount: u64) -> bool {
        &&& self.balance(from) >= amount
        &&& self.with_balance(from, (self.balance(from) - amount) as u64).balance(to) + amount
            <= u64::MAX
    }

    /// The ledger after `amount` has moved from `from` to `to`.
    pub open spec fn transferred(self, from: Address, to: Address, amount: u64) -> LedgerView {
        let paid = self.with_balance(from, (self.balance(from) - amount) as u64);
        paid.with_balance(to, (paid.balance(to) + amount) as u64)
    }

    /// What a transfer on the word of an authority proof returns: the proof
    /// must control the paying account, and the ledger must be able to move
    /// the funds.
    pub open spec fn authorized_transfer_result(
        self,
        proof: AuthorityProofView,
        from: Address,
        to: Address,
        amount: u64,
    ) -> Result<(), VaultError> {
        if !proof.controls(self.program, from) {
            Err(VaultError::AuthorizationMismatch)
        } else if !self.can_transfer(from, to, amount) {
            Err(VaultError::TransferFailed)
        } else {
            Ok(())
        }
    }
}

/// The accounts of a ledger, at most one for each address.
pub struct Ledger {
    program: Address,
    rent_floor: u64,
    record_deposit: u64,
    accounts: Vec<Account>,
}

/// Whether the account at index `i` of `accounts` has the address `a`.
spec fn held_at(accounts: Seq<Account>, a: Address, i: int) -> bool {
    0 <= i < accounts.len() && accounts[i].address == a
}

/// No two accounts share an address.
spec fn distinct(accounts: Seq<Account>) -> bool {
    forall|i: int, j: int|
        0 <= i < j < accounts.len() ==> accounts[i].address != accounts[j].address
}

/// The account with address `a`, as far as `accounts` holds one.
spec fn account_of(accounts: Seq<Account>, a: Address) -> Option<Account> {
    if exists|i: int| held_at(accounts, a, i) {
        Some(accounts[choose|i: int| held_at(accounts, a, i)])
    } else {
        None
    }
}

/// The balance that `accounts` gives to `a`.
spec fn balance_of(accounts: Seq<Account>, a: Address) -> u64 {
    match account_of(accounts, a) {
        Some(account) => account.lamports,
        None => 0,
    }
}

/// The record that `accounts` holds at `a`.
spec fn record_of(accounts: Seq<Account>, a: Address) -> Option<VaultState> {
    match account_of(accounts, a) {
        Some(account) => account.record,
        None => None,
    }
}

proof fn lemma_account_at(accounts: Seq<Account>, a: Address, i: int)
    requires
        distinct(accounts),
        held_at(accounts, a, i),
    ensures
        account_of(accounts, a) == Some(accounts[i]),
{
    let j = choose|j: int| held_at(accounts, a, j);
    assert(held_at(accounts, a, j));
    if i < j {
        assert(accounts[i].address != accounts[j].address);
    } else if j < i {
        assert(accounts[j].address != accounts[i].address);
    }
}

proof fn lemma_account_absent(accounts: Seq<Account>, a: Address)
    requires
        forall|i: int| 0 <= i < accounts.len() ==> accounts[i].address != a,
    ensures
        account_of(accounts, a) is None,
{
    assert(forall|i: int| !held_at(accounts, a, i));
}

/// Replacing the account at `i` by one with the same address changes the
/// lookup of that address alone.
proof fn lemma_update(accounts: Seq<Account>, i: int, account: Account)
    requires
        distinct(accounts),
        0 <= i < accounts.len(),
        account.address == accounts[i].address,
    ensures
        distinct(accounts.update(i, account)),
        forall|a: Address|
            #[trigger] account_of(accounts.update(i, account), a) == if a == account.address {
                Some(account)
            } else {
                account_of(accounts, a)
            },
{
    let updated = accounts.update(i, account);
    assert(distinct(updated)) by {
        assert forall|x: int, y: int| 0 <= x < y < updated.len() implies updated[x].address
            != updated[y].address by {
            assert(accounts[x].address != accounts[y].address);
        }
    }
    assert forall|a: Address|
        #[trigger] account_of(updated, a) == if a == account.address {
            Some(account)
        } else {
            account_of(accounts, a)
        } by {
        if a == account.address {
            assert(held_at(updated, a, i));
            lemma_account_at(updated, a, i);
        } else if exists|k: int| held_at(accounts, a, k) {
            let k = choose|k: int| held_at(accounts, a, k);
            assert(held_at(updated, a, k));
            lemma_account_at(updated, a, k);
            lemma_account_at(accounts, a, k);
        } else {
            assert forall|k: int| !held_at(updated, a, k) by {
                if held_at(updated, a, k) {
                    assert(held_at(accounts, a, k));
                }
            }
        }
    }
}

/// Adding an account under an address that has none changes the lookup of
/// that address alone.
proof fn lemma_push(accounts: Seq<Account>, account: Account)
    requires
        distinct(accounts),
        account_of(accounts, account.address) is None,
    ensures
        distinct(accounts.push(account)),
        forall|a: Address|
            #[trigger] account_of(accounts.push(account), a) == if a == account.address {
                Some(account)
            } else {
                account_of(accounts, a)
            },
{
    let pushed = accounts.push(account);
    let n = accounts.len() as int;
    assert(forall|k: int| !held_at(accounts, account.address, k));
    assert(distinct(pushed)) by {
        assert forall|x: int, y: int| 0 <= x < y < pushed.len() implies pushed[x].address
            != pushed[y].address by {
            if y == n {
                assert(!held_at(accounts, account.address, x));
            } else {
                assert(accounts[x].address != accounts[y].address);
            }
        }
    }
    assert forall|a: Address|
        #[trigger] account_of(pushed, a) == if a == account.address {
            Some(account)
        } else {
            account_of(accounts, a)
        } by {
        if a == account.address {
            assert(held_at(pushed, a, n));
            lemma_account_at(pushed, a, n);
        } else if exists|k: int| held_at(accounts, a, k) {
            let k = choose|k: int| held_at(accounts, a, k);
            assert(held_at(pushed, a, k));
            lemma_account_at(pushed, a, k);
            lemma_account_at(accounts, a, k);
        } else {
            assert forall|k: int| !held_at(pushed, a, k) by {
                if held_at(pushed, a, k) {
                    assert(held_at(accounts, a, k));
                }
            }
        }
    }
}

impl View for Ledger {
    type V = LedgerView;

    closed spec fn view(&self) -> LedgerView {
        LedgerView {
            program: self.program,
            rent_floor: self.rent_floor,
            record_deposit: self.record_deposit,
            balances: Map::total(|a: Address| balance_of(self.accounts@, a)),
            records: Map::new(
                |a: Address| record_of(self.accounts@, a) is Some,
                |a: Address| record_of(self.accounts@, a)->0,
            ),
        }
    }
}

impl Ledger {
    /// The ledger keeps at most one account for each address.
    pub closed spec fn wf(&self) -> bool {
        distinct(self.accounts@)
    }

    /// A ledger without funds or records, for the program `program`.
    pub fn new(program: Address, rent_floor: u64, record_deposit: u64) -> (ledger: Ledger)
        ensures
            ledger.wf(),
            ledger@ == LedgerView::empty(program, rent_floor, record_deposit),
    {
        let ledger = Ledger { program, rent_floor, record_deposit, accounts: Vec::new() };
        proof {
            assert forall|a: Address| account_of(ledger.accounts@, a) is None by {
                lemma_account_absent(ledger.accounts@, a);
            }
            let empty = LedgerView::empty(program, rent_floor, record_deposit);
            assert(ledger@.balances =~= empty.balances);
            assert(ledger@.records =~= empty.records);
        }
        ledger
    }

    /// The identity of the program that controls the derived accounts.
    pub fn program(&self) -> (program: Address)
        ensures
            program == self@.program,
    {
        self.program
    }

    /// The least balance that keeps an account without data alive.
    pub fn rent_floor(&self) -> (floor: u64)
        ensures
            floor == self@.rent_floor,
    {
        self.rent_floor
    }

    /// The storage deposit that a record account is created with.
    pub fn record_deposit(&self) -> (deposit: u64)
        ensures
            deposit == self@.record_deposit,
    {
        self.record_deposit
    }

    /// The index of the account with address `a`.
    fn position(&self, a: &Address) -> (found: Option<usize>)
        requires
            self.wf(),
        ensures
            match found {
                Some(i) => held_at(self.accounts@, *a, i as int) && account_of(
                    self.accounts@,
                    *a,
                ) == Some(self.accounts@[i as int]),
                None => account_of(self.accounts@, *a) is None,
            },
    {
        let mut i: usize = 0;
        while i < self.accounts.len()
            invariant
                self.wf(),
                i <= self.accounts@.len(),
                forall|j: int| 0 <= j < i ==> self.accounts@[j].address != *a,
            decreases self.accounts@.len() - i,
        {
            if self.accounts[i].address.same_as(a) {
                proof {
                    lemma_account_at(self.accounts@, *a, i as int);
                }
                return Some(i);
            }
            i += 1;
        }
        proof {
            lemma_account_absent(self.accounts@, *a);
        }
        None
    }

    /// The balance of the account at `a`.
    pub fn lamports(&self, a: &Address) -> (lamports: u64)
        requires
            self.wf(),
        ensures
            lamports == self@.balance(*a),
    {
        match self.position(a) {
            Some(i) => self.accounts[i].lamports,
            None => 0,
        }
    }

    /// The record stored at `a`, if one exists.
    pub fn record(&self, a: &Address) -> (record: Option<VaultState>)
        requires
            self.wf(),
        ensures
            record == self@.record(*a),
    {
        match self.position(a) {
            Some(i) => self.accounts[i].record,
            None => None,
        }
    }

    /// Sets the balance of the account at `a`.
    fn set_lamports(&mut self, a: &Address, lamports: u64)
        requires
            old(self).wf(),
        ensures
            final(self).wf(),
            final(self)@ == old(self)@.with_balance(*a, lamports),
    {
        match self.position(a) {
            Some(i) => {
                let account = Account {
                    address: *a,
                    lamports,
                    record: self.accounts[i].record,
                };
                proof {
                    lemma_update(self.accounts@, i as int, account);
                }
                self.accounts.set(i, account);
            },
            None => {
                let account = Account { address: *a, lamports, record: None };
                proof {
                    lemma_push(self.accounts@, account);
                }
                self.accounts.push(account);
            },
        }
        proof {
            let after = self@;
            let expected = old(self)@.with_balance(*a, lamports);
            assert(after.balances =~= expected.balances);
            assert(after.records =~= expected.records);
        }
    }

    /// Sets the record stored at `a`.
    fn set_record(&mut self, a: &Address, record: Option<VaultState>)
        requires
            old(self).wf(),
        ensures
            final(self).wf(),
            final(self)@ == old(self)@.with_record(*a, record),
    {
        match self.position(a) {
            Some(i) => {
                let account = Account {
                    address: *a,
                    lamports: self.accounts[i].lamports,
                    record,
                };
                proof {
                    lemma_update(self.accounts@, i as int, account);
                }
                self.accounts.set(i, account);
            },
            None => {
                let account = Account { address: *a, lamports: 0, record };
                proof {
                    lemma_push(self.accounts@, account);
                }
                self.accounts.push(account);
            },
        }
        proof {
            let after = self@;
            let expected = old(self)@.with_record(*a, record);
            assert(after.balances =~= expected.balances);
            assert(after.records =~= expected.records);
        }
    }

    /// A copy of the ledger, to work on and to keep or to drop.
    pub fn snapshot(&self) -> (copy: Ledger)
        requires
            self.wf(),
        ensures
            copy.wf(),
            copy@ == self@,
    {
        let mut accounts: Vec<Account> = Vec::new();
        let mut i: usize = 0;
        while i < self.accounts.len()
            invariant
                i <= self.accounts@.len(),
                accounts@ == self.accounts@.subrange(0, i as int),
            decreases self.accounts@.len() - i,
        {
            accounts.push(self.accounts[i]);
            proof {
                assert(accounts@ =~= self.accounts@.subrange(0, i + 1));
            }
            i += 1;
        }
        proof {
            assert(accounts@ =~= self.accounts@);
        }
        Ledger {
            program: self.program,
            rent_floor: self.rent_floor,
            record_deposit: self.record_deposit,
            accounts,
        }
    }

    /// Adds `amount` to the account at `a`: funds that enter the ledger
    /// from outside. Nothing changes where the balance would leave the range.
    pub fn credit(&mut self, a: &Address, amount: u64) -> (done: bool)
        requires
            old(self).wf(),
        ensures
            final(self).wf(),
            done == (old(self)@.balance(*a) + amount <= u64::MAX),
            done ==> final(self)@ == old(self)@.with_balance(
                *a,
                (old(self)@.balance(*a) + amount) as u64,
            ),
            !done ==> final(self)@ == old(self)@,
    {
        match self.lamports(a).checked_add(amount) {
            Some(sum) => {
                self.set_lamports(a, sum);
                true
            },
            None => false,
        }
    }

    /// Stores `state` as the record at `a`.
    pub(crate) fn create_record(&mut self, a: &Address, state: VaultState)
        requires
            old(self).wf(),
        ensures
            final(self).wf(),
            final(self)@ == old(self)@.with_record(*a, Some(state)),
    {
        self.set_record(a, Some(state));
    }

    /// Removes the record at `a`.
    pub(crate) fn destroy_record(&mut self, a: &Address)
        requires
            old(self).wf(),
        ensures
            final(self).wf(),
            final(self)@ == old(self)@.with_record(*a, None),
    {
        self.set_record(a, None);
    }

    /// Moves `amount` from `from` to `to`, or refuses and changes nothing.
    pub(crate) fn transfer(&mut self, from: &Address, to: &Address, amount: u64) -> (moved: Result<
        (),
        VaultError,
    >)
        requires
            old(self).wf(),
        ensures
            final(self).wf(),
            moved == if old(self)@.can_transfer(*from, *to, amount) {
                Ok::<(), VaultError>(())
            } else {
                Err(VaultError::TransferFailed)
            },
            moved is Ok ==> final(self)@ == old(self)@.transferred(*from, *to, amount),
            moved is Err ==> final(self)@ == old(self)@,
    {
        let held = self.lamports(from);
        if held < amount {
            return Err(VaultError::TransferFailed);
        }
        let left = held - amount;
        let receiving = if from.same_as(to) {
            left
        } else {
            self.lamports(to)
        };
        match receiving.checked_add(amount) {
            Some(sum) => {
                self.set_lamports(from, left);
                self.set_lamports(to, sum);
                Ok(())
            },
            None => Err(VaultError::TransferFailed),
        }
    }

    /// Moves `amount` out of the derived account `from` on the word of
    /// `proof`: the ledger derives the address anew from the proof's seeds
    /// and moves the funds only where it is `from`.
    pub(crate) fn transfer_with_authority(
        &mut self,
        proof: &AuthorityProof,
        from: &Address,
        to: &Address,
        amount: u64,
    ) -> (moved: Result<(), VaultError>)
        requires
            old(self).wf(),
        ensures
            final(self).wf(),
            moved == old(self)@.authorized_transfer_result(proof@, *from, *to, amount),
            moved is Ok ==> final(self)@ == old(self)@.transferred(*from, *to, amount),
            moved is Err ==> final(self)@ == old(self)@,
    {
        if !proof.controls(&self.program, from) {
            return Err(VaultError::AuthorizationMismatch);
        }
        self.transfer(from, to, amount)
    }
}

} // verus!
