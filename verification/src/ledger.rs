//! The ledger: balances and records by address, first as mathematics, then as the value
//! that the operations change.

use crate::address::Address;
use crate::error::ErrorCode;
use crate::state::{Record, RecordView};
use vstd::prelude::*;

verus! {

/// The ledger as mathematics: a balance for every address and the records that were created.
pub struct LedgerView {
    pub balances: Map<Seq<u8>, u64>,
    pub records: Map<Seq<u8>, RecordView>,
}

impl LedgerView {
    /// The ledger in which no address holds anything.
    pub open spec fn empty() -> LedgerView {
        LedgerView { balances: Map::total(|address: Seq<u8>| 0u64), records: Map::empty() }
    }

    /// The balance at an address; zero where nothing was ever credited.
    pub open spec fn balance(self, address: Seq<u8>) -> u64 {
        if self.balances.dom().contains(address) {
            self.balances[address]
        } else {
            0
        }
    }

    /// The record at an address, if one was created there.
    pub open spec fn record(self, address: Seq<u8>) -> Option<RecordView> {
        if self.records.dom().contains(address) {
            Some(self.records[address])
        } else {
            None
        }
    }

    /// An address is in use when it holds a record or funds.
    pub open spec fn in_use(self, address: Seq<u8>) -> bool {
        self.record(address) is Some || self.balance(address) > 0
    }

    /// The ledger with the balance at one address replaced.
    pub open spec fn with_balance(self, address: Seq<u8>, balance: u64) -> LedgerView {
        LedgerView { balances: self.balances.insert(address, balance), records: self.records }
    }

    /// The ledger with the record at one address written.
    pub open spec fn with_record(self, address: Seq<u8>, record: RecordView) -> LedgerView {
        LedgerView { balances: self.balances, records: self.records.insert(address, record) }
    }

    /// The ledger after `amount` has left `from` and then reached `to`.
    pub open spec fn moved(self, from: Seq<u8>, to: Seq<u8>, amount: u64) -> LedgerView {
        let debited = self.with_balance(from, (self.balance(from) - amount) as u64);
        debited.with_balance(to, (debited.balance(to) + amount) as u64)
    }

    /// What a transfer does: it fails, and changes nothing, where `from` holds less than
    /// `amount` or the balance of another account `to` would leave `u64`; else it moves the
    /// amount.
    pub open spec fn transfer(self, from: Seq<u8>, to: Seq<u8>, amount: u64) -> Result<
        LedgerView,
        ErrorCode,
    > {
        if self.balance(from) < amount {
            Err(ErrorCode::InsufficientFunds)
        } else if from != to && self.balance(to) + amount > u64::MAX {
            Err(ErrorCode::Overflow)
        } else {
            Ok(self.moved(from, to, amount))
        }
    }

    /// What a credit does: it fails, and changes nothing, where the balance would leave
    /// `u64`; else the balance grows by the amount.
    pub open spec fn credit(self, address: Seq<u8>, amount: u64) -> Result<LedgerView, ErrorCode> {
        if self.balance(address) + amount > u64::MAX {
            Err(ErrorCode::Overflow)
        } else {
            Ok(self.with_balance(address, (self.balance(address) + amount) as u64))
        }
    }

    /// What the creation of a record does: it fails, and changes nothing, where the address
    /// is in use; else the record stands there.
    pub open spec fn create_record(self, address: Seq<u8>, record: RecordView) -> Result<
        LedgerView,
        ErrorCode,
    > {
        if self.in_use(address) {
            Err(ErrorCode::AlreadyExists)
        } else {
            Ok(self.with_record(address, record))
        }
    }
}

/// One account: what an address holds.
#[derive(Clone, Copy, Debug)]
struct Account {
    address: Address,
    balance: u64,
    record: Option<Record>,
}

/// The accounts that the contest's operations read and change. An address that was never
/// written holds no funds and no record.
#[derive(Debug)]
pub struct Ledger {
    accounts: Vec<Account>,
}

/// The index of the first account at or after `from` that has the address.
spec fn slot_from(accounts: Seq<Account>, address: Seq<u8>, from: int) -> Option<int>
    decreases accounts.len() - from,
{
    if from < 0 || from >= accounts.len() {
        None
    } else if accounts[from].address@ == address {
        Some(from)
    } else {
        slot_from(accounts, address, from + 1)
    }
}

/// The balance that the accounts hold for an address.
spec fn balance_at(accounts: Seq<Account>, address: Seq<u8>) -> u64 {
    match slot_from(accounts, address, 0) {
        Some(i) => accounts[i].balance,
        None => 0,
    }
}

/// The record that the accounts hold for an address.
spec fn record_at(accounts: Seq<Account>, address: Seq<u8>) -> Option<RecordView> {
    match slot_from(accounts, address, 0) {
        Some(i) => match accounts[i].record {
            Some(record) => Some(record@),
            None => None,
        },
        None => None,
    }
}

/// A slot is an index of an account that has the address.
proof fn lemma_slot_in_range(accounts: Seq<Account>, address: Seq<u8>, from: int)
    ensures
        slot_from(accounts, address, from) matches Some(i) ==> {
            &&& from <= i < accounts.len()
            &&& accounts[i].address@ == address
        },
    decreases accounts.len() - from,
{
    if 0 <= from < accounts.len() && accounts[from].address@ != address {
        lemma_slot_in_range(accounts, address, from + 1);
    }
}

/// Replacing an account by one of the same address moves no slot.
proof fn lemma_slot_after_update(
    accounts: Seq<Account>,
    i: int,
    account: Account,
    address: Seq<u8>,
    from: int,
)
    requires
        0 <= i < accounts.len(),
        account.address@ == accounts[i].address@,
    ensures
        slot_from(accounts.update(i, account), address, from) == slot_from(accounts, address, from),
    decreases accounts.len() - from,
{
    if 0 <= from < accounts.len() && accounts[from].address@ != address {
        lemma_slot_after_update(accounts, i, account, address, from + 1);
    }
}

/// A new account at the end takes the slot of its address only if that had none.
proof fn lemma_slot_after_push(
    accounts: Seq<Account>,
    account: Account,
    address: Seq<u8>,
    from: int,
)
    requires
        0 <= from <= accounts.len(),
    ensures
        slot_from(accounts.push(account), address, from) == match slot_from(
            accounts,
            address,
            from,
        ) {
            Some(i) => Some(i),
            None => if account.address@ == address {
                Some(accounts.len() as int)
            } else {
                None
            },
        },
    decreases accounts.len() - from,
{
    if from == accounts.len() {
        assert(slot_from(accounts.push(account), address, from + 1) is None);
    } else if accounts[from].address@ != address {
        lemma_slot_after_push(accounts, account, address, from + 1);
    }
}

impl View for Ledger {
    type V = LedgerView;

    closed spec fn view(&self) -> LedgerView {
        LedgerView {
            balances: Map::total(|a: Seq<u8>| balance_at(self.accounts@, a)),
            records: Map::new(
                |a: Seq<u8>| record_at(self.accounts@, a) is Some,
                |a: Seq<u8>| record_at(self.accounts@, a).unwrap(),
            ),
        }
    }
}

impl Ledger {
    fn find(&self, address: &Address) -> (r: Option<usize>)
        ensures
            r matches Some(i) ==> i < self.accounts.len(),
            slot_from(self.accounts@, address@, 0) == match r {
                Some(i) => Some(i as int),
                None => None,
            },
    {
        let ghost accounts = self.accounts@;
        let mut i: usize = 0;
        while i < self.accounts.len()
            invariant
                i <= self.accounts.len(),
                accounts == self.accounts@,
                slot_from(accounts, address@, 0) == slot_from(accounts, address@, i as int),
            decreases self.accounts.len() - i,
        {
            if self.accounts[i].address == *address {
                return Some(i);
            }
            i += 1;
        }
        None
    }

    /// Writes one account: over the one that has its address, else at the end.
    fn put(&mut self, slot: Option<usize>, account: Account)
        requires
            match slot {
                Some(i) => slot_from(old(self).accounts@, account.address@, 0) == Some(i as int)
                    && i < old(self).accounts.len(),
                None => slot_from(old(self).accounts@, account.address@, 0) is None,
            },
        ensures
            forall|a: Seq<u8>|
                a != account.address@ ==> balance_at(final(self).accounts@, a) == balance_at(
                    old(self).accounts@,
                    a,
                ) && record_at(final(self).accounts@, a) == record_at(old(self).accounts@, a),
            balance_at(final(self).accounts@, account.address@) == account.balance,
            record_at(final(self).accounts@, account.address@) == match account.record {
                Some(record) => Some(record@),
                None => None,
            },
    {
        let ghost before = self.accounts@;
        match slot {
            Some(i) => {
                proof {
                    lemma_slot_in_range(before, account.address@, 0);
                }
                self.accounts.set(i, account);
                proof {
                    assert forall|a: Seq<u8>|
                        slot_from(self.accounts@, a, 0) == slot_from(before, a, 0) by {
                        lemma_slot_after_update(before, i as int, account, a, 0);
                    }
                    assert forall|a: Seq<u8>| a != account.address@ implies balance_at(
                        self.accounts@,
                        a,
                    ) == balance_at(before, a) && record_at(self.accounts@, a) == record_at(
                        before,
                        a,
                    ) by {
                        lemma_slot_in_range(before, a, 0);
                    }
                }
            },
            None => {
                self.accounts.push(account);
                proof {
                    assert forall|a: Seq<u8>| a != account.address@ implies balance_at(
                        self.accounts@,
                        a,
                    ) == balance_at(before, a) && record_at(self.accounts@, a) == record_at(
                        before,
                        a,
                    ) by {
                        lemma_slot_after_push(before, account, a, 0);
                        lemma_slot_in_range(before, a, 0);
                    }
                    lemma_slot_after_push(before, account, account.address@, 0);
                }
            },
        }
    }

    fn set_balance(&mut self, address: &Address, balance: u64)
        ensures
            final(self)@ == old(self)@.with_balance(address@, balance),
    {
        let slot = self.find(address);
        let record = match slot {
            Some(i) => self.accounts[i].record,
            None => None,
        };
        self.put(slot, Account { address: *address, balance, record });
        proof {
            assert(self@.balances =~= old(self)@.with_balance(address@, balance).balances);
            assert(self@.records =~= old(self)@.records);
        }
    }

    pub(crate) fn set_record(&mut self, address: &Address, record: Record)
        ensures
            final(self)@ == old(self)@.with_record(address@, record@),
    {
        let slot = self.find(address);
        let balance = match slot {
            Some(i) => self.accounts[i].balance,
            None => 0,
        };
        self.put(slot, Account { address: *address, balance, record: Some(record) });
        proof {
            assert(self@.balances =~= old(self)@.balances);
            assert(self@.records =~= old(self)@.with_record(address@, record@).records);
        }
    }

    /// A ledger in which no address holds anything.
    pub fn new() -> (r: Ledger)
        ensures
            r@ == LedgerView::empty(),
    {
        let r = Ledger { accounts: Vec::new() };
        assert(r@.balances =~= LedgerView::empty().balances);
        assert(r@.records =~= LedgerView::empty().records);
        r
    }

    /// Adds `amount` to the balance at an address, or fails with `Overflow` and changes
    /// nothing.
    pub fn credit(&mut self, address: &Address, amount: u64) -> (r: Result<(), ErrorCode>)
        ensures
            match old(self)@.credit(address@, amount) {
                Ok(after) => r is Ok && final(self)@ == after,
                Err(e) => r == Err::<(), ErrorCode>(e) && final(self)@ == old(self)@,
            },
    {
        let balance = self.balance(address);
        if amount > u64::MAX - balance {
            return Err(ErrorCode::Overflow);
        }
        self.set_balance(address, balance + amount);
        Ok(())
    }

    /// Moves `amount` from one address to another, or fails and changes nothing:
    /// with `InsufficientFunds` where `from` holds less, with `Overflow` where the balance
    /// of `to` would leave `u64`.
    pub fn transfer(&mut self, from: &Address, to: &Address, amount: u64) -> (r: Result<
        (),
        ErrorCode,
    >)
        ensures
            match old(self)@.transfer(from@, to@, amount) {
                Ok(after) => r is Ok && final(self)@ == after,
                Err(e) => r == Err::<(), ErrorCode>(e) && final(self)@ == old(self)@,
            },
    {
        let available = self.balance(from);
        if available < amount {
            return Err(ErrorCode::InsufficientFunds);
        }
        if *from != *to && self.balance(to) > u64::MAX - amount {
            return Err(ErrorCode::Overflow);
        }
        self.set_balance(from, available - amount);
        let held = self.balance(to);
        self.set_balance(to, held + amount);
        Ok(())
    }

    /// Creates a record at an address that is not in use, or fails with `AlreadyExists` and
    /// changes nothing.
    pub fn create_record(&mut self, address: &Address, record: Record) -> (r: Result<
        (),
        ErrorCode,
    >)
        ensures
            match old(self)@.create_record(address@, record@) {
                Ok(after) => r is Ok && final(self)@ == after,
                Err(e) => r == Err::<(), ErrorCode>(e) && final(self)@ == old(self)@,
            },
    {
        if self.in_use(address) {
            return Err(ErrorCode::AlreadyExists);
        }
        self.set_record(address, record);
        Ok(())
    }

    /// The balance at an address.
    pub fn balance(&self, address: &Address) -> (r: u64)
        ensures
            r == self@.balance(address@),
    {
        match self.find(address) {
            Some(i) => self.accounts[i].balance,
            None => 0,
        }
    }

    /// Whether an address holds a record or funds.
    pub fn in_use(&self, address: &Address) -> (r: bool)
        ensures
            r == self@.in_use(address@),
    {
        match self.find(address) {
            Some(i) => self.accounts[i].record.is_some() || self.accounts[i].balance > 0,
            None => false,
        }
    }

    /// The record at an address, if there is one.
    pub fn record(&self, address: &Address) -> (r: Option<Record>)
        ensures
            match r {
                Some(record) => self@.record(address@) == Some(record@),
                None => self@.record(address@) is None,
            },
    {
        match self.find(address) {
            Some(i) => self.accounts[i].record,
            None => None,
        }
    }
}

} // verus!
