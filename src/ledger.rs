//! The key-addressed store that holds every record.

use crate::address::{aggregate_seeds, device_seeds, program_address, Key};
use crate::records::{Device, TxError, WindowAggregate};
use vstd::prelude::*;

verus! {

/// What a ledger entry holds.
#[derive(Clone, Debug)]
pub enum Record {
    Device(Device),
    Aggregate(WindowAggregate),
}

/// One ledger entry: a record at its address.
#[derive(Clone, Debug)]
pub struct Account {
    pub address: Key,
    pub record: Record,
}

/// The records of one program, each at the address derived for it.
#[derive(Debug)]
pub struct Ledger {
    /// The program under which record addresses are derived.
    pub program_id: Key,
    pub accounts: Vec<Account>,
}

impl Ledger {
    /// Some entry sits at `addr`.
    pub open spec fn holds(self, addr: Seq<u8>) -> bool {
        exists|i: int| 0 <= i < self.accounts@.len() && #[trigger] self.accounts@[i].address@ == addr
    }

    /// The position of the entry at `addr`, where there is one.
    pub open spec fn index_of(self, addr: Seq<u8>) -> int {
        choose|i: int| 0 <= i < self.accounts@.len() && #[trigger] self.accounts@[i].address@ == addr
    }

    /// The record at `addr`.
    pub open spec fn record_at(self, addr: Seq<u8>) -> Option<Record> {
        if self.holds(addr) {
            Some(self.accounts@[self.index_of(addr)].record)
        } else {
            None
        }
    }

    /// The device record at `addr`.
    pub open spec fn device_at(self, addr: Seq<u8>) -> Option<Device> {
        match self.record_at(addr) {
            Some(Record::Device(d)) => Some(d),
            _ => None,
        }
    }

    /// The aggregate record at `addr`.
    pub open spec fn aggregate_at(self, addr: Seq<u8>) -> Option<WindowAggregate> {
        match self.record_at(addr) {
            Some(Record::Aggregate(w)) => Some(w),
            _ => None,
        }
    }

    /// The entry sits at the address derived from its record's identity:
    /// a device from its public key, a window from its device and start.
    pub open spec fn well_placed(self, a: Account) -> bool {
        match a.record {
            Record::Device(d) => match program_address(device_seeds(d.device_pubkey@), self.program_id@) {
                Some((addr, _)) => addr == a.address@,
                None => false,
            },
            Record::Aggregate(w) => program_address(
                aggregate_seeds(w.device@, w.window_start),
                self.program_id@,
            ) == Some((a.address@, w.bump)),
        }
    }

    /// No two entries share an address, and each is well placed.
    pub open spec fn wf(self) -> bool {
        &&& forall|i: int, j: int|
            0 <= i < j < self.accounts@.len() ==> #[trigger] self.accounts@[i].address@
                != #[trigger] self.accounts@[j].address@
        &&& forall|i: int| 0 <= i < self.accounts@.len() ==> self.well_placed(#[trigger] self.accounts@[i])
    }

    /// An empty ledger for `program_id`.
    pub fn new(program_id: Key) -> (r: Ledger)
        ensures
            r.program_id == program_id,
            r.accounts@.len() == 0,
            r.wf(),
    {
        Ledger { program_id, accounts: Vec::new() }
    }

    /// The position of the entry at `address`.
    pub fn find(&self, address: &Key) -> (r: Option<usize>)
        requires
            self.wf(),
        ensures
            match r {
                Some(i) => self.holds(address@) && i == self.index_of(address@) && i < self.accounts@.len(),
                None => !self.holds(address@),
            },
    {
        let mut i: usize = 0;
        while i < self.accounts.len()
            invariant
                self.wf(),
                i <= self.accounts@.len(),
                forall|j: int| 0 <= j < i ==> self.accounts@[j].address@ != address@,
            decreases self.accounts@.len() - i,
        {
            if self.accounts[i].address.same(address) {
                assert(self.accounts@[i as int].address@ == address@);
                let ghost k = self.index_of(address@);
                assert(self.accounts@[k].address@ == address@);
                proof {
                    if k < i as int {
                        assert(self.accounts@[k].address@ != self.accounts@[i as int].address@);
                    } else if k > i as int {
                        assert(self.accounts@[i as int].address@ != self.accounts@[k].address@);
                    }
                }
                return Some(i);
            }
            i = i + 1;
        }
        None
    }

    /// The device record at `address`.
    pub fn device(&self, address: &Key) -> (r: Option<Device>)
        requires
            self.wf(),
        ensures
            r == self.device_at(address@),
    {
        match self.find(address) {
            Some(i) => match &self.accounts[i].record {
                Record::Device(d) => Some(*d),
                Record::Aggregate(_) => None,
            },
            None => None,
        }
    }

    /// The aggregate record at `address`.
    pub fn aggregate(&self, address: &Key) -> (r: Option<&WindowAggregate>)
        requires
            self.wf(),
        ensures
            match r {
                Some(w) => self.aggregate_at(address@) == Some(*w),
                None => self.aggregate_at(address@) is None,
            },
    {
        match self.find(address) {
            Some(i) => match &self.accounts[i].record {
                Record::Aggregate(w) => Some(w),
                Record::Device(_) => None,
            },
            None => None,
        }
    }

    /// Creates `account` unless an entry already sits at its address, in
    /// which case nothing changes.
    pub fn create(&mut self, account: Account) -> (r: Result<(), TxError>)
        requires
            old(self).wf(),
            old(self).well_placed(account),
        ensures
            final(self).wf(),
            final(self).program_id == old(self).program_id,
            old(self).holds(account.address@) ==> r == Err::<(), TxError>(TxError::AccountInUse)
                && *final(self) == *old(self),
            !old(self).holds(account.address@) ==> r is Ok && final(self).accounts@
                == old(self).accounts@.push(account) && final(self).record_at(account.address@) == Some(
                account.record,
            ),
    {
        match self.find(&account.address) {
            Some(_) => Err(TxError::AccountInUse),
            None => {
                let ghost before = self.accounts@;
                self.accounts.push(account);
                assert forall|i: int| 0 <= i < self.accounts@.len() implies self.well_placed(
                    #[trigger] self.accounts@[i],
                ) by {
                    if i < before.len() {
                        assert(self.accounts@[i] == before[i]);
                    }
                }
                assert forall|i: int, j: int|
                    0 <= i < j < self.accounts@.len() implies #[trigger] self.accounts@[i].address@
                    != #[trigger] self.accounts@[j].address@ by {
                    if j == before.len() {
                        assert(before[i].address@ != account.address@);
                    }
                }
                let ghost last = before.len() as int;
                assert(self.accounts@[last].address@ == account.address@);
                let ghost k = self.index_of(account.address@);
                assert(self.accounts@[k].address@ == account.address@);
                assert(k == last) by {
                    if k < last {
                        assert(self.accounts@[k].address@ != self.accounts@[last].address@);
                    }
                }
                Ok(())
            },
        }
    }

    /// Sets the activity flag of the device record at `address`; `false`,
    /// with nothing changed, where no device record sits there.
    pub fn set_active(&mut self, address: &Key, active: bool) -> (r: bool)
        requires
            old(self).wf(),
        ensures
            final(self).wf(),
            final(self).program_id == old(self).program_id,
            r == old(self).device_at(address@) is Some,
            !r ==> *final(self) == *old(self),
            r ==> final(self).accounts@ == old(self).accounts@.update(
                old(self).index_of(address@),
                Account {
                    address: old(self).accounts@[old(self).index_of(address@)].address,
                    record: Record::Device(
                        Device { is_active: active, ..old(self).device_at(address@).unwrap() },
                    ),
                },
            ),
    {
        match self.find(address) {
            Some(i) => {
                let found = match &self.accounts[i].record {
                    Record::Device(d) => Some(*d),
                    Record::Aggregate(_) => None,
                };
                match found {
                    Some(d) => {
                        let ghost before = self.accounts@;
                        let acc = Account {
                            address: self.accounts[i].address,
                            record: Record::Device(Device { is_active: active, ..d }),
                        };
                        self.accounts.set(i, acc);
                        assert forall|j: int| 0 <= j < self.accounts@.len() implies self.well_placed(
                            #[trigger] self.accounts@[j],
                        ) by {
                            if j != i {
                                assert(self.accounts@[j] == before[j]);
                            } else {
                                assert(self.well_placed(before[j]));
                            }
                        }
                        assert forall|j: int, k: int|
                            0 <= j < k < self.accounts@.len() implies #[trigger] self.accounts@[j].address@
                            != #[trigger] self.accounts@[k].address@ by {
                            assert(before[j].address@ != before[k].address@);
                        }
                        true
                    },
                    None => false,
                }
            },
            None => false,
        }
    }
}

} // verus!
