use vstd::prelude::*;
use crate::accounts::{EmployeeAccount, VestingAccount};
use crate::address::Address;

verus! {

/// The program's account store: pool and grant records, each at its derived
/// address, under the program's id.
pub struct Ledger {
    pub program_id: Address,
    pub pools: Vec<(Address, VestingAccount)>,
    pub grants: Vec<(Address, EmployeeAccount)>,
}

impl Ledger {
    /// No two records share an address, and no grant has paid out more than
    /// its total.
    pub open spec fn wf(&self) -> bool {
        &&& forall|i: int, j: int|
            0 <= i < self.pools@.len() && 0 <= j < self.pools@.len() && i != j
                ==> #[trigger] self.pools@[i].0@ != #[trigger] self.pools@[j].0@
        &&& forall|i: int, j: int|
            0 <= i < self.grants@.len() && 0 <= j < self.grants@.len() && i != j
                ==> #[trigger] self.grants@[i].0@ != #[trigger] self.grants@[j].0@
        &&& forall|i: int|
            0 <= i < self.grants@.len() ==> (#[trigger] self.grants@[i]).1.within_total()
    }

    pub open spec fn has_pool(&self, key: Seq<u8>) -> bool {
        exists|i: int| 0 <= i < self.pools@.len() && #[trigger] self.pools@[i].0@ == key
    }

    pub open spec fn has_grant(&self, key: Seq<u8>) -> bool {
        exists|i: int| 0 <= i < self.grants@.len() && #[trigger] self.grants@[i].0@ == key
    }

    /// The pool record at `key`.
    pub open spec fn pool_at(&self, key: Seq<u8>) -> Option<VestingAccount> {
        if self.has_pool(key) {
            let i = choose|i: int| 0 <= i < self.pools@.len() && #[trigger] self.pools@[i].0@ == key;
            Some(self.pools@[i].1)
        } else {
            None
        }
    }

    /// The position of the grant record at `key`, where there is one.
    pub open spec fn grant_index(&self, key: Seq<u8>) -> int {
        choose|i: int| 0 <= i < self.grants@.len() && #[trigger] self.grants@[i].0@ == key
    }

    /// The grant record at `key`.
    pub open spec fn grant_at(&self, key: Seq<u8>) -> Option<EmployeeAccount> {
        if self.has_grant(key) {
            Some(self.grants@[self.grant_index(key)].1)
        } else {
            None
        }
    }

    /// An empty store for the program with id `program_id`.
    pub fn new(program_id: Address) -> (r: Ledger)
        ensures
            r.wf(),
            r.program_id == program_id,
            r.pools@.len() == 0,
            r.grants@.len() == 0,
    {
        Ledger { program_id, pools: Vec::new(), grants: Vec::new() }
    }

    /// The position of the pool record at `key`, if there is one.
    pub fn find_pool(&self, key: &Address) -> (r: Option<usize>)
        requires
            self.wf(),
        ensures
            match r {
                Some(i) => i < self.pools@.len() && self.pools@[i as int].0@ == key@
                    && self.pool_at(key@) == Some(self.pools@[i as int].1),
                None => !self.has_pool(key@) && self.pool_at(key@) is None,
            },
    {
        let mut i: usize = 0;
        while i < self.pools.len()
            invariant
                self.wf(),
                i <= self.pools@.len(),
                forall|j: int| 0 <= j < i ==> #[trigger] self.pools@[j].0@ != key@,
            decreases self.pools@.len() - i,
        {
            if self.pools[i].0.same(key) {
                proof {
                    assert(self.has_pool(key@));
                    let j = choose|j: int|
                        0 <= j < self.pools@.len() && #[trigger] self.pools@[j].0@ == key@;
                    if j != i as int {
                        assert(self.pools@[j].0@ != self.pools@[i as int].0@);
                    }
                }
                return Some(i);
            }
            i += 1;
        }
        None
    }

    /// The position of the grant record at `key`, if there is one.
    pub fn find_grant(&self, key: &Address) -> (r: Option<usize>)
        requires
            self.wf(),
        ensures
            match r {
                Some(i) => i < self.grants@.len() && self.grants@[i as int].0@ == key@
                    && self.grant_at(key@) == Some(self.grants@[i as int].1)
                    && i as int == self.grant_index(key@),
                None => !self.has_grant(key@) && self.grant_at(key@) is None,
            },
    {
        let mut i: usize = 0;
        while i < self.grants.len()
            invariant
                self.wf(),
                i <= self.grants@.len(),
                forall|j: int| 0 <= j < i ==> #[trigger] self.grants@[j].0@ != key@,
            decreases self.grants@.len() - i,
        {
            if self.grants[i].0.same(key) {
                proof {
                    assert(self.has_grant(key@));
                    let j = choose|j: int|
                        0 <= j < self.grants@.len() && #[trigger] self.grants@[j].0@ == key@;
                    if j != i as int {
                        assert(self.grants@[j].0@ != self.grants@[i as int].0@);
                    }
                }
                return Some(i);
            }
            i += 1;
        }
        None
    }
}

} // verus!
