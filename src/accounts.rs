use vstd::prelude::*;
use crate::address::Address;

verus! {

/// A company's vesting pool: who may create grants, which asset is vested, and
/// the custodial treasury that holds it.
#[derive(Debug)]
pub struct VestingAccount {
    pub owner: Address,
    pub mint: Address,
    pub treasury_token_account: Address,
    /// At most 50 characters; the pool's and the treasury's addresses are
    /// derived from it.
    pub company_name: String,
    pub treasury_bump: u8,
    pub bump: u8,
}

/// One employee's grant against a pool.
#[derive(Clone, Copy, Debug)]
pub struct EmployeeAccount {
    pub beneficiary: Address,
    pub start_time: i64,
    pub end_time: i64,
    pub cliff_time: i64,
    pub vesting_account: Address,
    pub total_amount: u64,
    pub total_withdrawn: u64,
    pub bump: u8,
}

impl EmployeeAccount {
    /// Nothing has been withdrawn beyond the total.
    pub open spec fn within_total(&self) -> bool {
        self.total_withdrawn <= self.total_amount
    }
}

} // verus!
