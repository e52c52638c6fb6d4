use vstd::prelude::*;
use vstd::string::StrSliceExecFns;
use vstd::utf8::encode_utf8;
use crate::accounts::{EmployeeAccount, VestingAccount};
use crate::address::{
    derive_grant, derive_pool, derive_token_account, derive_treasury, grant_seeds, pool_seeds,
    program_address, token_account_seeds, treasury_seeds, Address,
};
use crate::error::ErrorCode;
use crate::ledger::Ledger;
use crate::schedule::{claimable, claimable_spec, lemma_claim_within_total};

verus! {

/// The longest company name a pool accepts, in characters.
pub const MAX_COMPANY_NAME_LEN: usize = 50;

/// The accounts named by a pool creation.
#[derive(Clone, Copy, Debug)]
pub struct CreatingVestingAccount {
    /// The creator, who becomes the pool's owner.
    pub signer: Address,
    /// Where the pool record is to be created.
    pub vesting_account: Address,
    /// The asset to be vested.
    pub mint: Address,
    /// The custodial treasury to be bound to the pool.
    pub treasury_token_account: Address,
}

/// The bumps of a pool and of its treasury, if a pool can be created for the
/// company name `name` with these accounts.
pub open spec fn pool_creation(l: Ledger, ctx: CreatingVestingAccount, name: Seq<char>) -> Result<(u8, u8), ErrorCode> {
    let bytes = encode_utf8(name);
    if name.len() > MAX_COMPANY_NAME_LEN {
        Err(ErrorCode::NameTooLong)
    } else {
        match program_address(pool_seeds(bytes), l.program_id@) {
            None => Err(ErrorCode::InvalidSeeds),
            Some(pool) => if pool.0 != ctx.vesting_account@ {
                Err(ErrorCode::AddressMismatch)
            } else {
                match program_address(treasury_seeds(bytes), l.program_id@) {
                    None => Err(ErrorCode::InvalidSeeds),
                    Some(treasury) => if treasury.0 != ctx.treasury_token_account@ {
                        Err(ErrorCode::AddressMismatch)
                    } else if l.has_pool(pool.0) {
                        Err(ErrorCode::DuplicatePool)
                    } else {
                        Ok((pool.1, treasury.1))
                    },
                }
            },
        }
    }
}

/// Creates the pool of `company_name`, owned by the signer and bound to the
/// supplied asset and treasury. The pool and treasury addresses must be the
/// ones derived from the name, and no pool may exist there yet.
pub fn creating_vesting_account(
    ledger: &mut Ledger,
    ctx: &CreatingVestingAccount,
    company_name: String,
) -> (r: Result<(), ErrorCode>)
    requires
        old(ledger).wf(),
    ensures
        final(ledger).wf(),
        final(ledger).program_id == old(ledger).program_id,
        final(ledger).grants@ == old(ledger).grants@,
        match pool_creation(*old(ledger), *ctx, company_name@) {
            Ok(bumps) => r is Ok && final(ledger).pools@ == old(ledger).pools@.push(
                (
                    ctx.vesting_account,
                    VestingAccount {
                        owner: ctx.signer,
                        mint: ctx.mint,
                        treasury_token_account: ctx.treasury_token_account,
                        company_name,
                        treasury_bump: bumps.1,
                        bump: bumps.0,
                    },
                ),
            ),
            Err(e) => r == Err::<(), ErrorCode>(e) && final(ledger).pools@ == old(ledger).pools@,
        },
{
    if company_name.as_str().unicode_len() > MAX_COMPANY_NAME_LEN {
        return Err(ErrorCode::NameTooLong);
    }
    let bytes = company_name.as_str().as_bytes_vec();
    let (pool, bump) = match derive_pool(&bytes, &ledger.program_id) {
        Some(p) => p,
        None => {
            return Err(ErrorCode::InvalidSeeds);
        },
    };
    if !pool.same(&ctx.vesting_account) {
        return Err(ErrorCode::AddressMismatch);
    }
    let (treasury, treasury_bump) = match derive_treasury(&bytes, &ledger.program_id) {
        Some(p) => p,
        None => {
            return Err(ErrorCode::InvalidSeeds);
        },
    };
    if !treasury.same(&ctx.treasury_token_account) {
        return Err(ErrorCode::AddressMismatch);
    }
    if ledger.find_pool(&pool).is_some() {
        return Err(ErrorCode::DuplicatePool);
    }
    let record = VestingAccount {
        owner: ctx.signer,
        mint: ctx.mint,
        treasury_token_account: ctx.treasury_token_account,
        company_name,
        treasury_bump,
        bump,
    };
    ledger.pools.push((ctx.vesting_account, record));
    Ok(())
}

/// The accounts named by a grant creation.
#[derive(Clone, Copy, Debug)]
pub struct CreatingEmployeeAccount {
    /// The caller, who must own the pool.
    pub owner: Address,
    /// The identity entitled to claim.
    pub beneficiary: Address,
    /// The pool the grant draws on.
    pub vesting_account: Address,
    /// Where the grant record is to be created.
    pub employee_account: Address,
}

/// The bump of the grant, if one can be created with these accounts.
pub open spec fn grant_creation(l: Ledger, ctx: CreatingEmployeeAccount) -> Result<u8, ErrorCode> {
    match l.pool_at(ctx.vesting_account@) {
        None => Err(ErrorCode::AddressMismatch),
        Some(pool) => if pool.owner@ != ctx.owner@ {
            Err(ErrorCode::NotPoolOwner)
        } else {
            match program_address(grant_seeds(ctx.beneficiary@, ctx.vesting_account@), l.program_id@) {
                None => Err(ErrorCode::InvalidSeeds),
                Some(grant) => if grant.0 != ctx.employee_account@ {
                    Err(ErrorCode::AddressMismatch)
                } else if l.has_grant(grant.0) {
                    Err(ErrorCode::DuplicateGrant)
                } else {
                    Ok(grant.1)
                },
            }
        },
    }
}

/// Creates the grant of the beneficiary in the pool, with nothing withdrawn.
/// Only the pool's owner may do so, at the address derived from the
/// beneficiary and the pool, and only once. The times are recorded as given.
pub fn creating_employee_account(
    ledger: &mut Ledger,
    ctx: &CreatingEmployeeAccount,
    start_time: i64,
    end_time: i64,
    cliff_time: i64,
    total_amount: u64,
) -> (r: Result<(), ErrorCode>)
    requires
        old(ledger).wf(),
    ensures
        final(ledger).wf(),
        final(ledger).program_id == old(ledger).program_id,
        final(ledger).pools@ == old(ledger).pools@,
        match grant_creation(*old(ledger), *ctx) {
            Ok(bump) => r is Ok && final(ledger).grants@ == old(ledger).grants@.push(
                (
                    ctx.employee_account,
                    EmployeeAccount {
                        beneficiary: ctx.beneficiary,
                        start_time,
                        end_time,
                        cliff_time,
                        vesting_account: ctx.vesting_account,
                        total_amount,
                        total_withdrawn: 0,
                        bump,
                    },
                ),
            ),
            Err(e) => r == Err::<(), ErrorCode>(e) && final(ledger).grants@ == old(ledger).grants@,
        },
{
    let pool_index = match ledger.find_pool(&ctx.vesting_account) {
        Some(i) => i,
        None => {
            return Err(ErrorCode::AddressMismatch);
        },
    };
    if !ledger.pools[pool_index].1.owner.same(&ctx.owner) {
        return Err(ErrorCode::NotPoolOwner);
    }
    let (grant, bump) = match derive_grant(&ctx.beneficiary, &ctx.vesting_account, &ledger.program_id) {
        Some(p) => p,
        None => {
            return Err(ErrorCode::InvalidSeeds);
        },
    };
    if !grant.same(&ctx.employee_account) {
        return Err(ErrorCode::AddressMismatch);
    }
    if ledger.find_grant(&grant).is_some() {
        return Err(ErrorCode::DuplicateGrant);
    }
    let record = EmployeeAccount {
        beneficiary: ctx.beneficiary,
        start_time,
        end_time,
        cliff_time,
        vesting_account: ctx.vesting_account,
        total_amount,
        total_withdrawn: 0,
        bump,
    };
    ledger.grants.push((ctx.employee_account, record));
    Ok(())
}

/// The accounts named by a claim.
#[derive(Clone, Copy, Debug)]
pub struct ClaimTokens {
    /// The claiming identity.
    pub beneficiary: Address,
    /// The grant claimed against.
    pub employee_account: Address,
    /// The pool the grant draws on.
    pub vesting_account: Address,
    /// The vested asset.
    pub mint: Address,
    /// The pool's treasury, which pays out.
    pub treasury_token_account: Address,
    /// The beneficiary's account for the asset, which receives.
    pub employee_token_account: Address,
    /// The program that keeps token accounts.
    pub token_program: Address,
    /// The program under which token accounts are derived.
    pub associated_token_program: Address,
}

/// A validated claim: the transfer to make, and the grant to charge once it
/// is confirmed.
#[derive(Clone, Copy, Debug)]
pub struct ClaimPlan {
    /// The grant that the amount is charged to.
    pub grant: Address,
    /// The treasury that pays.
    pub from: Address,
    /// The beneficiary's token account.
    pub to: Address,
    pub mint: Address,
    pub amount: u64,
    /// With the company name, what authorises the treasury to pay.
    pub treasury_bump: u8,
}

/// The amount of a claim with these accounts at `now`, and the treasury's
/// bump; or why the claim is refused. The checks run in this order: the
/// grant's record and its bindings, its derived address, the pool's derived
/// address and bindings, the receiving account, and last the schedule.
pub open spec fn claim_check(l: Ledger, ctx: ClaimTokens, name: Seq<char>, now: int) -> Result<(int, u8), ErrorCode> {
    match l.grant_at(ctx.employee_account@) {
        None => Err(ErrorCode::AddressMismatch),
        Some(g) => if g.beneficiary@ != ctx.beneficiary@ {
            Err(ErrorCode::NotBeneficiary)
        } else if g.vesting_account@ != ctx.vesting_account@ {
            Err(ErrorCode::WrongPool)
        } else {
            match program_address(grant_seeds(ctx.beneficiary@, ctx.vesting_account@), l.program_id@) {
                None => Err(ErrorCode::InvalidSeeds),
                Some(ga) => if ga.0 != ctx.employee_account@ || ga.1 != g.bump {
                    Err(ErrorCode::AddressMismatch)
                } else {
                    match l.pool_at(ctx.vesting_account@) {
                        None => Err(ErrorCode::AddressMismatch),
                        Some(p) => match program_address(pool_seeds(encode_utf8(name)), l.program_id@) {
                            None => Err(ErrorCode::InvalidSeeds),
                            Some(pa) => if pa.0 != ctx.vesting_account@ || pa.1 != p.bump {
                                Err(ErrorCode::AddressMismatch)
                            } else if p.treasury_token_account@ != ctx.treasury_token_account@
                                || p.mint@ != ctx.mint@ {
                                Err(ErrorCode::PoolMismatch)
                            } else {
                                match program_address(
                                    token_account_seeds(ctx.beneficiary@, ctx.token_program@, ctx.mint@),
                                    ctx.associated_token_program@,
                                ) {
                                    None => Err(ErrorCode::InvalidSeeds),
                                    Some(ta) => if ta.0 != ctx.employee_token_account@ {
                                        Err(ErrorCode::AddressMismatch)
                                    } else {
                                        match claimable_spec(g, now) {
                                            Err(e) => Err(e),
                                            Ok(a) => Ok((a, p.treasury_bump)),
                                        }
                                    },
                                }
                            },
                        },
                    }
                },
            }
        },
    }
}

/// Validates a claim on the grant at `ctx.employee_account` at time `now` and
/// computes what it pays. Nothing is changed: the transfer is made by the
/// caller, and charged to the grant by `record_claim` once confirmed.
pub fn claim_tokens(ledger: &Ledger, ctx: &ClaimTokens, company_name: String, now: i64) -> (r: Result<ClaimPlan, ErrorCode>)
    requires
        ledger.wf(),
    ensures
        match claim_check(*ledger, *ctx, company_name@, now as int) {
            Ok(c) => r is Ok && r->Ok_0.amount as int == c.0 && r->Ok_0.treasury_bump == c.1
                && r->Ok_0.grant == ctx.employee_account
                && r->Ok_0.from == ctx.treasury_token_account
                && r->Ok_0.to == ctx.employee_token_account && r->Ok_0.mint == ctx.mint,
            Err(e) => r == Err::<ClaimPlan, ErrorCode>(e),
        },
        r is Ok ==> r->Ok_0.amount > 0,
{
    let grant_index = match ledger.find_grant(&ctx.employee_account) {
        Some(i) => i,
        None => {
            return Err(ErrorCode::AddressMismatch);
        },
    };
    let grant: EmployeeAccount = ledger.grants[grant_index].1;
    if !grant.beneficiary.same(&ctx.beneficiary) {
        return Err(ErrorCode::NotBeneficiary);
    }
    if !grant.vesting_account.same(&ctx.vesting_account) {
        return Err(ErrorCode::WrongPool);
    }
    let (grant_address, grant_bump) = match derive_grant(&ctx.beneficiary, &ctx.vesting_account, &ledger.program_id) {
        Some(p) => p,
        None => {
            return Err(ErrorCode::InvalidSeeds);
        },
    };
    if !grant_address.same(&ctx.employee_account) || grant_bump != grant.bump {
        return Err(ErrorCode::AddressMismatch);
    }
    let pool_index = match ledger.find_pool(&ctx.vesting_account) {
        Some(i) => i,
        None => {
            return Err(ErrorCode::AddressMismatch);
        },
    };
    let pool: &VestingAccount = &ledger.pools[pool_index].1;
    let bytes = company_name.as_str().as_bytes_vec();
    let (pool_address, pool_bump) = match derive_pool(&bytes, &ledger.program_id) {
        Some(p) => p,
        None => {
            return Err(ErrorCode::InvalidSeeds);
        },
    };
    if !pool_address.same(&ctx.vesting_account) || pool_bump != pool.bump {
        return Err(ErrorCode::AddressMismatch);
    }
    if !pool.treasury_token_account.same(&ctx.treasury_token_account) || !pool.mint.same(&ctx.mint) {
        return Err(ErrorCode::PoolMismatch);
    }
    let (token_account, _) = match derive_token_account(
        &ctx.beneficiary,
        &ctx.token_program,
        &ctx.mint,
        &ctx.associated_token_program,
    ) {
        Some(p) => p,
        None => {
            return Err(ErrorCode::InvalidSeeds);
        },
    };
    if !token_account.same(&ctx.employee_token_account) {
        return Err(ErrorCode::AddressMismatch);
    }
    let amount = claimable(&grant, now)?;
    Ok(
        ClaimPlan {
            grant: ctx.employee_account,
            from: ctx.treasury_token_account,
            to: ctx.employee_token_account,
            mint: ctx.mint,
            amount,
            treasury_bump: pool.treasury_bump,
        },
    )
}

/// Whether a confirmed transfer of `amount` can be charged to the grant at
/// `grant`, and why not.
pub open spec fn record_check(l: Ledger, grant: Seq<u8>, amount: int, transferred: bool) -> Result<(), ErrorCode> {
    if !transferred {
        Err(ErrorCode::TransferFailed)
    } else {
        match l.grant_at(grant) {
            None => Err(ErrorCode::AddressMismatch),
            Some(g) => if amount == 0 || amount > g.total_amount - g.total_withdrawn {
                Err(ErrorCode::NothingToClaim)
            } else {
                Ok(())
            },
        }
    }
}

/// Charges the transfer of `plan` to its grant once the transfer is
/// confirmed. An unconfirmed transfer changes nothing, and neither does one
/// that would take the grant past its total.
pub fn record_claim(ledger: &mut Ledger, plan: &ClaimPlan, transferred: bool) -> (r: Result<(), ErrorCode>)
    requires
        old(ledger).wf(),
    ensures
        final(ledger).wf(),
        final(ledger).program_id == old(ledger).program_id,
        final(ledger).pools@ == old(ledger).pools@,
        r == record_check(*old(ledger), plan.grant@, plan.amount as int, transferred),
        r is Ok ==> ({
            let i = old(ledger).grant_index(plan.grant@);
            let g = old(ledger).grants@[i].1;
            final(ledger).grants@ == old(ledger).grants@.update(
                i,
                (
                    old(ledger).grants@[i].0,
                    EmployeeAccount { total_withdrawn: (g.total_withdrawn + plan.amount) as u64, ..g },
                ),
            )
        }),
        r is Err ==> final(ledger).grants@ == old(ledger).grants@,
{
    if !transferred {
        return Err(ErrorCode::TransferFailed);
    }
    let i = match ledger.find_grant(&plan.grant) {
        Some(i) => i,
        None => {
            return Err(ErrorCode::AddressMismatch);
        },
    };
    let (key, grant) = ledger.grants[i];
    if plan.amount == 0 || plan.amount > grant.total_amount - grant.total_withdrawn {
        return Err(ErrorCode::NothingToClaim);
    }
    let updated = EmployeeAccount { total_withdrawn: grant.total_withdrawn + plan.amount, ..grant };
    ledger.grants.set(i, (key, updated));
    proof {
        assert forall|a: int, b: int|
            0 <= a < final(ledger).grants@.len() && 0 <= b < final(ledger).grants@.len() && a != b
                implies #[trigger] final(ledger).grants@[a].0@ != #[trigger] final(ledger).grants@[b].0@ by {
            assert(old(ledger).grants@[a].0@ != old(ledger).grants@[b].0@);
        }
        assert forall|a: int| 0 <= a < final(ledger).grants@.len()
            implies (#[trigger] final(ledger).grants@[a]).1.within_total() by {
            assert(old(ledger).grants@[a].1.within_total());
        }
    }
    Ok(())
}

/// Every grant on a well-formed ledger has paid out at most its total; since
/// each operation keeps the ledger well-formed, no sequence of operations
/// takes a grant's withdrawn amount past its total.
pub proof fn lemma_withdrawn_within_total(l: Ledger, key: Seq<u8>)
    requires
        l.wf(),
        l.grant_at(key) is Some,
    ensures
        l.grant_at(key)->Some_0.total_withdrawn <= l.grant_at(key)->Some_0.total_amount,
{
    let i = l.grant_index(key);
    assert(l.grants@[i].1.within_total());
}

/// A claim that passes validation is charged in full once its transfer is
/// confirmed: the amount fits in what is left of the grant.
pub proof fn lemma_validated_claim_records(l: Ledger, ctx: ClaimTokens, name: Seq<char>, now: int)
    requires
        l.wf(),
        claim_check(l, ctx, name, now) is Ok,
    ensures
        record_check(l, ctx.employee_account@, claim_check(l, ctx, name, now)->Ok_0.0, true) == Ok::<
            (),
            ErrorCode,
        >(()),
{
    let g = l.grant_at(ctx.employee_account@)->Some_0;
    lemma_claim_within_total(g, now);
}

/// Once a grant has been created for a beneficiary in a pool, creating it
/// again with the same accounts is refused as a duplicate.
pub proof fn lemma_second_grant_refused(
    before: Ledger,
    after: Ledger,
    ctx: CreatingEmployeeAccount,
    record: EmployeeAccount,
)
    requires
        grant_creation(before, ctx) is Ok,
        after.program_id == before.program_id,
        after.pools@ == before.pools@,
        after.grants@ == before.grants@.push((ctx.employee_account, record)),
    ensures
        grant_creation(after, ctx) == Err::<u8, ErrorCode>(ErrorCode::DuplicateGrant),
{
    let last = before.grants@.len() as int;
    assert(after.grants@[last].0@ == ctx.employee_account@);
    assert(after.has_grant(ctx.employee_account@));
    assert(after.has_pool(ctx.vesting_account@) == before.has_pool(ctx.vesting_account@));
}

/// Once the pool of a company has been created, creating it again under the
/// same name is refused as a duplicate.
pub proof fn lemma_second_pool_refused(
    before: Ledger,
    after: Ledger,
    ctx: CreatingVestingAccount,
    name: Seq<char>,
    record: VestingAccount,
)
    requires
        pool_creation(before, ctx, name) is Ok,
        after.program_id == before.program_id,
        after.pools@ == before.pools@.push((ctx.vesting_account, record)),
    ensures
        pool_creation(after, ctx, name) == Err::<(u8, u8), ErrorCode>(ErrorCode::DuplicatePool),
{
    let last = before.pools@.len() as int;
    assert(after.pools@[last].0@ == ctx.vesting_account@);
    assert(after.has_pool(ctx.vesting_account@));
}

} // verus!
