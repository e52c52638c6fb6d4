use tokenvesting::accounts::EmployeeAccount;
use tokenvesting::address::{derive_grant, derive_pool, derive_token_account, derive_treasury, Address};
use tokenvesting::error::ErrorCode;
use tokenvesting::instructions::{
    claim_tokens, creating_employee_account, creating_vesting_account, record_claim, ClaimTokens,
    CreatingEmployeeAccount, CreatingVestingAccount,
};
use tokenvesting::ledger::Ledger;
use tokenvesting::schedule::{claimable, scaled_vested};

const COMPANY: &str = "acme";

fn addr(b: u8) -> Address {
    Address::new([b; 32])
}

fn program() -> Address {
    addr(7)
}

fn owner() -> Address {
    addr(1)
}

fn employee() -> Address {
    addr(2)
}

fn mint() -> Address {
    addr(3)
}

fn token_program() -> Address {
    addr(4)
}

fn associated_program() -> Address {
    addr(5)
}

fn grant(start: i64, cliff: i64, end: i64, total: u64, withdrawn: u64) -> EmployeeAccount {
    EmployeeAccount {
        beneficiary: employee(),
        start_time: start,
        end_time: end,
        cliff_time: cliff,
        vesting_account: addr(9),
        total_amount: total,
        total_withdrawn: withdrawn,
        bump: 0,
    }
}

fn pool_ctx(name: &str) -> CreatingVestingAccount {
    let bytes = name.as_bytes().to_vec();
    let (pool, _) = derive_pool(&bytes, &program()).unwrap();
    let (treasury, _) = derive_treasury(&bytes, &program()).unwrap();
    CreatingVestingAccount {
        signer: owner(),
        vesting_account: pool,
        mint: mint(),
        treasury_token_account: treasury,
    }
}

fn grant_ctx(pool: Address, caller: Address, beneficiary: Address) -> CreatingEmployeeAccount {
    let (grant, _) = derive_grant(&beneficiary, &pool, &program()).unwrap();
    CreatingEmployeeAccount { owner: caller, beneficiary, vesting_account: pool, employee_account: grant }
}

fn claim_ctx(pool: &CreatingVestingAccount, claimer: Address) -> ClaimTokens {
    let (grant, _) = derive_grant(&claimer, &pool.vesting_account, &program()).unwrap();
    let (to, _) = derive_token_account(&claimer, &token_program(), &mint(), &associated_program()).unwrap();
    ClaimTokens {
        beneficiary: claimer,
        employee_account: grant,
        vesting_account: pool.vesting_account,
        mint: mint(),
        treasury_token_account: pool.treasury_token_account,
        employee_token_account: to,
        token_program: token_program(),
        associated_token_program: associated_program(),
    }
}

/// A ledger with the pool of COMPANY and a grant to `employee()`.
fn ledger_with_grant(start: i64, end: i64, cliff: i64, total: u64) -> (Ledger, CreatingVestingAccount) {
    let mut ledger = Ledger::new(program());
    let pctx = pool_ctx(COMPANY);
    assert_eq!(creating_vesting_account(&mut ledger, &pctx, COMPANY.to_string()), Ok(()));
    let gctx = grant_ctx(pctx.vesting_account, owner(), employee());
    assert_eq!(creating_employee_account(&mut ledger, &gctx, start, end, cliff, total), Ok(()));
    (ledger, pctx)
}

fn withdrawn(ledger: &Ledger, key: &Address) -> u64 {
    let i = ledger.find_grant(key).unwrap();
    ledger.grants[i].1.total_withdrawn
}

#[test]
fn scaled_vested_divides_product() {
    assert_eq!(scaled_vested(10000, 2500, 10000), Ok(2500));
    assert_eq!(scaled_vested(7, 1, 2), Ok(3));
    assert_eq!(scaled_vested(0, -5, 3), Ok(0));
    assert_eq!(scaled_vested(5, -1, 3), Err(ErrorCode::ArithmeticOverflow));
}

#[test]
fn scenario_a_schedule() {
    let g = grant(0, 1000, 10000, 10000, 0);
    assert_eq!(claimable(&g, 500), Err(ErrorCode::BeforeCliff));
    assert_eq!(claimable(&g, 1000), Ok(1000));
    let g = grant(0, 1000, 10000, 10000, 1000);
    assert_eq!(claimable(&g, 5000), Ok(4000));
    let g = grant(0, 1000, 10000, 10000, 5000);
    assert_eq!(claimable(&g, 10000), Ok(5000));
}

#[test]
fn scenario_a_through_ledger() {
    let (mut ledger, pctx) = ledger_with_grant(0, 10000, 1000, 10000);
    let ctx = claim_ctx(&pctx, employee());
    assert_eq!(claim_tokens(&ledger, &ctx, COMPANY.to_string(), 500).unwrap_err(), ErrorCode::BeforeCliff);
    for (now, expected, total) in [(1000i64, 1000u64, 1000u64), (5000, 4000, 5000), (10000, 5000, 10000)] {
        let plan = claim_tokens(&ledger, &ctx, COMPANY.to_string(), now).unwrap();
        assert_eq!(plan.amount, expected);
        assert_eq!(plan.from.bytes, pctx.treasury_token_account.bytes);
        assert_eq!(plan.to.bytes, ctx.employee_token_account.bytes);
        assert_eq!(record_claim(&mut ledger, &plan, true), Ok(()));
        assert_eq!(withdrawn(&ledger, &ctx.employee_account), total);
    }
    assert_eq!(claim_tokens(&ledger, &ctx, COMPANY.to_string(), 20000).unwrap_err(), ErrorCode::NothingToClaim);
}

#[test]
fn scenario_b_overflow() {
    let g = grant(0, 0, 10, u64::MAX, 0);
    assert_eq!(claimable(&g, 5), Err(ErrorCode::ArithmeticOverflow));
    let g = grant(0, 0, 1_000_000, u64::MAX / 2, 0);
    assert_eq!(claimable(&g, 3), Err(ErrorCode::ArithmeticOverflow));
}

#[test]
fn scenario_c_duplicate_grant() {
    let (mut ledger, pctx) = ledger_with_grant(0, 10000, 1000, 10000);
    let gctx = grant_ctx(pctx.vesting_account, owner(), employee());
    assert_eq!(
        creating_employee_account(&mut ledger, &gctx, 5, 50, 10, 99),
        Err(ErrorCode::DuplicateGrant)
    );
    assert_eq!(ledger.grants.len(), 1);
    let g = ledger.grants[0].1;
    assert_eq!((g.start_time, g.end_time, g.cliff_time, g.total_amount, g.total_withdrawn), (0, 10000, 1000, 10000, 0));
}

#[test]
fn scenario_d_not_beneficiary() {
    let (ledger, pctx) = ledger_with_grant(0, 10000, 1000, 10000);
    let mut ctx = claim_ctx(&pctx, addr(8));
    let real = claim_ctx(&pctx, employee());
    ctx.employee_account = real.employee_account;
    assert_eq!(claim_tokens(&ledger, &ctx, COMPANY.to_string(), 5000).unwrap_err(), ErrorCode::NotBeneficiary);
    assert_eq!(withdrawn(&ledger, &real.employee_account), 0);
}

#[test]
fn claimable_grows_with_time() {
    let g = grant(0, 100, 1000, 777, 3);
    let mut last = 0u64;
    for now in [100i64, 101, 333, 500, 999, 1000, 5000] {
        let c = claimable(&g, now).unwrap();
        assert!(c >= last);
        last = c;
    }
}

#[test]
fn fully_vested_after_end() {
    let g = grant(0, 100, 1000, 777, 3);
    assert_eq!(claimable(&g, 1000), Ok(774));
    assert_eq!(claimable(&g, i64::MAX), Ok(774));
    let g = grant(0, 100, 1000, 777, 777);
    assert_eq!(claimable(&g, 2000), Err(ErrorCode::NothingToClaim));
}

#[test]
fn before_cliff_whatever_total() {
    for total in [0u64, 1, 10000, u64::MAX] {
        let g = grant(0, 1000, 10000, total, 0);
        assert_eq!(claimable(&g, 999), Err(ErrorCode::BeforeCliff));
        assert_eq!(claimable(&g, i64::MIN), Err(ErrorCode::BeforeCliff));
    }
}

#[test]
fn claimable_is_repeatable() {
    let g = grant(0, 1000, 10000, 10000, 0);
    assert_eq!(claimable(&g, 4321), claimable(&g, 4321));
    assert_eq!(claimable(&g, 10), claimable(&g, 10));
}

#[test]
fn invalid_schedule() {
    assert_eq!(claimable(&grant(50, 0, 50, 10, 0), 60), Err(ErrorCode::InvalidSchedule));
    assert_eq!(claimable(&grant(50, 0, 10, 10, 0), 60), Err(ErrorCode::InvalidSchedule));
}

#[test]
fn nothing_to_claim() {
    assert_eq!(claimable(&grant(0, 0, 100, 10, 0), 5), Err(ErrorCode::NothingToClaim));
    assert_eq!(claimable(&grant(0, 0, 100, 10, 5), 20), Err(ErrorCode::NothingToClaim));
}

#[test]
fn wide_window_does_not_wrap() {
    let g = grant(i64::MIN, i64::MIN, i64::MAX, 4, 0);
    assert_eq!(claimable(&g, i64::MAX), Ok(4));
    assert_eq!(claimable(&g, 0), Err(ErrorCode::ArithmeticOverflow));
    let g = grant(i64::MIN, i64::MIN, i64::MAX, 1, 0);
    assert_eq!(claimable(&g, i64::MAX - 1), Err(ErrorCode::NothingToClaim));
}

#[test]
fn duplicate_pool() {
    let mut ledger = Ledger::new(program());
    let ctx = pool_ctx(COMPANY);
    assert_eq!(creating_vesting_account(&mut ledger, &ctx, COMPANY.to_string()), Ok(()));
    assert_eq!(creating_vesting_account(&mut ledger, &ctx, COMPANY.to_string()), Err(ErrorCode::DuplicatePool));
    assert_eq!(ledger.pools.len(), 1);
    let p = &ledger.pools[0].1;
    assert_eq!(p.company_name, COMPANY);
    assert_eq!(p.owner.bytes, owner().bytes);
    let (_, bump) = derive_pool(&COMPANY.as_bytes().to_vec(), &program()).unwrap();
    assert_eq!(p.bump, bump);
}

#[test]
fn pool_address_must_be_derived() {
    let mut ledger = Ledger::new(program());
    let mut ctx = pool_ctx(COMPANY);
    ctx.vesting_account = addr(9);
    assert_eq!(creating_vesting_account(&mut ledger, &ctx, COMPANY.to_string()), Err(ErrorCode::AddressMismatch));
    let mut ctx = pool_ctx(COMPANY);
    ctx.treasury_token_account = ctx.vesting_account;
    assert_eq!(creating_vesting_account(&mut ledger, &ctx, COMPANY.to_string()), Err(ErrorCode::AddressMismatch));
    assert_eq!(ledger.pools.len(), 0);
}

#[test]
fn long_company_names() {
    let mut ledger = Ledger::new(program());
    let name = "n".repeat(51);
    let ctx = pool_ctx(COMPANY);
    assert_eq!(creating_vesting_account(&mut ledger, &ctx, name), Err(ErrorCode::NameTooLong));
    let name = "n".repeat(40);
    assert_eq!(creating_vesting_account(&mut ledger, &ctx, name), Err(ErrorCode::InvalidSeeds));
}

#[test]
fn derivation_depends_on_seeds() {
    let a = derive_pool(&b"acme".to_vec(), &program()).unwrap().0;
    let b = derive_pool(&b"acme".to_vec(), &program()).unwrap().0;
    let c = derive_pool(&b"other".to_vec(), &program()).unwrap().0;
    let t = derive_treasury(&b"acme".to_vec(), &program()).unwrap().0;
    assert_eq!(a.bytes, b.bytes);
    assert_ne!(a.bytes, c.bytes);
    assert_ne!(a.bytes, t.bytes);
    assert_ne!(a.bytes, program().bytes);
    assert!(a.same(&b));
    assert!(!a.same(&c));
}

#[test]
fn only_pool_owner_creates_grants() {
    let (mut ledger, pctx) = ledger_with_grant(0, 10000, 1000, 10000);
    let gctx = grant_ctx(pctx.vesting_account, addr(8), addr(6));
    assert_eq!(creating_employee_account(&mut ledger, &gctx, 0, 1, 0, 1), Err(ErrorCode::NotPoolOwner));
    let mut gctx = grant_ctx(pctx.vesting_account, owner(), addr(6));
    gctx.employee_account = addr(9);
    assert_eq!(creating_employee_account(&mut ledger, &gctx, 0, 1, 0, 1), Err(ErrorCode::AddressMismatch));
    let gctx = grant_ctx(addr(9), owner(), addr(6));
    assert_eq!(creating_employee_account(&mut ledger, &gctx, 0, 1, 0, 1), Err(ErrorCode::AddressMismatch));
    assert_eq!(ledger.grants.len(), 1);
}

#[test]
fn claim_rejects_wrong_pool() {
    let (mut ledger, pctx) = ledger_with_grant(0, 10000, 1000, 10000);
    let ctx = claim_ctx(&pctx, employee());
    ledger.grants[0].1.vesting_account = addr(9);
    assert_eq!(claim_tokens(&ledger, &ctx, COMPANY.to_string(), 5000).unwrap_err(), ErrorCode::WrongPool);
}

#[test]
fn claim_rejects_pool_mismatch() {
    let (ledger, pctx) = ledger_with_grant(0, 10000, 1000, 10000);
    let mut ctx = claim_ctx(&pctx, employee());
    ctx.treasury_token_account = addr(9);
    assert_eq!(claim_tokens(&ledger, &ctx, COMPANY.to_string(), 5000).unwrap_err(), ErrorCode::PoolMismatch);
    let mut ctx = claim_ctx(&pctx, employee());
    ctx.mint = addr(9);
    assert_eq!(claim_tokens(&ledger, &ctx, COMPANY.to_string(), 5000).unwrap_err(), ErrorCode::PoolMismatch);
}

#[test]
fn claim_rejects_forged_addresses() {
    let (ledger, pctx) = ledger_with_grant(0, 10000, 1000, 10000);
    let mut ctx = claim_ctx(&pctx, employee());
    ctx.employee_account = addr(9);
    assert_eq!(claim_tokens(&ledger, &ctx, COMPANY.to_string(), 5000).unwrap_err(), ErrorCode::AddressMismatch);
    let ctx = claim_ctx(&pctx, employee());
    assert_eq!(claim_tokens(&ledger, &ctx, "other".to_string(), 5000).unwrap_err(), ErrorCode::AddressMismatch);
    let mut ctx = claim_ctx(&pctx, employee());
    ctx.employee_token_account = addr(9);
    assert_eq!(claim_tokens(&ledger, &ctx, COMPANY.to_string(), 5000).unwrap_err(), ErrorCode::AddressMismatch);
}

#[test]
fn failed_transfer_changes_nothing() {
    let (mut ledger, pctx) = ledger_with_grant(0, 10000, 1000, 10000);
    let ctx = claim_ctx(&pctx, employee());
    let plan = claim_tokens(&ledger, &ctx, COMPANY.to_string(), 5000).unwrap();
    assert_eq!(record_claim(&mut ledger, &plan, false), Err(ErrorCode::TransferFailed));
    assert_eq!(withdrawn(&ledger, &ctx.employee_account), 0);
    assert_eq!(record_claim(&mut ledger, &plan, true), Ok(()));
    assert_eq!(withdrawn(&ledger, &ctx.employee_account), 5000);
}

#[test]
fn stale_plan_cannot_overdraw() {
    let (mut ledger, pctx) = ledger_with_grant(0, 10000, 1000, 10000);
    let ctx = claim_ctx(&pctx, employee());
    let plan = claim_tokens(&ledger, &ctx, COMPANY.to_string(), 10000).unwrap();
    assert_eq!(plan.amount, 10000);
    assert_eq!(record_claim(&mut ledger, &plan, true), Ok(()));
    assert_eq!(record_claim(&mut ledger, &plan, true), Err(ErrorCode::NothingToClaim));
    assert_eq!(withdrawn(&ledger, &ctx.employee_account), 10000);
}
