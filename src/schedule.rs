use vstd::prelude::*;
use crate::accounts::EmployeeAccount;
use crate::error::ErrorCode;

verus! {

/// `total * elapsed / duration`, refused where the product is not a 64-bit
/// unsigned amount.
pub open spec fn scaled_spec(total: int, elapsed: int, duration: int) -> Result<int, ErrorCode> {
    if 0 <= total * elapsed <= u64::MAX {
        Ok(total * elapsed / duration)
    } else {
        Err(ErrorCode::ArithmeticOverflow)
    }
}

/// The amount of the grant unlocked at `now`, its window assumed non-empty.
pub open spec fn vested_spec(g: EmployeeAccount, now: int) -> Result<int, ErrorCode> {
    if now >= g.end_time {
        Ok(g.total_amount as int)
    } else {
        scaled_spec(g.total_amount as int, now - g.start_time, g.end_time - g.start_time)
    }
}

/// What the beneficiary may withdraw at `now`.
pub open spec fn claimable_spec(g: EmployeeAccount, now: int) -> Result<int, ErrorCode> {
    if now < g.cliff_time {
        Err(ErrorCode::BeforeCliff)
    } else if g.end_time - g.start_time <= 0 {
        Err(ErrorCode::InvalidSchedule)
    } else {
        match vested_spec(g, now) {
            Err(e) => Err(e),
            Ok(v) => if v > g.total_withdrawn {
                Ok(v - g.total_withdrawn)
            } else {
                Err(ErrorCode::NothingToClaim)
            },
        }
    }
}

pub open spec fn amount_view(r: Result<u64, ErrorCode>) -> Result<int, ErrorCode> {
    match r {
        Ok(v) => Ok(v as int),
        Err(e) => Err(e),
    }
}

/// `total * elapsed / duration` with the product held at full width. The
/// times are taken at 128 bits, so that the difference of any two 64-bit
/// timestamps fits.
pub fn scaled_vested(total: u64, elapsed: i128, duration: i128) -> (r: Result<u64, ErrorCode>)
    requires
        duration > 0,
    ensures
        amount_view(r) == scaled_spec(total as int, elapsed as int, duration as int),
{
    if total == 0 {
        assert(total * elapsed == 0);
        return Ok(0);
    }
    if elapsed < 0 {
        assert(total * elapsed < 0) by (nonlinear_arith)
            requires total > 0, elapsed < 0;
        return Err(ErrorCode::ArithmeticOverflow);
    }
    if elapsed > u64::MAX as i128 {
        assert(total * elapsed > u64::MAX) by (nonlinear_arith)
            requires total >= 1, elapsed > u64::MAX;
        return Err(ErrorCode::ArithmeticOverflow);
    }
    let t = total as u128;
    let e = elapsed as u128;
    assert(t * e <= u64::MAX * u64::MAX) by (nonlinear_arith)
        requires t <= u64::MAX, e <= u64::MAX;
    let p = t * e;
    if p > u64::MAX as u128 {
        return Err(ErrorCode::ArithmeticOverflow);
    }
    let d = duration as u128;
    let q = p / d;
    assert(q <= p) by (nonlinear_arith)
        requires q == p / d, d >= 1, p >= 0;
    Ok(q as u64)
}

/// What the beneficiary of `grant` may withdraw at `now`, or why nothing.
pub fn claimable(grant: &EmployeeAccount, now: i64) -> (r: Result<u64, ErrorCode>)
    ensures
        amount_view(r) == claimable_spec(*grant, now as int),
        r is Ok ==> r->Ok_0 > 0,
        now < grant.cliff_time ==> r == Err::<u64, ErrorCode>(ErrorCode::BeforeCliff),
{
    if now < grant.cliff_time {
        return Err(ErrorCode::BeforeCliff);
    }
    let duration: i128 = grant.end_time as i128 - grant.start_time as i128;
    if duration <= 0 {
        return Err(ErrorCode::InvalidSchedule);
    }
    let vested: u64 = if now >= grant.end_time {
        grant.total_amount
    } else {
        let elapsed: i128 = now as i128 - grant.start_time as i128;
        match scaled_vested(grant.total_amount, elapsed, duration) {
            Ok(v) => v,
            Err(e) => {
                return Err(e);
            },
        }
    };
    if vested > grant.total_withdrawn {
        Ok(vested - grant.total_withdrawn)
    } else {
        Err(ErrorCode::NothingToClaim)
    }
}

/// Whatever is vested never exceeds the grant's total.
pub proof fn lemma_vested_within_total(g: EmployeeAccount, now: int)
    requires
        g.end_time - g.start_time > 0,
        vested_spec(g, now) is Ok,
    ensures
        0 <= vested_spec(g, now)->Ok_0 <= g.total_amount,
{
    if now < g.end_time {
        let t = g.total_amount as int;
        let e = now - g.start_time;
        let d = g.end_time - g.start_time;
        let p = t * e;
        assert(0 <= p / d <= t) by (nonlinear_arith)
            requires t >= 0, e < d, d > 0, p == t * e, p >= 0;
    }
}

/// Vesting only grows with time: for `t1 <= t2`, the amount vested at `t1` is
/// at most the amount vested at `t2` wherever both are defined.
pub proof fn lemma_vested_monotonic(g: EmployeeAccount, t1: int, t2: int)
    requires
        g.end_time - g.start_time > 0,
        t1 <= t2,
        vested_spec(g, t1) is Ok,
        vested_spec(g, t2) is Ok,
    ensures
        vested_spec(g, t1)->Ok_0 <= vested_spec(g, t2)->Ok_0,
{
    lemma_vested_within_total(g, t1);
    if t2 < g.end_time {
        let t = g.total_amount as int;
        let e1 = t1 - g.start_time;
        let e2 = t2 - g.start_time;
        let d = g.end_time - g.start_time;
        let p1 = t * e1;
        let p2 = t * e2;
        assert(p1 <= p2) by (nonlinear_arith)
            requires t >= 0, e1 <= e2, p1 == t * e1, p2 == t * e2;
        assert(p1 / d <= p2 / d) by (nonlinear_arith)
            requires p1 <= p2, d > 0;
    }
}

/// Past the cliff, the claimable amount of a fixed grant never decreases as
/// time advances: once a claim is possible at `t1`, at any later `t2` it is
/// possible again for at least as much, unless the amount no longer fits in
/// 64 bits.
pub proof fn lemma_claimable_monotonic(g: EmployeeAccount, t1: int, t2: int)
    requires
        t1 <= t2,
        claimable_spec(g, t1) is Ok,
    ensures
        claimable_spec(g, t2) is Ok || claimable_spec(g, t2) == Err::<int, ErrorCode>(
            ErrorCode::ArithmeticOverflow,
        ),
        claimable_spec(g, t2) is Ok ==> claimable_spec(g, t1)->Ok_0 <= claimable_spec(g, t2)->Ok_0,
{
    if vested_spec(g, t2) is Ok {
        lemma_vested_monotonic(g, t1, t2);
    }
}

/// From the end of the window on, the whole remainder of the grant is
/// claimable, with no rounding loss: `total_amount - total_withdrawn`, or
/// nothing once all of it has been withdrawn.
pub proof fn lemma_fully_vested(g: EmployeeAccount, now: int)
    requires
        g.start_time < g.end_time,
        g.cliff_time <= now,
        g.end_time <= now,
    ensures
        g.total_withdrawn < g.total_amount ==> claimable_spec(g, now) == Ok::<int, ErrorCode>(
            g.total_amount - g.total_withdrawn,
        ),
        g.total_withdrawn >= g.total_amount ==> claimable_spec(g, now) == Err::<int, ErrorCode>(
            ErrorCode::NothingToClaim,
        ),
{
}

/// Before the cliff nothing is claimable, whatever the grant's total.
pub proof fn lemma_before_cliff(g: EmployeeAccount, now: int)
    requires
        now < g.cliff_time,
    ensures
        claimable_spec(g, now) == Err::<int, ErrorCode>(ErrorCode::BeforeCliff),
{
}

/// A successful claim never takes the withdrawn total past the grant's total.
pub proof fn lemma_claim_within_total(g: EmployeeAccount, now: int)
    requires
        claimable_spec(g, now) is Ok,
    ensures
        g.total_withdrawn + claimable_spec(g, now)->Ok_0 <= g.total_amount,
{
    lemma_vested_within_total(g, now);
}

} // verus!
