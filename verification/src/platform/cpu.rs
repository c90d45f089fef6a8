//! CPU time budgets.

use vstd::prelude::*;

verus! {

/// Whole seconds of CPU time that `cpu_pct` percent of some minutes come to, at most what
/// 64 bits hold. Without a percentage or a duration they come to 0.
pub open spec fn cpu_seconds(cpu_pct: u32, duration_minutes: u64) -> nat {
    let seconds = (cpu_pct * (duration_minutes * 60)) as nat / 100;
    if seconds <= u64::MAX {
        seconds
    } else {
        u64::MAX as nat
    }
}

/// Whole seconds of CPU time that `cpu_pct` percent of some minutes come to, at most what
/// 64 bits hold. Without a percentage or a duration there is no budget, which is 0.
///
/// 200 percent of 30 minutes are 3600 seconds.
pub fn cpu_pct_to_seconds(cpu_pct: u32, duration_minutes: u64) -> (seconds: u64)
    requires
        cpu_pct == 0 || duration_minutes * 60 <= u64::MAX,
    ensures
        seconds == cpu_seconds(cpu_pct, duration_minutes),
{
    if cpu_pct == 0 || duration_minutes == 0 {
        assert(0 * (duration_minutes * 60) == 0 && cpu_pct * (0 * 60) == 0) by (nonlinear_arith);
        return 0;
    }
    let duration_secs = duration_minutes * 60;
    assert(cpu_pct * duration_secs <= 0xffff_ffff * 0xffff_ffff_ffff_ffff) by (nonlinear_arith)
        requires
            cpu_pct <= 0xffff_ffff,
            duration_secs <= 0xffff_ffff_ffff_ffff,
    ;
    let seconds: u128 = cpu_pct as u128 * duration_secs as u128 / 100;
    if seconds <= u64::MAX as u128 {
        seconds as u64
    } else {
        u64::MAX
    }
}

/// A larger share of a longer duration is never less CPU time, and no share or no duration
/// is none.
pub proof fn law_budget_monotonic(less_pct: u32, pct: u32, less_minutes: u64, minutes: u64)
    requires
        less_pct <= pct,
        less_minutes <= minutes,
    ensures
        cpu_seconds(less_pct, less_minutes) <= cpu_seconds(pct, minutes),
        cpu_seconds(0, minutes) == 0,
        cpu_seconds(pct, 0) == 0,
{
    assert(less_pct * (less_minutes * 60) <= pct * (minutes * 60)) by (nonlinear_arith)
        requires
            less_pct <= pct,
            less_minutes <= minutes,
    ;
    assert(0 * (minutes * 60) == 0 && pct * (0 * 60) == 0) by (nonlinear_arith);
}

/// The budget of whole processors is their number times the duration, as long as that fits.
pub proof fn law_whole_processors(processors: u32, duration_minutes: u64)
    requires
        processors * 100 <= u32::MAX,
        processors * (duration_minutes * 60) <= u64::MAX,
    ensures
        cpu_seconds((processors * 100) as u32, duration_minutes) == processors * (
        duration_minutes * 60),
{
    let secs = duration_minutes * 60;
    assert((processors * 100) * secs == 100 * (processors * secs)) by (nonlinear_arith);
}

/// The budget is the share in whole seconds: a hundred times the budget is at most the
/// percentage times the seconds, and one second more would be over it. A share that does not
/// fit counts as the most that does.
pub proof fn law_budget_exact(cpu_pct: u32, duration_minutes: u64)
    ensures
        ({
            let share = cpu_pct * (duration_minutes * 60);
            let seconds = cpu_seconds(cpu_pct, duration_minutes);
            &&& seconds <= u64::MAX
            &&& 100 * seconds <= share
            &&& seconds < u64::MAX ==> share < 100 * (seconds + 1)
        }),
{
    let share = cpu_pct * (duration_minutes * 60);
    assert(share >= 0) by (nonlinear_arith)
        requires
            share == cpu_pct * (duration_minutes * 60),
    ;
}

} // verus!
