use vstd::prelude::*;

verus! {

/// Simulation rate: ticks of the movement update per second.
pub const DESIRED_FPS: u32 = 60;

/// Fixed-timestep accumulator. The driver keeps a residual of unsimulated
/// time; given the time elapsed since the last frame it learns how many
/// ticks to run now (`r.0`) and the residual to carry over (`r.1`), both in
/// the same time unit as `step`, the length of one tick.
pub fn catch_up_ticks(residual: u64, elapsed: u64, step: u64) -> (r: (u64, u64))
    requires
        step > 0,
        residual + elapsed <= u64::MAX,
    ensures
        r.0 == (residual + elapsed) / (step as int),
        r.1 == (residual + elapsed) % (step as int),
        r.1 < step,
        r.0 * step + r.1 == residual + elapsed,
    {
        let total: u64 = residual + elapsed;
        let ticks: u64 = total / step;
        let rest: u64 = total % step;
        proof {
            vstd::arithmetic::div_mod::lemma_fundamental_div_mod(total as int, step as int);
        }
        (ticks, rest)
    }

} // verus!
