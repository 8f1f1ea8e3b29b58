//! CPU driver core: the busy-spin kernel and the per-tick timing rule.

use vstd::prelude::*;
use crate::clock::{duration_as_nanos, duration_nanos, instant_now, nanos_since, ClockReading};
use crate::TICK_MS;

verus! {

/// Multiplier of the spin kernel's linear congruential step.
pub const LCG_MUL: u64 = 6364136223846793005;
/// Increment of the spin kernel's linear congruential step.
pub const LCG_INC: u64 = 1442695040888963407;
/// Steps taken between two clock readings while spinning.
pub const STEPS_PER_ROUND: u64 = 1000;
/// Seed of the spin kernel's state.
pub const SPIN_SEED: u64 = 0xDEAD_BEEF;

/// One step `x * LCG_MUL + LCG_INC` taken modulo 2^64.
pub open spec fn lcg(x: u64) -> u64 {
    ((x as int * LCG_MUL as int + LCG_INC as int) % 0x1_0000_0000_0000_0000int) as u64
}

/// `n` steps of `lcg` starting from `x`.
pub open spec fn lcg_iter(x: u64, n: nat) -> u64
    decreases n,
{
    if n == 0 {
        x
    } else {
        lcg(lcg_iter(x, (n - 1) as nat))
    }
}

/// `std::hint::black_box`: the identity function, which the optimizer must
/// treat as opaque. Its documentation states that it returns its argument.
#[verifier::external_body]
fn keep_opaque(x: u64) -> (r: u64)
    ensures
        r == x,
{
    std::hint::black_box(x)
}

/// One step of the spin kernel, computed with wrapping arithmetic.
pub fn lcg_step(x: u64) -> (r: u64)
    ensures
        r == lcg(x),
{
    let m = x.wrapping_mul(LCG_MUL);
    let r = m.wrapping_add(LCG_INC);
    proof {
        let big: int = 0x1_0000_0000_0000_0000int;
        let p: int = x as int * LCG_MUL as int;
        assert(m as int == p % big);
        vstd::arithmetic::div_mod::lemma_add_mod_noop(p, LCG_INC as int, big);
        vstd::arithmetic::div_mod::lemma_small_mod(LCG_INC as nat, big as nat);
        vstd::arithmetic::div_mod::lemma_small_mod((r as int) as nat, big as nat);
        if m as int + LCG_INC as int > u64::MAX {
            let d: int = m as int + LCG_INC as int - big;
            vstd::arithmetic::div_mod::lemma_mod_add_multiples_vanish(d, big);
            vstd::arithmetic::div_mod::lemma_small_mod(d as nat, big as nat);
        } else {
            vstd::arithmetic::div_mod::lemma_small_mod(
                (m as int + LCG_INC as int) as nat,
                big as nat,
            );
        }
    }
    r
}

/// A round of `STEPS_PER_ROUND` kernel steps, each result passed through
/// `black_box` so that the work cannot be optimized away.
pub fn spin_round(x: u64) -> (r: u64)
    ensures
        r == lcg_iter(x, STEPS_PER_ROUND as nat),
{
    let mut y = x;
    let mut i: u64 = 0;
    while i < STEPS_PER_ROUND
        invariant
            i <= STEPS_PER_ROUND,
            y == lcg_iter(x, i as nat),
        decreases STEPS_PER_ROUND - i,
    {
        y = keep_opaque(lcg_step(y));
        i = i + 1;
    }
    keep_opaque(y)
}

/// The stopping rule of the spin over the clock readings it took: one
/// reading before each round and one at the end, every reading before a
/// round below `budget`, and the last one at or above it unless the round
/// cap was reached.
pub open spec fn spin_stopped_in_time(readings: Seq<ClockReading>, rounds: u64, budget: u128) -> bool {
    &&& readings.len() == rounds + 1
    &&& forall|i: int| 0 <= i < rounds ==> #[trigger] readings[i].nanos() < budget
    &&& rounds == u64::MAX || readings[rounds as int].nanos() >= budget
}

/// The readings were taken in order from one origin: each counts from the
/// same instant, and none is below the one before.
pub open spec fn readings_in_order(readings: Seq<ClockReading>) -> bool {
    &&& forall|i: int| 0 <= i < readings.len() ==> #[trigger] readings[i].origin() == readings[0].origin()
    &&& forall|i: int, j: int| 0 <= i <= j < readings.len() ==> #[trigger] readings[i].nanos()
        <= #[trigger] readings[j].nanos()
}

/// Keep the CPU busy with arithmetic until `dur` has elapsed on the
/// monotonic clock. The clock is read before each round of
/// `STEPS_PER_ROUND` steps, and the spin stops at the first reading that
/// shows the whole duration; it also ends after `u64::MAX` rounds. Returns
/// the number of rounds run, the last reading in nanoseconds since the
/// start, and (as ghost state) every reading taken, in order. The readings
/// are `ClockReading`s, which only the clock can make.
pub fn busy_spin(dur: std::time::Duration) -> (last: (u64, u128, Ghost<Seq<ClockReading>>))
    ensures
        spin_stopped_in_time(last.2@, last.0, duration_as_nanos(dur)),
        readings_in_order(last.2@),
        last.1 == last.2@[last.0 as int].nanos(),
        last.0 == u64::MAX || last.1 >= duration_as_nanos(dur),
        duration_as_nanos(dur) == 0 ==> last.0 == 0,
{
    let budget = duration_nanos(&dur);
    let started = instant_now();
    let mut x: u64 = SPIN_SEED;
    let mut rounds: u64 = 0;
    let mut reading = nanos_since(&started, None);
    let ghost mut readings: Seq<ClockReading> = seq![reading];
    while reading.nanos_value() < budget && rounds < u64::MAX
        invariant
            x == lcg_iter(SPIN_SEED, (rounds as nat) * (STEPS_PER_ROUND as nat)),
            budget == duration_as_nanos(dur),
            budget == 0 ==> rounds == 0,
            readings.len() == rounds + 1,
            readings[rounds as int] == reading,
            reading.origin() == started,
            forall|i: int| 0 <= i < rounds ==> #[trigger] readings[i].nanos() < budget,
            readings_in_order(readings),
        decreases u64::MAX - rounds,
    {
        let next = spin_round(x);
        proof {
            lemma_lcg_iter_adds(SPIN_SEED, (rounds as nat) * (STEPS_PER_ROUND as nat), STEPS_PER_ROUND as nat);
            assert((rounds as nat) * (STEPS_PER_ROUND as nat) + STEPS_PER_ROUND as nat
                == ((rounds + 1) as nat) * (STEPS_PER_ROUND as nat)) by (nonlinear_arith);
        }
        x = next;
        let fresh = nanos_since(&started, Some(&reading));
        proof {
            let old_readings = readings;
            readings = readings.push(fresh);
            assert forall|i: int| 0 <= i < readings.len() implies #[trigger] readings[i].origin()
                == readings[0].origin() by {
                if i < old_readings.len() {
                    assert(readings[i] == old_readings[i]);
                }
            }
            assert forall|i: int, j: int| 0 <= i <= j < readings.len() implies #[trigger] readings[i].nanos()
                <= #[trigger] readings[j].nanos() by {
                if j < old_readings.len() {
                    assert(readings[i] == old_readings[i]);
                    assert(readings[j] == old_readings[j]);
                } else if i < old_readings.len() {
                    assert(readings[i] == old_readings[i]);
                    assert(old_readings[i].nanos() <= old_readings[rounds as int].nanos());
                }
            }
        }
        rounds = rounds + 1;
        reading = fresh;
    }
    let last = reading.nanos_value();
    (rounds, last, Ghost(readings))
}

/// A spin that stopped in time and read the clock in order stopped at its
/// first reading that shows the budget: every earlier reading is below it,
/// and (unless the round cap was reached) the last reading, which is the
/// largest, is at or above it.
pub proof fn lemma_spin_stops_at_first_full_reading(
    readings: Seq<ClockReading>,
    rounds: u64,
    budget: u128,
)
    requires
        spin_stopped_in_time(readings, rounds, budget),
        readings_in_order(readings),
        rounds < u64::MAX,
    ensures
        forall|i: int| 0 <= i <= rounds ==> (#[trigger] readings[i].nanos() >= budget <==> i == rounds),
        forall|i: int| 0 <= i <= rounds ==> #[trigger] readings[i].nanos() <= readings[rounds as int].nanos(),
{
}

/// Iterating `a` steps and then `b` more is iterating `a + b` steps.
pub proof fn lemma_lcg_iter_adds(x: u64, a: nat, b: nat)
    ensures
        lcg_iter(lcg_iter(x, a), b) == lcg_iter(x, a + b),
    decreases b,
{
    if b > 0 {
        lemma_lcg_iter_adds(x, a, (b - 1) as nat);
        assert((a + b - 1) as nat == a + (b - 1) as nat);
    }
}

/// Length of one tick in nanoseconds.
pub open spec fn tick_nanos() -> int {
    TICK_MS as int * 1_000_000
}

/// What is left of a tick that began `elapsed_nanos` ago: the time to sleep
/// before the next tick, or `None` when the tick is already used up.
pub fn tick_rest(elapsed_nanos: u128) -> (r: Option<u64>)
    ensures
        elapsed_nanos < tick_nanos() ==> r == Some((tick_nanos() - elapsed_nanos) as u64),
        elapsed_nanos >= tick_nanos() ==> r is None,
{
    let tick: u64 = TICK_MS * 1_000_000;
    if elapsed_nanos < tick as u128 {
        Some(tick - elapsed_nanos as u64)
    } else {
        None
    }
}

/// Number of cores over which the per-core phase shift is spread: the
/// number of detected cores, and at least one.
pub fn phase_core_count(detected: usize) -> (r: usize)
    ensures
        r == if detected == 0 { 1 } else { detected },
{
    if detected == 0 { 1 } else { detected }
}

} // verus!
