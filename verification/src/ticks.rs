//! The processor's cycle counter as a clock.

use vstd::prelude::*;

verus! {

/// The counter runs at half the processor's clock of 93.75 MHz.
pub const CPU_CLOCK_HZ: u32 = 93_750_000;

/// Counter ticks in a second.
pub fn get_tick_rate() -> (rate: u32)
    ensures
        rate == CPU_CLOCK_HZ / 2,
{
    CPU_CLOCK_HZ / 2
}

/// The microseconds that `ticks` counter ticks stand for: the tick count
/// over the whole number of ticks in a microsecond.
pub open spec fn ticks_to_us(ticks: u32) -> int {
    ticks as int / ((CPU_CLOCK_HZ as int / 2) / 1_000_000)
}

/// The time at which the counter read `ticks`, in microseconds.
pub fn get_ticks_us(ticks: u32) -> (us: i32)
    ensures
        us == ticks_to_us(ticks),
        us == ticks as int / 46,
        us >= 0,
{
    let rate: u32 = get_tick_rate();
    assert(rate == 46_875_000);
    let per_us: u32 = rate / 1_000_000;
    assert(per_us == 46);
    (ticks / per_us) as i32
}

} // verus!
