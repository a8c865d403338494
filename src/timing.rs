//! Timing arithmetic: ticks of the free-running counter to pixel columns,
//! and the classification of sync pulses.

use vstd::prelude::*;

verus! {

/// Number of columns in a rendered line.
pub const VIS_WIDTH: usize = 1180;

/// Nominal pixel-equivalents per raster line.
pub const LINE_WIDTH: u64 = 1280;

/// Valid rows per frame.
pub const LINE_COUNT: u64 = 300;

/// Nominal frame rate.
pub const HERTZ: u64 = 50;

/// Pixel-equivalents per second across the whole raster.
pub const BIT_RATE: u64 = HERTZ * LINE_WIDTH * LINE_COUNT;

/// Sync pulses longer than this many microseconds mark a frame boundary.
pub const TIME_BETWEEN_LOW_TYPES: u64 = 100;

/// Microseconds per second.
pub const US_CONV_FACTOR: u64 = 1_000_000;

/// Pending rising-edge index meaning "no rising edge since the last falling one".
pub const NO_PENDING: u32 = VIS_WIDTH as u32;

/// Ticks elapsed from `reference` to `tick` on a 64-bit counter that wraps.
pub open spec fn elapsed(tick: u64, reference: u64) -> int {
    if tick >= reference {
        tick - reference
    } else {
        tick - reference + 0x1_0000_0000_0000_0000
    }
}

/// Column reached after `diff` ticks at `freq` ticks per second, rounded to
/// the nearest column and capped at the largest 32-bit value.
pub open spec fn index_of(diff: int, freq: int) -> int {
    let exact = (diff * freq + BIT_RATE / 2) / (BIT_RATE as int);
    if exact > u32::MAX {
        u32::MAX as int
    } else {
        exact
    }
}

/// Pixel index of an edge at `tick` in the line that started at `reference`.
pub fn pixel_index(tick: u64, reference: u64, freq: u64) -> (r: u32)
    ensures
        r == index_of(elapsed(tick, reference), freq as int),
{
    let diff: u64 = tick.wrapping_sub(reference);
    assert(diff == elapsed(tick, reference));
    assert((diff as int) * (freq as int) <= 0xffff_ffff_ffff_fffe_0000_0000_0000_0001) by (nonlinear_arith)
        requires
            diff <= u64::MAX,
            freq <= u64::MAX,
    ;
    let prod: u128 = (diff as u128) * (freq as u128);
    let rounded: u128 = (prod + (BIT_RATE / 2) as u128) / (BIT_RATE as u128);
    if rounded > u32::MAX as u128 {
        u32::MAX
    } else {
        rounded as u32
    }
}

/// Increasing the elapsed time never moves the column left.
pub proof fn lemma_index_monotonic(d1: int, d2: int, freq: int)
    requires
        0 <= d1 <= d2,
        0 <= freq,
    ensures
        index_of(d1, freq) <= index_of(d2, freq),
{
    assert(d1 * freq <= d2 * freq) by (nonlinear_arith)
        requires
            0 <= d1 <= d2,
            0 <= freq,
    ;
    let b = BIT_RATE as int;
    let a1 = d1 * freq + BIT_RATE / 2;
    let a2 = d2 * freq + BIT_RATE / 2;
    assert(a1 / b <= a2 / b) by (nonlinear_arith)
        requires
            a1 <= a2,
            b > 0,
    ;
}

/// Kind of boundary that a completed sync pulse marks.
#[derive(Clone, Copy, Debug, PartialEq, Eq, Structural)]
pub enum Boundary {
    /// A short pulse: the next line of the same frame begins.
    Line,
    /// A long pulse: a new frame begins.
    Frame,
}

/// Sync pulses shorter than this many ticks are line boundaries.
pub open spec fn threshold_of(freq: int) -> int {
    freq * TIME_BETWEEN_LOW_TYPES / (US_CONV_FACTOR as int)
}

/// Classification of a pulse that went low at `last_low` and high at `tick`.
pub open spec fn boundary_of(last_low: int, tick: int, freq: int) -> Boundary {
    if last_low + threshold_of(freq) > tick {
        Boundary::Line
    } else {
        Boundary::Frame
    }
}

/// Length, in ticks, of the longest sync pulse that still ends a line.
pub fn low_threshold(freq: u64) -> (r: u64)
    ensures
        r == threshold_of(freq as int),
{
    let t: u128 = (freq as u128) * (TIME_BETWEEN_LOW_TYPES as u128) / (US_CONV_FACTOR as u128);
    assert(t <= u64::MAX) by (nonlinear_arith)
        requires
            t == (freq as u128) * 100 / 1_000_000,
            freq <= u64::MAX,
    ;
    t as u64
}

/// Classifies the sync pulse that went low at `last_low` and ended at `tick`.
pub fn classify_pulse(last_low: u64, tick: u64, freq: u64) -> (r: Boundary)
    ensures
        r == boundary_of(last_low as int, tick as int, freq as int),
{
    let threshold = low_threshold(freq);
    if (last_low as u128) + (threshold as u128) > tick as u128 {
        Boundary::Line
    } else {
        Boundary::Frame
    }
}

} // verus!
