//! Waveform generation: a pure function from (phase, waveform) to a sample.
use vstd::prelude::*;

verus! {

/// The sample value that stands for 1.0.
pub const UNIT: i32 = 32768;

/// One whole cycle of phase; a phase is a `u32` fraction of it.
pub const PHASE_CYCLE: u64 = 0x1_0000_0000;

/// Half a cycle of phase.
pub const HALF_CYCLE: u32 = 0x8000_0000;

/// The shape of the generated wave.
#[derive(Clone, Copy, Debug, PartialEq, Eq, Structural)]
pub enum Waveform {
    Sine,
    Square,
    Sawtooth,
    Triangle,
}

/// `+1.0` on the first half of the cycle, `-1.0` on the second.
pub open spec fn square_value(phase: int) -> int {
    if phase < HALF_CYCLE {
        UNIT as int
    } else {
        -UNIT
    }
}

/// `2 * phase - 1.0`: a ramp from `-1.0` up to just below `+1.0`.
pub open spec fn sawtooth_value(phase: int) -> int {
    phase / 0x10000 - UNIT
}

/// A symmetric ramp: `-1.0` at phase 0, `+1.0` at half a cycle, back to `-1.0`.
pub open spec fn triangle_value(phase: int) -> int {
    let t = phase / 0x8000;
    if t < 0x10000 {
        t - UNIT
    } else {
        3 * UNIT - t
    }
}

/// `sin(pi * x)` on a half cycle, for `x = s / 2^16` in `[0, 1)`, by the
/// rational approximation `16 x (1 - x) / (5 - 4 x (1 - x))`, scaled to `UNIT`.
pub open spec fn sine_half(s: int) -> int {
    let q = s * (0x10000 - s);
    (0x80000 * q) / (5 * PHASE_CYCLE - 4 * q)
}

/// `sin(2 pi phase)`: the half-cycle shape, negated on the second half.
pub open spec fn sine_value(phase: int) -> int {
    let s = (phase % (HALF_CYCLE as int)) / 0x8000;
    if phase < HALF_CYCLE {
        sine_half(s)
    } else {
        -sine_half(s)
    }
}

/// The value of `waveform` at `phase`, in units of `UNIT`.
pub open spec fn waveform_value(phase: int, waveform: Waveform) -> int {
    match waveform {
        Waveform::Sine => sine_value(phase),
        Waveform::Square => square_value(phase),
        Waveform::Sawtooth => sawtooth_value(phase),
        Waveform::Triangle => triangle_value(phase),
    }
}

proof fn lemma_sine_half_range(s: int)
    requires
        0 <= s < 0x10000,
    ensures
        0 <= sine_half(s) <= UNIT,
{
    let q = s * (0x10000 - s);
    assert(0 <= q <= 0x4000_0000) by (nonlinear_arith)
        requires
            0 <= s < 0x10000,
            q == s * (0x10000 - s),
    ;
    let d = 5 * PHASE_CYCLE - 4 * q;
    assert(d > 0);
    assert(0x80000 * q <= UNIT * d) by (nonlinear_arith)
        requires
            0 <= q <= 0x4000_0000,
            d == 5 * PHASE_CYCLE - 4 * q,
    ;
    assert(0 <= (0x80000 * q) / d <= UNIT) by (nonlinear_arith)
        requires
            0 <= q,
            d > 0,
            0x80000 * q <= UNIT * d,
    ;
}

/// Every waveform stays within `[-1.0, 1.0]` at every phase.
pub proof fn lemma_waveform_in_range(phase: int, waveform: Waveform)
    requires
        0 <= phase < PHASE_CYCLE,
    ensures
        -UNIT <= waveform_value(phase, waveform) <= UNIT,
{
    let s = (phase % (HALF_CYCLE as int)) / 0x8000;
    lemma_sine_half_range(s);
}

/// `sin(2 pi phase)` in units of `UNIT`.
fn sine_sample(phase: u32) -> (r: i32)
    ensures
        r == sine_value(phase as int),
{
    let s: u64 = ((phase % HALF_CYCLE) / 0x8000) as u64;
    proof {
        lemma_sine_half_range(s as int);
    }
    assert(s * (0x10000 - s) <= 0x4000_0000) by (nonlinear_arith)
        requires
            0 <= s < 0x10000,
    ;
    let q: u64 = s * (0x10000 - s);
    let v: u64 = (0x80000 * q) / (5 * PHASE_CYCLE - 4 * q);
    if phase < HALF_CYCLE {
        v as i32
    } else {
        -(v as i32)
    }
}

/// The value of `waveform` at `phase`, in `[-UNIT, UNIT]`.
pub fn sample(phase: u32, waveform: Waveform) -> (r: i32)
    ensures
        r == waveform_value(phase as int, waveform),
        -UNIT <= r <= UNIT,
{
    proof {
        lemma_waveform_in_range(phase as int, waveform);
    }
    match waveform {
        Waveform::Sine => sine_sample(phase),
        Waveform::Square => {
            if phase < HALF_CYCLE {
                UNIT
            } else {
                -UNIT
            }
        },
        Waveform::Sawtooth => (phase / 0x10000) as i32 - UNIT,
        Waveform::Triangle => {
            let t: i32 = (phase / 0x8000) as i32;
            if t < 0x10000 {
                t - UNIT
            } else {
                3 * UNIT - t
            }
        },
    }
}

} // verus!
