//! The render path: drives the parameters and the oscillator one sample at
//! a time to fill an output buffer.
use vstd::prelude::*;
use crate::oscillator::{sample, waveform_value, Waveform, UNIT, PHASE_CYCLE};
use crate::parameter::{Parameter, toward_zero_div};
use crate::playback::PlaybackState;

verus! {

/// The phase step of one sample at `frequency` millihertz: `frequency / sample_rate`
/// of a cycle.
pub open spec fn phase_increment(frequency: int, sample_rate: int) -> int {
    frequency * PHASE_CYCLE / (1000 * sample_rate)
}

/// `phase` moved on by `increment`, wrapped into one cycle.
pub open spec fn wrapped_phase(phase: int, increment: int) -> int {
    (phase + increment) % (PHASE_CYCLE as int)
}

/// A waveform value scaled by an amplitude, rounded toward zero.
pub open spec fn scaled(value: int, amplitude: int) -> int {
    toward_zero_div(value * amplitude, UNIT as int)
}

/// The oscillator's phase together with the smoothed frequency (in millihertz)
/// and amplitude (in units of `UNIT`) that drive it.
#[derive(Clone, Copy, Debug)]
pub struct Voice {
    pub phase: u32,
    pub sample_rate: u32,
    pub frequency: Parameter,
    pub amplitude: Parameter,
    pub waveform: Waveform,
}

impl Voice {
    /// The frequency stays strictly between zero and half the sample rate, and
    /// the amplitude within `[0, UNIT]`.
    pub open spec fn wf(self) -> bool {
        &&& self.sample_rate >= 1
        &&& self.frequency.wf()
        &&& self.amplitude.wf()
        &&& 1 <= self.frequency.min
        &&& self.frequency.max < 500 * self.sample_rate
        &&& self.amplitude.min == 0
        &&& self.amplitude.max <= UNIT
    }

    /// The voice after one sample: both parameters advance, then the phase
    /// moves by the new frequency's increment.
    pub open spec fn stepped(self) -> Voice {
        let f = self.frequency.advanced();
        let a = self.amplitude.advanced();
        Voice {
            phase: wrapped_phase(
                self.phase as int,
                phase_increment(f.current as int, self.sample_rate as int),
            ) as u32,
            frequency: f,
            amplitude: a,
            ..self
        }
    }

    /// The sample that the step from this voice produces.
    pub open spec fn output(self) -> int {
        let n = self.stepped();
        scaled(waveform_value(n.phase as int, n.waveform), n.amplitude.current as int)
    }

    /// The voice after `n` samples.
    pub open spec fn stepped_by(self, n: nat) -> Voice
        decreases n,
    {
        if n == 0 {
            self
        } else {
            self.stepped_by((n - 1) as nat).stepped()
        }
    }

    /// The `n` samples rendered from this voice.
    pub open spec fn rendered(self, n: nat) -> Seq<int> {
        Seq::new(n, |k: int| self.stepped_by(k as nat).output())
    }

    /// Renders one sample.
    pub fn render_sample(&mut self) -> (r: i32)
        requires
            old(self).wf(),
        ensures
            *final(self) == old(self).stepped(),
            final(self).wf(),
            r == old(self).output(),
            -UNIT <= r <= UNIT,
    {
        let f = self.frequency.advance_one_sample();
        let a = self.amplitude.advance_one_sample();
        let inc = increment_for(f, self.sample_rate);
        self.phase = ((self.phase as u64 + inc as u64) % PHASE_CYCLE) as u32;
        let s = sample(self.phase, self.waveform);
        scale(s, a)
    }

    /// Fills `buffer`: silence while not `Playing`, with the voice left as it
    /// was; otherwise one rendered sample per slot, in order.
    pub fn render(&mut self, buffer: &mut Vec<i32>, state: PlaybackState)
        requires
            old(self).wf(),
        ensures
            final(self).wf(),
            final(buffer)@.len() == old(buffer)@.len(),
            state != PlaybackState::Playing ==> *final(self) == *old(self),
            state != PlaybackState::Playing ==> forall|k: int|
                0 <= k < final(buffer)@.len() ==> final(buffer)@[k] == 0,
            state == PlaybackState::Playing ==> *final(self) == old(self).stepped_by(
                old(buffer)@.len() as nat,
            ),
            state == PlaybackState::Playing ==> forall|k: int|
                0 <= k < final(buffer)@.len() ==> final(buffer)@[k] == old(self).rendered(
                    old(buffer)@.len() as nat,
                )[k],
            forall|k: int|
                0 <= k < final(buffer)@.len() ==> -UNIT <= #[trigger] final(buffer)@[k] <= UNIT,
    {
        let ghost start = *self;
        let len = buffer.len();
        let playing = state.is_playing();
        let mut i: usize = 0;
        while i < len
            invariant
                0 <= i <= len,
                len == buffer@.len(),
                self.wf(),
                !playing ==> *self == start,
                !playing ==> forall|k: int| 0 <= k < i ==> buffer@[k] == 0,
                playing ==> *self == start.stepped_by(i as nat),
                playing ==> forall|k: int|
                    0 <= k < i ==> buffer@[k] == start.stepped_by(k as nat).output(),
                forall|k: int| 0 <= k < i ==> -UNIT <= #[trigger] buffer@[k] <= UNIT,
            decreases len - i,
        {
            if playing {
                let v = self.render_sample();
                buffer.set(i, v);
            } else {
                buffer.set(i, 0);
            }
            i = i + 1;
        }
    }
}

/// The phase step of one sample at `frequency` millihertz, below half a cycle.
fn increment_for(frequency: i64, sample_rate: u32) -> (r: u32)
    requires
        sample_rate >= 1,
        1 <= frequency < 500 * sample_rate,
    ensures
        r == phase_increment(frequency as int, sample_rate as int),
        r < 0x8000_0000,
{
    let ghost f = frequency as int;
    let ghost sr = sample_rate as int;
    assert(f * PHASE_CYCLE < 0x1_0000_0000_0000_0000_0000) by (nonlinear_arith)
        requires
            1 <= f < 500 * sr,
            sr < 0x1_0000_0000,
    ;
    let num: u128 = (frequency as u128) * (PHASE_CYCLE as u128);
    let den: u128 = 1000 * (sample_rate as u128);
    assert(f * PHASE_CYCLE / (1000 * sr) < 0x8000_0000) by (nonlinear_arith)
        requires
            1 <= f < 500 * sr,
            sr >= 1,
    {
        assert(f * PHASE_CYCLE < 0x8000_0000 * (1000 * sr));
    }
    (num / den) as u32
}

/// `value * amplitude / UNIT`, rounded toward zero.
fn scale(value: i32, amplitude: i64) -> (r: i32)
    requires
        -UNIT <= value <= UNIT,
        0 <= amplitude <= UNIT,
    ensures
        r == scaled(value as int, amplitude as int),
        -UNIT <= r <= UNIT,
{
    assert(-UNIT * UNIT <= value * amplitude <= UNIT * UNIT) by (nonlinear_arith)
        requires
            -UNIT <= value <= UNIT,
            0 <= amplitude <= UNIT,
    ;
    let p: i64 = (value as i64) * amplitude;
    if p >= 0 {
        (p / (UNIT as i64)) as i32
    } else {
        -((-p) / (UNIT as i64)) as i32
    }
}

/// Rendering `n` samples advances each parameter `n` samples along its ramp.
pub proof fn lemma_stepped_by_parameters(v: Voice, n: nat)
    ensures
        v.stepped_by(n).frequency == v.frequency.advanced_by(n),
        v.stepped_by(n).amplitude == v.amplitude.advanced_by(n),
    decreases n,
{
    if n > 0 {
        lemma_stepped_by_parameters(v, (n - 1) as nat);
    }
}

} // verus!
