//! The engine: the control path publishes requests into a snapshot, and the
//! render path takes that snapshot once per buffer before rendering.
use vstd::prelude::*;
use crate::oscillator::{Waveform, UNIT};
use crate::playback::{PlaybackState, Transport, transition};
use crate::parameter::{Parameter, abs, ceil_div, lemma_no_click};
use crate::renderer::{Voice, lemma_stepped_by_parameters};

verus! {

/// Length of the smoothing window, in milliseconds.
pub const SMOOTHING_MS: u32 = 5;

/// Frequency of a new engine, in millihertz.
pub const DEFAULT_FREQUENCY: i64 = 440_000;

/// Amplitude of a new engine, in units of `UNIT` (one half).
pub const DEFAULT_AMPLITUDE: i64 = 16384;

/// What the control path has published and the render path has yet to take.
/// Only the latest request of each kind is kept.
#[derive(Clone, Copy, Debug)]
pub struct Controls {
    pub waveform: Waveform,
    pub frequency: i64,
    pub amplitude: i64,
    pub frequency_changed: bool,
    pub amplitude_changed: bool,
    pub state: PlaybackState,
    pub restart: bool,
}

/// Smoothing window length in samples for `sample_rate`: `SMOOTHING_MS`
/// worth of samples, at least one.
pub open spec fn smoothing_window(sample_rate: int) -> int {
    let w = sample_rate * SMOOTHING_MS / 1000;
    if w < 1 {
        1
    } else {
        w
    }
}

/// A synthesis engine for one sample rate.
pub struct Engine {
    controls: Controls,
    voice: Voice,
}

impl Engine {
    /// The snapshot published by the control path.
    pub closed spec fn controls(&self) -> Controls {
        self.controls
    }

    /// The render path's oscillator and parameters.
    pub closed spec fn voice(&self) -> Voice {
        self.voice
    }

    pub closed spec fn wf(&self) -> bool {
        self.voice.wf()
    }

    /// The engine after a frequency request.
    pub closed spec fn with_frequency(self, millihertz: i64) -> Engine {
        Engine {
            controls: Controls {
                frequency: millihertz,
                frequency_changed: true,
                ..self.controls
            },
            ..self
        }
    }

    /// The engine after an amplitude request.
    pub closed spec fn with_amplitude(self, level: i64) -> Engine {
        Engine {
            controls: Controls { amplitude: level, amplitude_changed: true, ..self.controls },
            ..self
        }
    }

    /// The engine after a waveform request.
    pub closed spec fn with_waveform(self, waveform: Waveform) -> Engine {
        Engine { controls: Controls { waveform, ..self.controls }, ..self }
    }

    /// The engine after a transport request. Starting from `Stopped` asks the
    /// render path to begin a fresh note; stopping withdraws that request.
    pub closed spec fn with_transport(self, command: Transport) -> Engine {
        let s = self.controls.state;
        let next = transition(s, command);
        let restart = if s == PlaybackState::Stopped && next == PlaybackState::Playing {
            true
        } else if next == PlaybackState::Stopped {
            false
        } else {
            self.controls.restart
        };
        Engine { controls: Controls { state: next, restart, ..self.controls }, ..self }
    }

    /// The render path's voice once it has taken the published snapshot: new
    /// targets start their ramps, the waveform is swapped, and a fresh note
    /// (only while playing) starts at phase zero with the amplitude ramping up
    /// from silence.
    pub closed spec fn synced_voice(self) -> Voice {
        let c = self.controls;
        let v = self.voice;
        let f = if c.frequency_changed {
            v.frequency.retargeted(c.frequency as int)
        } else {
            v.frequency
        };
        let a = if c.amplitude_changed {
            v.amplitude.retargeted(c.amplitude as int)
        } else {
            v.amplitude
        };
        let fresh = c.restart && c.state == PlaybackState::Playing;
        Voice {
            phase: if fresh {
                0
            } else {
                v.phase
            },
            frequency: f,
            amplitude: if fresh {
                Parameter { current: 0, ramp_remaining: a.window, ..a }
            } else {
                a
            },
            waveform: c.waveform,
            ..v
        }
    }

    /// The engine once the render path has taken the snapshot.
    pub closed spec fn synced(self) -> Engine {
        let c = self.controls;
        Engine {
            controls: Controls {
                frequency_changed: false,
                amplitude_changed: false,
                restart: c.restart && c.state != PlaybackState::Playing,
                ..c
            },
            voice: self.synced_voice(),
        }
    }

    /// A stopped engine at `sample_rate` Hz, with a sine at `DEFAULT_FREQUENCY`
    /// and `DEFAULT_AMPLITUDE`, at phase zero.
    pub fn new(sample_rate: u32) -> (r: Engine)
        requires
            sample_rate >= 1,
        ensures
            r.wf(),
            r.controls().state == PlaybackState::Stopped,
            r.voice().phase == 0,
            r.voice().sample_rate == sample_rate,
            r.voice().waveform == Waveform::Sine,
            r.voice().frequency.min == 1,
            r.voice().frequency.max == 500 * sample_rate - 1,
            r.voice().frequency.window == smoothing_window(sample_rate as int),
            r.voice().amplitude.min == 0,
            r.voice().amplitude.max == UNIT,
            r.voice().amplitude.window == smoothing_window(sample_rate as int),
            r.voice().frequency.current == crate::parameter::clamp(
                DEFAULT_FREQUENCY as int,
                1,
                500 * sample_rate - 1,
            ),
            r.voice().amplitude.current == DEFAULT_AMPLITUDE,
            r.voice().frequency.ramp_remaining == 0,
            r.voice().amplitude.ramp_remaining == 0,
            r.controls().waveform == Waveform::Sine,
            !r.controls().frequency_changed,
            !r.controls().amplitude_changed,
            !r.controls().restart,
    {
        let w: u64 = (sample_rate as u64) * (SMOOTHING_MS as u64) / 1000;
        let window: u32 = if w < 1 {
            1
        } else {
            w as u32
        };
        let nyquist: i64 = 500 * (sample_rate as i64);
        let frequency = Parameter::new(DEFAULT_FREQUENCY, 1, nyquist - 1, window);
        let amplitude = Parameter::new(DEFAULT_AMPLITUDE, 0, UNIT as i64, window);
        Engine {
            controls: Controls {
                waveform: Waveform::Sine,
                frequency: frequency.current,
                amplitude: amplitude.current,
                frequency_changed: false,
                amplitude_changed: false,
                state: PlaybackState::Stopped,
                restart: false,
            },
            voice: Voice {
                phase: 0,
                sample_rate,
                frequency,
                amplitude,
                waveform: Waveform::Sine,
            },
        }
    }

    /// Requests a frequency in millihertz; the render path clamps it into
    /// `(0, sample_rate / 2)`.
    pub fn set_frequency(&mut self, millihertz: i64)
        requires
            old(self).wf(),
        ensures
            *final(self) == old(self).with_frequency(millihertz),
            final(self).wf(),
    {
        self.controls.frequency = millihertz;
        self.controls.frequency_changed = true;
    }

    /// Requests an amplitude in units of `UNIT`; the render path clamps it
    /// into `[0, UNIT]`.
    pub fn set_amplitude(&mut self, level: i64)
        requires
            old(self).wf(),
        ensures
            *final(self) == old(self).with_amplitude(level),
            final(self).wf(),
    {
        self.controls.amplitude = level;
        self.controls.amplitude_changed = true;
    }

    pub fn set_waveform(&mut self, waveform: Waveform)
        requires
            old(self).wf(),
        ensures
            *final(self) == old(self).with_waveform(waveform),
            final(self).wf(),
    {
        self.controls.waveform = waveform;
    }

    fn transport(&mut self, command: Transport)
        requires
            old(self).wf(),
        ensures
            *final(self) == old(self).with_transport(command),
            final(self).wf(),
    {
        let s = self.controls.state;
        let next = s.apply(command);
        let was_stopped = match s {
            PlaybackState::Stopped => true,
            _ => false,
        };
        let now_stopped = match next {
            PlaybackState::Stopped => true,
            _ => false,
        };
        if was_stopped && next.is_playing() {
            self.controls.restart = true;
        } else if now_stopped {
            self.controls.restart = false;
        }
        self.controls.state = next;
    }

    /// Stopped to Playing; otherwise nothing.
    pub fn start(&mut self)
        requires
            old(self).wf(),
        ensures
            *final(self) == old(self).with_transport(Transport::Start),
            final(self).wf(),
    {
        self.transport(Transport::Start);
    }

    /// Playing or Paused to Stopped; otherwise nothing.
    pub fn stop(&mut self)
        requires
            old(self).wf(),
        ensures
            *final(self) == old(self).with_transport(Transport::Stop),
            final(self).wf(),
    {
        self.transport(Transport::Stop);
    }

    /// Playing to Paused; otherwise nothing.
    pub fn pause(&mut self)
        requires
            old(self).wf(),
        ensures
            *final(self) == old(self).with_transport(Transport::Pause),
            final(self).wf(),
    {
        self.transport(Transport::Pause);
    }

    /// Paused to Playing; otherwise nothing.
    pub fn resume(&mut self)
        requires
            old(self).wf(),
        ensures
            *final(self) == old(self).with_transport(Transport::Resume),
            final(self).wf(),
    {
        self.transport(Transport::Resume);
    }

    /// The render path: takes the published snapshot, then fills `buffer`
    /// with silence (leaving the voice where it was) unless playing, or with
    /// consecutive rendered samples.
    pub fn fill(&mut self, buffer: &mut Vec<i32>)
        requires
            old(self).wf(),
        ensures
            final(self).wf(),
            final(self).controls() == old(self).synced().controls(),
            final(buffer)@.len() == old(buffer)@.len(),
            old(self).controls().state != PlaybackState::Playing ==> *final(self) == old(self).synced(),
            old(self).controls().state != PlaybackState::Playing ==> forall|k: int|
                0 <= k < final(buffer)@.len() ==> final(buffer)@[k] == 0,
            old(self).controls().state == PlaybackState::Playing ==> final(self).voice()
                == old(self).synced_voice().stepped_by(old(buffer)@.len() as nat),
            old(self).controls().state == PlaybackState::Playing ==> forall|k: int|
                0 <= k < final(buffer)@.len() ==> final(buffer)@[k]
                    == old(self).synced_voice().rendered(old(buffer)@.len() as nat)[k],
            forall|k: int|
                0 <= k < final(buffer)@.len() ==> -UNIT <= #[trigger] final(buffer)@[k] <= UNIT,
    {
        let c = self.controls;
        if c.frequency_changed {
            self.voice.frequency.set_target(c.frequency);
        }
        if c.amplitude_changed {
            self.voice.amplitude.set_target(c.amplitude);
        }
        let playing = c.state.is_playing();
        if c.restart && playing {
            self.voice.phase = 0;
            self.voice.amplitude.current = 0;
            self.voice.amplitude.ramp_remaining = self.voice.amplitude.window;
        }
        self.voice.waveform = c.waveform;
        self.controls.frequency_changed = false;
        self.controls.amplitude_changed = false;
        self.controls.restart = c.restart && !playing;
        assert(self.voice == old(self).synced_voice());
        self.voice.render(buffer, c.state);
    }

    pub fn state(&self) -> (r: PlaybackState)
        ensures
            r == self.controls().state,
    {
        self.controls.state
    }

    pub fn phase(&self) -> (r: u32)
        ensures
            r == self.voice().phase,
    {
        self.voice.phase
    }

    /// The frequency parameter, in millihertz, as the render path holds it.
    pub fn frequency(&self) -> (r: Parameter)
        ensures
            r == self.voice().frequency,
    {
        self.voice.frequency
    }

    /// The amplitude parameter, in units of `UNIT`, as the render path holds it.
    pub fn amplitude(&self) -> (r: Parameter)
        ensures
            r == self.voice().amplitude,
    {
        self.voice.amplitude
    }

    pub fn waveform(&self) -> (r: Waveform)
        ensures
            r == self.voice().waveform,
    {
        self.voice.waveform
    }

    pub fn sample_rate(&self) -> (r: u32)
        ensures
            r == self.voice().sample_rate,
    {
        self.voice.sample_rate
    }
}

/// Requesting the same frequency twice leaves the engine exactly as one
/// request does, so everything rendered afterwards is the same.
pub proof fn lemma_set_frequency_idempotent(e: Engine, millihertz: i64)
    ensures
        e.with_frequency(millihertz).with_frequency(millihertz) == e.with_frequency(millihertz),
{
}

/// Requesting the same amplitude twice is the same as requesting it once.
pub proof fn lemma_set_amplitude_idempotent(e: Engine, level: i64)
    ensures
        e.with_amplitude(level).with_amplitude(level) == e.with_amplitude(level),
{
}

/// While not playing, a buffer fill keeps the phase, and a second fill finds
/// the engine as the first left it, so both give the same silent buffer.
pub proof fn lemma_silence_keeps_state(e: Engine)
    requires
        e.wf(),
        e.controls().state != PlaybackState::Playing,
    ensures
        e.synced().voice().phase == e.voice().phase,
        e.synced().synced() == e.synced(),
{
}

/// No click on a frequency request: while the render path ramps to the new
/// frequency, each sample moves it by at most the distance from the old
/// current frequency to the new target, divided by the window and rounded up.
pub proof fn lemma_frequency_request_is_smooth(e: Engine, millihertz: i64, k: nat)
    requires
        e.wf(),
    ensures
        ({
            let old_f = e.voice().frequency;
            let v = e.with_frequency(millihertz).synced_voice();
            abs(v.stepped_by(k + 1).frequency.current - v.stepped_by(k).frequency.current)
                <= ceil_div(abs(v.frequency.target - old_f.current), old_f.window as int)
        }),
{
    let v = e.with_frequency(millihertz).synced_voice();
    lemma_stepped_by_parameters(v, k);
    lemma_stepped_by_parameters(v, k + 1);
    lemma_no_click(e.voice().frequency, millihertz as int, k);
}

/// No click on an amplitude request, when no fresh note is about to start:
/// each sample moves the amplitude by at most the distance from the old
/// current amplitude to the new target, divided by the window and rounded up.
pub proof fn lemma_amplitude_request_is_smooth(e: Engine, level: i64, k: nat)
    requires
        e.wf(),
        !(e.controls().restart && e.controls().state == PlaybackState::Playing),
    ensures
        ({
            let old_a = e.voice().amplitude;
            let v = e.with_amplitude(level).synced_voice();
            abs(v.stepped_by(k + 1).amplitude.current - v.stepped_by(k).amplitude.current)
                <= ceil_div(abs(v.amplitude.target - old_a.current), old_a.window as int)
        }),
{
    let v = e.with_amplitude(level).synced_voice();
    lemma_stepped_by_parameters(v, k);
    lemma_stepped_by_parameters(v, k + 1);
    lemma_no_click(e.voice().amplitude, level as int, k);
}

} // verus!
