use audio_engine::engine::{Engine, DEFAULT_AMPLITUDE, DEFAULT_FREQUENCY};
use audio_engine::oscillator::{Waveform, UNIT};
use audio_engine::playback::PlaybackState;
use audio_engine::FrequencyPlayer;

fn max_delta(buf: &[i32]) -> i32 {
    buf.windows(2).map(|w| (w[1] - w[0]).abs()).max().unwrap_or(0)
}

#[test]
fn new_engine_is_stopped() {
    let e = Engine::new(48_000);
    assert_eq!(e.state(), PlaybackState::Stopped);
    assert_eq!(e.phase(), 0);
    assert_eq!(e.sample_rate(), 48_000);
    assert_eq!(e.waveform(), Waveform::Sine);
    assert_eq!(e.frequency().current, DEFAULT_FREQUENCY);
    assert_eq!(e.amplitude().current, DEFAULT_AMPLITUDE);
    // 5 ms at 48 kHz.
    assert_eq!(e.frequency().window, 240);
    assert_eq!(e.frequency().max, 23_999_999);
}

#[test]
fn tiny_sample_rate_keeps_a_window_of_one() {
    let e = Engine::new(100);
    assert_eq!(e.frequency().window, 1);
    // 440 Hz is above the Nyquist bound of 50 Hz and is clamped below it.
    assert_eq!(e.frequency().current, 49_999);
}

#[test]
fn stopped_engine_renders_silence() {
    let mut e = Engine::new(48_000);
    let mut a = vec![7i32; 256];
    let mut b = vec![-7i32; 256];
    e.fill(&mut a);
    e.fill(&mut b);
    assert!(a.iter().all(|&s| s == 0));
    assert_eq!(a, b);
    assert_eq!(e.phase(), 0);
}

#[test]
fn one_second_of_440_hz() {
    let mut e = FrequencyPlayer::new(48_000);
    e.set_frequency(440_000);
    e.start();
    let mut buf = vec![0i32; 48_000];
    e.fill(&mut buf);
    // The amplitude ramps up from silence over the window.
    assert_eq!(&buf[..5], &[3, 15, 35, 62, 97]);
    assert_eq!(e.amplitude().current, DEFAULT_AMPLITUDE);
    assert_eq!(e.amplitude().ramp_remaining, 0);
    let peak = buf.iter().map(|s| s.abs()).max().unwrap();
    assert_eq!(peak, 16_383);
    let rising = buf.windows(2).filter(|w| w[0] < 0 && w[1] >= 0).count();
    assert_eq!(rising, 440);
    // 2 pi f / rate of the half-scale amplitude, with the sine's slope of 16/5 at zero.
    assert!(max_delta(&buf) <= 16_384 * 16 * 2 * 440 / (5 * 48_000));
}

#[test]
fn retarget_mid_stream_has_no_jump() {
    let mut e = Engine::new(48_000);
    e.start();
    let mut buf = vec![0i32; 480];
    e.fill(&mut buf);
    e.set_frequency(220_000);
    e.set_frequency(880_000);
    let mut out = buf.clone();
    let mut one = vec![0i32; 1];
    let mut prev_f = e.frequency().current;
    // |880 Hz - 440 Hz| / 240 samples, rounded up, in millihertz.
    let step_bound: i64 = 1_834;
    for _ in 0..4_800 {
        e.fill(&mut one);
        out.push(one[0]);
        let f = e.frequency().current;
        assert!((f - prev_f).abs() <= step_bound);
        prev_f = f;
    }
    assert_eq!(e.frequency().current, 880_000);
    assert!(max_delta(&out) <= 16_384 * 16 * 2 * 880 / (5 * 48_000));
}

#[test]
fn pause_then_resume_keeps_phase() {
    let mut a = Engine::new(48_000);
    let mut b = Engine::new(48_000);
    let mut buf = vec![0i32; 100];
    a.start();
    b.start();
    a.fill(&mut buf);
    b.fill(&mut buf);
    let held = a.phase();
    a.pause();
    let mut silent = vec![1i32; 64];
    a.fill(&mut silent);
    assert!(silent.iter().all(|&s| s == 0));
    assert_eq!(a.phase(), held);
    a.fill(&mut silent);
    assert!(silent.iter().all(|&s| s == 0));
    assert_eq!(a.phase(), held);
    a.resume();
    let mut ra = vec![0i32; 50];
    let mut rb = vec![0i32; 50];
    a.fill(&mut ra);
    b.fill(&mut rb);
    assert_eq!(ra, rb);
    assert_ne!(ra[0], 0);
}

#[test]
fn set_frequency_twice_same_as_once() {
    let mut a = Engine::new(44_100);
    let mut b = Engine::new(44_100);
    a.start();
    b.start();
    a.set_frequency(330_000);
    b.set_frequency(330_000);
    b.set_frequency(330_000);
    let mut ba = vec![0i32; 2_000];
    let mut bb = vec![0i32; 2_000];
    a.fill(&mut ba);
    b.fill(&mut bb);
    assert_eq!(ba, bb);
}

#[test]
fn out_of_range_requests_are_clamped() {
    let mut e = Engine::new(48_000);
    e.set_frequency(-5);
    e.set_amplitude(1_000_000);
    let mut buf = vec![0i32; 8];
    e.fill(&mut buf);
    assert_eq!(e.frequency().target, 1);
    assert_eq!(e.amplitude().target, UNIT as i64);
    e.set_frequency(i64::MAX);
    e.set_amplitude(-3);
    e.fill(&mut buf);
    assert_eq!(e.frequency().target, 23_999_999);
    assert_eq!(e.amplitude().target, 0);
}

#[test]
fn stop_then_start_begins_a_fresh_note() {
    let mut e = Engine::new(48_000);
    e.start();
    let mut first = vec![0i32; 300];
    e.fill(&mut first);
    e.stop();
    let mut buf = vec![5i32; 300];
    e.fill(&mut buf);
    assert!(buf.iter().all(|&s| s == 0));
    assert_ne!(e.phase(), 0);
    e.start();
    e.fill(&mut buf);
    assert_eq!(buf, first);
}

#[test]
fn square_waveform_at_full_amplitude() {
    let mut e = Engine::new(48_000);
    e.set_waveform(Waveform::Square);
    e.set_amplitude(UNIT as i64);
    e.start();
    let mut buf = vec![0i32; 48_000];
    e.fill(&mut buf);
    assert_eq!(e.waveform(), Waveform::Square);
    assert!(buf[240..].iter().all(|&s| s == UNIT || s == -UNIT));
    assert!(buf.iter().all(|&s| -UNIT <= s && s <= UNIT));
}

#[test]
fn invalid_transport_requests_are_ignored() {
    let mut e = Engine::new(48_000);
    e.pause();
    assert_eq!(e.state(), PlaybackState::Stopped);
    e.resume();
    assert_eq!(e.state(), PlaybackState::Stopped);
    e.start();
    e.start();
    assert_eq!(e.state(), PlaybackState::Playing);
    e.pause();
    e.start();
    assert_eq!(e.state(), PlaybackState::Paused);
    e.stop();
    assert_eq!(e.state(), PlaybackState::Stopped);
}
