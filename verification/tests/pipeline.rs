use rubato::{FastFixedIn, FastFixedOut, PolynomialDegree, Resampler};
use rubato_downsampler::engine::{total_latency, Downsampler};
use rubato_downsampler::limits::{CHANNELS, MAX_RESAMPLE_RATIO_RELATIVE, RESAMPLE_CHUNK_SIZE};
use rubato_downsampler::plan::Reconfiguration;
use rubato_downsampler::ratio::Ratio;

fn as_float(ratio: Ratio) -> f64 {
    ratio.num as f64 / ratio.den as f64
}

/// A host shell around the engine, with the two stages it drives.
struct Shell {
    engine: Downsampler<f32>,
    down: FastFixedIn<f32>,
    up: FastFixedOut<f32>,
}

/// What one cycle did.
struct CycleReport {
    fired: bool,
    down: (usize, usize),
    up: (usize, usize),
}

impl Shell {
    fn new(sample_rate: u32) -> Shell {
        let bound = MAX_RESAMPLE_RATIO_RELATIVE as f64;
        let mut engine = Downsampler::new(0.0f32);
        engine.initialize(sample_rate);
        Shell {
            engine,
            down: FastFixedIn::new(1.0, bound, PolynomialDegree::Cubic, RESAMPLE_CHUNK_SIZE, CHANNELS)
                .unwrap(),
            up: FastFixedOut::new(1.0, bound, PolynomialDegree::Cubic, RESAMPLE_CHUNK_SIZE, CHANNELS)
                .unwrap(),
        }
    }

    fn apply(&mut self, plan: &Reconfiguration) {
        if plan.clear_history {
            self.down.reset();
            self.up.reset();
        }
        self.down.set_resample_ratio(as_float(plan.ratios.down), false).unwrap();
        self.up.set_resample_ratio(as_float(plan.ratios.up), false).unwrap();
        self.engine
            .finish_reconfiguration(self.down.output_frames_max(), self.up.input_frames_max());
    }

    fn reset(&mut self, target: u32) {
        let plan = self.engine.reset(target).unwrap();
        self.apply(&plan);
    }

    fn process(&mut self, target: u32, block: &mut [Vec<f32>]) -> CycleReport {
        let fired = match self.engine.process(target).unwrap() {
            Some(plan) => {
                self.apply(&plan);
                true
            }
            None => false,
        };
        let down = self
            .down
            .process_into_buffer(block, self.engine.scratch_mut().channels_mut(), None)
            .unwrap();
        let up = self.up.process_into_buffer(self.engine.scratch().channels(), block, None).unwrap();
        CycleReport { fired, down, up }
    }
}

fn sine_block(frequency: f64, sample_rate: f64, first_frame: usize) -> Vec<Vec<f32>> {
    let channel: Vec<f32> = (0..RESAMPLE_CHUNK_SIZE)
        .map(|i| {
            let t = (first_frame + i) as f64 / sample_rate;
            (2.0 * std::f64::consts::PI * frequency * t).sin() as f32
        })
        .collect();
    vec![channel.clone(), channel]
}

/// One block of a sine that sweeps linearly from `from` Hz upwards by
/// `slope` Hz per second.
fn sweep_block(from: f64, slope: f64, sample_rate: f64, first_frame: usize) -> Vec<Vec<f32>> {
    let channel: Vec<f32> = (0..RESAMPLE_CHUNK_SIZE)
        .map(|i| {
            let t = (first_frame + i) as f64 / sample_rate;
            (2.0 * std::f64::consts::PI * (from * t + 0.5 * slope * t * t)).sin() as f32
        })
        .collect();
    vec![channel.clone(), channel]
}

/// The frequency of the grid `from, from + step, ..` below `to` at which
/// `signal` has the most power.
fn strongest_frequency(signal: &[f32], sample_rate: f64, from: f64, to: f64, step: f64) -> f64 {
    let mut best = (from, 0.0);
    let mut frequency = from;
    while frequency < to {
        let power = power_at(signal, frequency, sample_rate);
        if power > best.1 {
            best = (frequency, power);
        }
        frequency += step;
    }
    best.0
}

/// Power of `signal` at `frequency`, by correlation with a sine and a cosine.
fn power_at(signal: &[f32], frequency: f64, sample_rate: f64) -> f64 {
    let mut re = 0.0;
    let mut im = 0.0;
    for (i, s) in signal.iter().enumerate() {
        let phase = 2.0 * std::f64::consts::PI * frequency * i as f64 / sample_rate;
        re += *s as f64 * phase.cos();
        im += *s as f64 * phase.sin();
    }
    (re * re + im * im) / (signal.len() as f64 * signal.len() as f64)
}

#[test]
fn stages_are_built_from_the_limits() {
    let shell = Shell::new(48_000);
    assert_eq!(shell.down.nbr_channels(), 2);
    assert_eq!(shell.up.nbr_channels(), 2);
    assert_eq!(shell.down.input_frames_next(), 128);
    assert_eq!(shell.up.output_frames_next(), 128);
    assert_eq!(shell.down.output_frames_max(), 128 * 808 + 10);
}

#[test]
fn stages_accept_the_planned_ratios_at_every_supported_rate() {
    for host in [44_100u32, 48_000, 88_200, 96_000, 192_000] {
        for target in [250u32, 10_000, 30_000] {
            let mut shell = Shell::new(host);
            let plan = shell.engine.reset(target).unwrap();
            assert!(plan.clear_history);
            shell.down.reset();
            shell.up.reset();
            let down = shell.down.set_resample_ratio(as_float(plan.ratios.down), false);
            let up = shell.up.set_resample_ratio(as_float(plan.ratios.up), false);
            assert!(down.is_ok(), "down stage at {host} for {target}");
            assert!(up.is_ok(), "up stage at {host} for {target}");
        }
    }
}

#[test]
fn stage_bound_agrees_with_the_ratio_bound() {
    let inside = [(1u64, 808u64), (808, 1), (250, 202_000), (202_000, 250), (1, 1), (30_000, 38)];
    let outside = [(1u64, 809u64), (809, 1), (250, 202_001), (202_001, 250), (30_007, 37)];
    for (num, den) in inside {
        let ratio = Ratio { num, den };
        assert!(ratio.is_within(MAX_RESAMPLE_RATIO_RELATIVE));
        let mut shell = Shell::new(48_000);
        assert!(shell.down.set_resample_ratio(as_float(ratio), false).is_ok(), "{num}/{den}");
        assert!(shell.up.set_resample_ratio(as_float(ratio), false).is_ok(), "{num}/{den}");
    }
    for (num, den) in outside {
        let ratio = Ratio { num, den };
        assert!(!ratio.is_within(MAX_RESAMPLE_RATIO_RELATIVE));
        let mut shell = Shell::new(48_000);
        assert!(shell.down.set_resample_ratio(as_float(ratio), false).is_err(), "{num}/{den}");
        assert!(shell.up.set_resample_ratio(as_float(ratio), false).is_err(), "{num}/{den}");
    }
}

#[test]
fn scratch_buffer_holds_what_either_stage_may_ask_for() {
    for host in [44_100u32, 48_000, 192_000] {
        let mut shell = Shell::new(host);
        assert_eq!(shell.engine.scratch().frames(), 128);
        shell.reset(10_000);
        let frames = shell.engine.scratch().frames();
        assert!(frames >= shell.down.output_frames_max());
        assert!(frames >= shell.up.input_frames_max());
        assert_eq!(frames, shell.down.output_frames_max().max(shell.up.input_frames_max()));
        assert!(frames >= shell.down.output_frames_next());
        assert!(frames >= shell.up.input_frames_next());
    }
}

#[test]
fn aligned_rate_gives_whole_frames_per_block() {
    // 128 frames at 48 kHz are 27 frames at 10125 Hz, and 32 at 11025 Hz from 44.1 kHz.
    for (host, frames) in [(48_000u32, 27usize), (44_100, 32)] {
        let mut shell = Shell::new(host);
        shell.reset(10_000);
        for b in 0..50 {
            let mut block = sine_block(440.0, host as f64, b * RESAMPLE_CHUNK_SIZE);
            let report = shell.process(10_000, &mut block);
            assert!(!report.fired);
            assert_eq!(report.down.0, 128);
            assert_eq!(report.up.1, 128);
            if b > 0 {
                assert_eq!(report.down.1, frames, "block {b} at {host}");
                assert_eq!(report.up.0, frames, "block {b} at {host}");
            }
        }
    }
}

#[test]
fn rate_switch_mid_stream_keeps_the_stream_running() {
    let switch_at = 200;
    let mut shell = Shell::new(48_000);
    shell.reset(10_000);
    assert_eq!(shell.engine.last_resample_rate(), 10_000);
    let scratch_frames = shell.engine.scratch().frames();
    let mut output: Vec<f32> = Vec::new();
    let mut fired = 0;
    for b in 0..400 {
        let target = if b < switch_at { 10_000 } else { 5_000 };
        // A sweep from 200 Hz to about 1 kHz over the run.
        let mut block = sweep_block(200.0, 750.0, 48_000.0, b * RESAMPLE_CHUNK_SIZE);
        let report = shell.process(target, &mut block);
        assert_eq!(report.fired, b == switch_at, "block {b}");
        if report.fired {
            fired += 1;
        }
        assert_eq!(shell.engine.last_resample_rate(), target);
        assert!(!shell.engine.is_reconfiguring());
        assert_eq!(shell.engine.scratch().frames(), scratch_frames);
        assert_eq!(report.down.0, 128);
        assert_eq!(report.up.1, 128);
        // Stable at the effective rate, from the cycle of the switch on.
        if b >= switch_at {
            assert_eq!(report.down.1, 14, "block {b}");
            assert_eq!(report.up.0, 14, "block {b}");
        } else if b > 0 {
            assert_eq!(report.down.1, 27, "block {b}");
            assert_eq!(report.up.0, 27, "block {b}");
        }
        assert_eq!(block[0], block[1]);
        output.extend_from_slice(&block[0]);
    }
    assert_eq!(fired, 1);
    assert_eq!(output.len(), 400 * 128);
    assert!(output.iter().all(|s| s.is_finite() && s.abs() <= 1.5));

    // Outside the latency window that follows the switch, the output has no
    // step larger than a sine of this frequency range can make.
    let latency = total_latency(shell.down.output_delay(), shell.up.output_delay()).unwrap();
    assert_eq!(latency, 36);
    let window = switch_at * 128..switch_at * 128 + latency;
    for i in 1..output.len() {
        if !window.contains(&i) {
            let step = (output[i] - output[i - 1]).abs();
            assert!(step < 0.3, "step of {step} at frame {i}");
        }
    }
}

#[test]
fn sine_keeps_its_fundamental_through_both_stages() {
    for (host, target) in [(48_000u32, 10_000u32), (48_000, 5_000), (44_100, 10_000)] {
        let mut shell = Shell::new(host);
        shell.reset(target);
        let mut output: Vec<f32> = Vec::new();
        for b in 0..120 {
            let mut block = sine_block(440.0, host as f64, b * RESAMPLE_CHUNK_SIZE);
            shell.process(target, &mut block);
            output.extend_from_slice(&block[0]);
        }
        let settled = &output[20 * 128..];
        let strongest = strongest_frequency(settled, host as f64, 100.0, 2_000.0, 10.0);
        assert_eq!(strongest, 440.0, "at {host} for {target}");
        let power = power_at(settled, 440.0, host as f64);
        assert!((power - 0.25).abs() < 0.02, "power {power} at {host} for {target}");
    }
}
