use raec::arith::Op;
use raec::channel::sample_channel;
use raec::engine::{AECFiltering, N_TAPS};
use raec::processing::{Mono2StereoOutput, Stereo2MonoCapture};

fn unit(op: Op) -> u32 {
    let f = f32::from_bits;
    match op {
        Op::Add(a, b) => (f(a) + f(b)).to_bits(),
        Op::Sub(a, b) => (f(a) - f(b)).to_bits(),
        Op::Mul(a, b) => (f(a) * f(b)).to_bits(),
        Op::Div(a, b) => (f(a) / f(b)).to_bits(),
        Op::Pow(a, b) => f(a).powf(f(b)).to_bits(),
        Op::Sqrt(a) => f(a).sqrt().to_bits(),
        Op::Tan(a) => f(a).tan().to_bits(),
    }
}

fn bits(numbers: &[f32]) -> Vec<u32> {
    numbers.iter().map(|x| x.to_bits()).collect()
}

fn numbers(patterns: &[u32]) -> Vec<f32> {
    patterns.iter().map(|x| f32::from_bits(*x)).collect()
}

fn drain(c: &mut ringbuf::Consumer<u32>) -> Vec<u32> {
    let mut got = Vec::new();
    while let Some(s) = c.pop() {
        got.push(s);
    }
    got
}

fn tone(t: usize) -> f32 {
    0.5 * (0.3 * t as f32).sin()
}

struct Rig {
    engine: AECFiltering,
    mic: ringbuf::Producer<u32>,
    reference: ringbuf::Producer<u32>,
    output: ringbuf::Consumer<u32>,
}

fn rig(capacity: usize, output_capacity: usize) -> Rig {
    let (mic, mic_rx) = sample_channel(capacity).unwrap();
    let (reference, reference_rx) = sample_channel(capacity).unwrap();
    let (output_tx, output) = sample_channel(output_capacity).unwrap();
    let engine = AECFiltering::new(
        &unit,
        mic_rx,
        reference_rx,
        output_tx,
        1.0_f32.to_bits(),
        vec![0; N_TAPS],
    );
    Rig { engine, mic, reference, output }
}

#[test]
fn downmix_averages_each_pair() {
    let (p, mut c) = sample_channel(8).unwrap();
    let mut capture = Stereo2MonoCapture::new(p);
    let overrun = capture.callback(&unit, &bits(&[1.0, 3.0, 5.0, 7.0]));
    assert!(!overrun);
    assert_eq!(numbers(&drain(&mut c)), vec![2.0, 6.0]);
}

#[test]
fn downmix_pairs_left_with_right_not_left_with_left() {
    let (p, mut c) = sample_channel(8).unwrap();
    let mut capture = Stereo2MonoCapture::new(p);
    capture.callback(&unit, &bits(&[1.0, 0.0, 0.0, 8.0, -2.0, 2.0]));
    assert_eq!(numbers(&drain(&mut c)), vec![0.5, 4.0, 0.0]);
}

#[test]
fn downmix_leaves_out_a_sample_without_partner() {
    let (p, mut c) = sample_channel(8).unwrap();
    let mut capture = Stereo2MonoCapture::new(p);
    assert!(!capture.callback(&unit, &bits(&[1.0, 3.0, 5.0])));
    assert_eq!(numbers(&drain(&mut c)), vec![2.0]);
    assert!(!capture.callback(&unit, &bits(&[9.0])));
    assert!(!capture.callback(&unit, &[]));
    assert!(drain(&mut c).is_empty());
}

#[test]
fn downmix_drops_what_a_full_channel_refuses() {
    let (p, mut c) = sample_channel(2).unwrap();
    let mut capture = Stereo2MonoCapture::new(p);
    let overrun = capture.callback(&unit, &bits(&[1.0, 1.0, 2.0, 2.0, 3.0, 3.0, 4.0, 4.0]));
    assert!(overrun);
    assert_eq!(numbers(&drain(&mut c)), vec![1.0, 2.0]);
    // dropped samples are never retried
    let overrun = capture.callback(&unit, &bits(&[5.0, 5.0]));
    assert!(!overrun);
    assert_eq!(numbers(&drain(&mut c)), vec![5.0]);
}

#[test]
fn downmix_fills_a_channel_to_the_brim_without_overrun() {
    let (p, mut c) = sample_channel(2).unwrap();
    let mut capture = Stereo2MonoCapture::new(p);
    assert!(!capture.callback(&unit, &bits(&[1.0, 1.0, 2.0, 2.0])));
    assert!(capture.callback(&unit, &bits(&[3.0, 3.0])));
    assert_eq!(numbers(&drain(&mut c)), vec![1.0, 2.0]);
}

#[test]
fn downmix_asks_the_unit_for_half_of_the_sum() {
    let log = std::cell::RefCell::new(Vec::new());
    let spy = |op: Op| {
        log.borrow_mut().push(op);
        unit(op)
    };
    let (p, _c) = sample_channel(4).unwrap();
    let mut capture = Stereo2MonoCapture::new(p);
    capture.callback(&spy, &bits(&[1.0, 3.0]));
    let asked = log.borrow();
    assert_eq!(asked.len(), 2);
    assert!(matches!(asked[0], Op::Add(l, r) if l == 1.0_f32.to_bits() && r == 3.0_f32.to_bits()));
    assert!(matches!(asked[1], Op::Mul(h, s) if h == 0.5_f32.to_bits() && s == 4.0_f32.to_bits()));
}

#[test]
fn upmix_writes_each_sample_to_both_slots() {
    let (mut p, c) = sample_channel(8).unwrap();
    let mut playback = Mono2StereoOutput::new(c);
    p.push(2.0_f32.to_bits()).unwrap();
    p.push(4.0_f32.to_bits()).unwrap();
    let mut block = bits(&[9.0; 4]);
    let underrun = playback.callback(&mut block);
    assert!(!underrun);
    assert_eq!(numbers(&block), vec![2.0, 2.0, 4.0, 4.0]);
}

#[test]
fn upmix_covers_an_empty_channel_with_silence() {
    let (mut p, c) = sample_channel(8).unwrap();
    let mut playback = Mono2StereoOutput::new(c);
    p.push(2.0_f32.to_bits()).unwrap();
    let mut block = bits(&[9.0; 6]);
    let underrun = playback.callback(&mut block);
    assert!(underrun);
    assert_eq!(numbers(&block), vec![2.0, 2.0, 0.0, 0.0, 0.0, 0.0]);
    // processing continues
    p.push(3.0_f32.to_bits()).unwrap();
    let mut block = bits(&[9.0; 2]);
    assert!(!playback.callback(&mut block));
    assert_eq!(numbers(&block), vec![3.0, 3.0]);
}

#[test]
fn upmix_serves_a_last_slot_without_partner() {
    let (mut p, mut c) = sample_channel(8).unwrap();
    for s in [1.0_f32, 2.0, 3.0] {
        p.push(s.to_bits()).unwrap();
    }
    assert_eq!(c.pop(), Some(1.0_f32.to_bits()));
    let mut playback = Mono2StereoOutput::new(c);
    let mut block = bits(&[9.0; 3]);
    assert!(!playback.callback(&mut block));
    assert_eq!(numbers(&block), vec![2.0, 2.0, 3.0]);
    let mut block = bits(&[9.0; 1]);
    assert!(playback.callback(&mut block));
    assert_eq!(numbers(&block), vec![0.0]);
}

#[test]
fn upmix_of_no_slots_draws_nothing() {
    let (mut p, c) = sample_channel(2).unwrap();
    p.push(7).unwrap();
    let mut playback = Mono2StereoOutput::new(c);
    assert!(!playback.callback(&mut []));
    let mut block = vec![1, 1];
    assert!(!playback.callback(&mut block));
    assert_eq!(block, vec![7, 7]);
}

#[test]
fn downmix_then_upmix_gives_the_mono_signal_on_both_sides() {
    let (p, c) = sample_channel(16).unwrap();
    let mut capture = Stereo2MonoCapture::new(p);
    let mut playback = Mono2StereoOutput::new(c);
    capture.callback(&unit, &bits(&[1.0, 3.0, 5.0, 7.0]));
    let mut block = vec![0; 4];
    playback.callback(&mut block);
    assert_eq!(numbers(&block), vec![2.0, 2.0, 6.0, 6.0]);
}

#[test]
fn idle_batch_pads_an_empty_output_to_half() {
    let mut r = rig(16, 10);
    let report = r.engine.run_once(&unit).unwrap();
    assert_eq!(report.processed, 0);
    assert!(!report.overrun);
    assert_eq!(report.level, 0);
    assert_eq!(report.padded, 5);
    assert!(report.snapshots.is_empty());
    assert_eq!(drain(&mut r.output), vec![0; 5]);
}

#[test]
fn batch_leaves_an_output_alone_that_is_a_fifth_full() {
    let mut r = rig(16, 10);
    r.engine.run_once(&unit).unwrap();
    assert_eq!(r.output.len(), 5);
    for _ in 0..3 {
        r.output.pop();
    }
    // two of ten: exactly a fifth
    let report = r.engine.run_once(&unit).unwrap();
    assert_eq!((report.level, report.padded), (2, 0));
    r.output.pop();
    // one of ten: below a fifth
    let report = r.engine.run_once(&unit).unwrap();
    assert_eq!((report.level, report.padded), (1, 5));
    assert_eq!(r.output.len(), 6);
}

#[test]
fn batch_takes_a_frame_only_with_both_inputs_at_hand() {
    let mut r = rig(16, 64);
    for t in 0..3 {
        r.mic.push(tone(t).to_bits()).unwrap();
    }
    let report = r.engine.run_once(&unit).unwrap();
    assert_eq!(report.processed, 0);
    assert_eq!(r.mic.len(), 3);
    for t in 0..5 {
        r.reference.push(tone(t).to_bits()).unwrap();
    }
    let report = r.engine.run_once(&unit).unwrap();
    assert_eq!(report.processed, 3);
    assert_eq!(r.mic.len(), 0);
    assert_eq!(r.reference.len(), 2);
}

#[test]
fn batch_stops_at_a_full_output() {
    let mut r = rig(16, 4);
    for t in 0..10 {
        r.mic.push(tone(t).to_bits()).unwrap();
        r.reference.push(tone(t).to_bits()).unwrap();
    }
    let report = r.engine.run_once(&unit).unwrap();
    assert_eq!(report.processed, 4);
    assert!(!report.overrun);
    assert_eq!((report.level, report.padded), (4, 0));
    assert_eq!(r.mic.len(), 6);
    assert_eq!(r.reference.len(), 6);
    assert_eq!(r.output.len(), 4);
    r.output.pop();
    let report = r.engine.run_once(&unit).unwrap();
    assert_eq!(report.processed, 1);
}

#[test]
fn batch_sends_what_the_frames_give_and_then_the_padding() {
    let mut r = rig(16, 64);
    let mut twin = rig(16, 64);
    let mut expected = Vec::new();
    for t in 0..6 {
        let mic = (tone(t) + 0.1).to_bits();
        let reference = tone(t).to_bits();
        r.mic.push(mic).unwrap();
        r.reference.push(reference).unwrap();
        expected.push(twin.engine.process_frame(&unit, mic, reference).unwrap());
    }
    let report = r.engine.run_once(&unit).unwrap();
    assert_eq!(report.processed, 6);
    assert_eq!(report.level, 6);
    assert_eq!(report.padded, 32);
    expected.extend(vec![0; 32]);
    assert_eq!(drain(&mut r.output), expected);
}

#[test]
fn first_frame_of_a_silent_filter_is_the_band_limited_microphone() {
    let mut r = rig(4, 4);
    let filtered = r.engine.process_frame(&unit, 0.5_f32.to_bits(), 0.25_f32.to_bits()).unwrap();
    let low = raec::filter::compute_parameters(
        &unit,
        raec::filter::FilterMode::LowPass(3400.0_f32.to_bits()),
    );
    let high = raec::filter::compute_parameters(
        &unit,
        raec::filter::FilterMode::HighPass(300.0_f32.to_bits()),
    );
    let expected = f32::from_bits(high.b0) * (f32::from_bits(low.b0) * 0.5);
    assert_eq!(f32::from_bits(filtered), expected);
}

#[test]
fn process_frame_leaves_the_channels_alone() {
    let mut r = rig(4, 4);
    r.mic.push(1).unwrap();
    r.reference.push(2).unwrap();
    r.engine.process_frame(&unit, 0.5_f32.to_bits(), 0.25_f32.to_bits()).unwrap();
    assert_eq!(r.mic.len(), 1);
    assert_eq!(r.reference.len(), 1);
    assert_eq!(r.output.len(), 0);
}

#[test]
fn telemetry_is_off_until_it_is_asked_for() {
    let mut r = rig(16, 64);
    for t in 0..4 {
        r.mic.push(tone(t).to_bits()).unwrap();
        r.reference.push(tone(t).to_bits()).unwrap();
    }
    let report = r.engine.run_once(&unit).unwrap();
    assert_eq!(report.processed, 4);
    assert!(report.snapshots.is_empty());
}

#[test]
fn telemetry_takes_a_snapshot_at_the_first_frame_of_a_batch() {
    let mut r = rig(16, 64);
    r.engine.set_telemetry(true);
    assert!(r.engine.run_once(&unit).unwrap().snapshots.is_empty());
    for t in 0..4 {
        r.mic.push(tone(t).to_bits()).unwrap();
    }
    for t in 0..7 {
        r.reference.push(tone(t).to_bits()).unwrap();
    }
    let report = r.engine.run_once(&unit).unwrap();
    assert_eq!(report.processed, 4);
    assert_eq!(report.snapshots.len(), 1);
    let s = report.snapshots[0];
    assert_eq!((s.mic, s.mic_capacity), (3, 16));
    assert_eq!((s.reference, s.reference_capacity), (6, 16));
    assert_eq!((s.output, s.output_capacity), (32, 64));
    r.engine.set_telemetry(false);
    r.mic.push(0).unwrap();
    r.reference.push(0).unwrap();
    assert!(r.engine.run_once(&unit).unwrap().snapshots.is_empty());
}

#[test]
fn telemetry_takes_a_snapshot_every_thousand_frames() {
    let mut r = rig(2100, 4200);
    r.engine.set_telemetry(true);
    for _ in 0..2001 {
        r.mic.push(0).unwrap();
        r.reference.push(0).unwrap();
    }
    let report = r.engine.run_once(&unit).unwrap();
    assert_eq!(report.processed, 2001);
    assert_eq!(report.snapshots.len(), 3);
    assert_eq!(report.snapshots[0].mic, 2000);
    assert_eq!(report.snapshots[1].mic, 1000);
    assert_eq!(report.snapshots[2].mic, 0);
    assert_eq!(report.snapshots[0].output, 0);
    assert_eq!(report.snapshots[1].output, 1000);
    assert_eq!(report.snapshots[2].output, 2000);
}

#[test]
fn batch_fails_on_a_nan_weight_and_consumes_the_frame() {
    let (mic, mic_rx) = sample_channel(8).unwrap();
    let (reference, reference_rx) = sample_channel(8).unwrap();
    let (output_tx, mut output) = sample_channel(8).unwrap();
    let (mut mic, mut reference) = (mic, reference);
    let mut weights = vec![0; N_TAPS];
    weights[N_TAPS - 1] = f32::INFINITY.to_bits();
    let mut engine =
        AECFiltering::new(&unit, mic_rx, reference_rx, output_tx, 1.0_f32.to_bits(), weights);
    for sample in [0.0_f32, 0.0, 1.0, 1.0] {
        mic.push(sample.to_bits()).unwrap();
        reference.push(0.0_f32.to_bits()).unwrap();
    }
    // An infinite weight times silence is a NaN.
    let r = engine.run_once(&unit);
    assert!(matches!(r, Err(raec::nlmf::NanWeight { tap: 0 })));
    assert_eq!(mic.len(), 3);
    assert_eq!(reference.len(), 3);
    assert!(drain(&mut output).is_empty());
}

#[test]
fn engine_cancels_an_echo_that_equals_the_reference() {
    let mut r = rig(700, 1400);
    for t in 0..600 {
        r.mic.push(tone(t).to_bits()).unwrap();
        r.reference.push(tone(t).to_bits()).unwrap();
    }
    let report = r.engine.run_once(&unit).unwrap();
    assert_eq!(report.processed, 600);
    let out = numbers(&drain(&mut r.output));
    let early = out[..100].iter().map(|y| y.abs()).fold(0.0, f32::max);
    let late = out[500..600].iter().map(|y| y.abs()).fold(0.0, f32::max);
    assert!(early > 0.1, "early output {}", early);
    assert!(late < 1.0e-3, "late output {}", late);
}
