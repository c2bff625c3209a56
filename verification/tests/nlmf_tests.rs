use raec::arith::{Op, MAX, ZERO};
use raec::delay::DelayLine;
use raec::nlmf::{NanWeight, NLMF};

fn unit(op: Op) -> u32 {
    let f = f32::from_bits;
    match op {
        Op::Add(a, b) => (f(a) + f(b)).to_bits(),
        Op::Sub(a, b) => (f(a) - f(b)).to_bits(),
        Op::Mul(a, b) => (f(a) * f(b)).to_bits(),
        Op::Div(a, b) => (f(a) / f(b)).to_bits(),
        Op::Pow(a, b) => f(a).powf(f(b)).to_bits(),
        Op::Sqrt(a) => f(a).sqrt().to_bits(),
        Op::Tan(a) => f(a).tan().to_bits(),
    }
}

fn bits(numbers: &[f32]) -> Vec<u32> {
    numbers.iter().map(|x| x.to_bits()).collect()
}

fn numbers(patterns: &[u32]) -> Vec<f32> {
    patterns.iter().map(|x| f32::from_bits(*x)).collect()
}

fn filter(weights: &[f32], mu: f32, eps: f32) -> NLMF<u32> {
    NLMF::new(weights.len(), mu.to_bits(), eps.to_bits(), bits(weights))
}

const WEIGHTS: [f32; 4] = [0.5, -0.25, 0.125, 1.0];
const WINDOW: [f32; 4] = [1.0, 2.0, -1.0, 0.5];

#[test]
fn new_keeps_the_weights_it_is_given() {
    let f = filter(&WEIGHTS, 1.0, 1.0);
    assert_eq!(f.weights, bits(&WEIGHTS));
}

#[test]
fn adapt_returns_the_dot_product_and_the_largest_impact() {
    let mut f = filter(&WEIGHTS, 1.0, 1.0);
    let (output, novelty) = f.adapt(&unit, &bits(&WINDOW), 0.75_f32.to_bits(), MAX).unwrap();
    assert_eq!(f32::from_bits(output), 0.375);
    assert_eq!(novelty, 0x3d1e_e584);
    assert!((f32::from_bits(novelty) - 0.038_793_1).abs() < 1.0e-7);
}

#[test]
fn adapt_moves_each_weight_by_step_times_error_times_input() {
    let mut f = filter(&WEIGHTS, 1.0, 1.0);
    f.adapt(&unit, &bits(&WINDOW), 0.75_f32.to_bits(), MAX).unwrap();
    assert_eq!(f.weights, vec![0x3f0d_3dcb, 0xbe16_11a8, 0x3d96_11a8, 0x3f83_4f73]);
    let error = 0.75_f32 - 0.375;
    let step = 1.0_f32 / (1.0 + 6.25);
    for i in 0..4 {
        let expected = WEIGHTS[i] + step * error * WINDOW[i];
        assert_eq!(f32::from_bits(f.weights[i]), expected);
    }
}

#[test]
fn adapt_scales_the_step_by_mu_and_regularises_it_by_eps() {
    let mut f = filter(&WEIGHTS, 0.5, 0.25);
    f.adapt(&unit, &bits(&WINDOW), 0.75_f32.to_bits(), MAX).unwrap();
    let error = 0.75_f32 - 0.375;
    let step = 0.5_f32 / (0.25 + 6.25);
    for i in 0..4 {
        assert_eq!(f32::from_bits(f.weights[i]), WEIGHTS[i] + step * error * WINDOW[i]);
    }
}

#[test]
fn threshold_decides_the_update_and_nothing_else() {
    let mut open = filter(&WEIGHTS, 1.0, 1.0);
    let mut shut = filter(&WEIGHTS, 1.0, 1.0);
    let applied = open.adapt(&unit, &bits(&WINDOW), 0.75_f32.to_bits(), f32::MAX.to_bits());
    let skipped = shut.adapt(&unit, &bits(&WINDOW), 0.75_f32.to_bits(), 0.03_f32.to_bits());
    assert_eq!(applied.unwrap(), skipped.unwrap());
    assert_eq!(shut.weights, bits(&WEIGHTS));
    assert_ne!(open.weights, shut.weights);
    for i in 0..4 {
        assert_ne!(open.weights[i], shut.weights[i]);
    }
}

#[test]
fn update_needs_a_novelty_strictly_below_the_threshold() {
    let mut at = filter(&WEIGHTS, 1.0, 1.0);
    at.adapt(&unit, &bits(&WINDOW), 0.75_f32.to_bits(), 0x3d1e_e584).unwrap();
    assert_eq!(at.weights, bits(&WEIGHTS));
    let mut above = filter(&WEIGHTS, 1.0, 1.0);
    above.adapt(&unit, &bits(&WINDOW), 0.75_f32.to_bits(), 0x3d1e_e585).unwrap();
    assert_ne!(above.weights, bits(&WEIGHTS));
}

#[test]
fn a_threshold_that_is_a_nan_or_negative_shuts_the_gate() {
    for threshold in [f32::NAN, -1.0, 0.0, -0.0] {
        let mut f = filter(&WEIGHTS, 1.0, 1.0);
        let r = f.adapt(&unit, &bits(&WINDOW), 0.75_f32.to_bits(), threshold.to_bits());
        assert_eq!(r.unwrap(), (0.375_f32.to_bits(), 0x3d1e_e584));
        assert_eq!(f.weights, bits(&WEIGHTS));
    }
}

#[test]
fn silent_window_never_changes_the_weights() {
    let silence = [0.0_f32; 4];
    for threshold in [f32::MAX, 1.0, 2.5e-3, 0.0] {
        for target in [0.0_f32, 0.75, -3.0, 1.0e10] {
            let mut f = filter(&WEIGHTS, 1.0, 1.0);
            let (output, novelty) =
                f.adapt(&unit, &bits(&silence), target.to_bits(), threshold.to_bits()).unwrap();
            assert_eq!(f32::from_bits(output), 0.0);
            assert_eq!(f32::from_bits(novelty), 0.0);
            assert_eq!(numbers(&f.weights), WEIGHTS.to_vec());
        }
    }
}

#[test]
fn silent_window_keeps_a_zero_weight_zero() {
    let mut f = filter(&[-0.0, 0.0], 1.0, 1.0);
    f.adapt(&unit, &bits(&[0.0, 0.0]), 1.0_f32.to_bits(), MAX).unwrap();
    assert_eq!(numbers(&f.weights), vec![0.0, 0.0]);
}

#[test]
fn silent_window_gives_the_step_mu_over_eps() {
    // With a silent window the step is mu / eps, which shows in nothing but the
    // novelty of the next tap that is not silent.
    let mut f = filter(&[0.0, 0.0], 3.0, 4.0);
    let window = [0.0_f32, 1.0e-20];
    let (output, novelty) = f.adapt(&unit, &bits(&window), 2.0_f32.to_bits(), MAX).unwrap();
    assert_eq!(f32::from_bits(output), 0.0);
    let step = 3.0_f32 / (4.0 + 1.0e-20 * 1.0e-20);
    assert_eq!(step, 0.75);
    assert_eq!(f32::from_bits(novelty), (step * 2.0 * 1.0e-20 * 2.0).abs());
    assert_eq!(f32::from_bits(f.weights[1]), step * 2.0 * 1.0e-20);
    assert_eq!(f.weights[0], ZERO);
}

#[test]
fn novelty_of_an_empty_filter_is_zero() {
    let mut f = filter(&[], 1.0, 1.0);
    let r = f.adapt(&unit, &[], 0.75_f32.to_bits(), MAX);
    assert_eq!(r.unwrap(), (ZERO, ZERO));
    assert!(f.weights.is_empty());
}

#[test]
fn novelty_is_the_largest_magnitude_whatever_the_sign() {
    let mut f = filter(&[0.0, 0.0, 0.0], 1.0, 1.0);
    let window = [1.0_f32, -3.0, 2.0];
    let (_, novelty) = f.adapt(&unit, &bits(&window), (-1.0_f32).to_bits(), ZERO).unwrap();
    let step = 1.0_f32 / (1.0 + 14.0);
    let error = -1.0_f32;
    assert_eq!(f32::from_bits(novelty), (step * error * -3.0 * error).abs());
}

#[test]
fn nan_weight_is_reported_and_the_weights_are_kept() {
    let poisoned = [1.0_f32, f32::NAN, 2.0];
    let mut f = filter(&poisoned, 1.0, 1.0);
    let r = f.adapt(&unit, &bits(&[1.0, 1.0, 1.0]), 1.0_f32.to_bits(), MAX);
    assert!(matches!(r, Err(NanWeight { tap: 0 })));
    assert_eq!(f.weights, bits(&poisoned));
}

#[test]
fn nan_weight_names_the_first_tap_at_fault() {
    // A unit that cannot add to the weight 42.
    let faulty = |op: Op| match op {
        Op::Add(a, _) if a == 42.0_f32.to_bits() => f32::NAN.to_bits(),
        other => unit(other),
    };
    let weights = [0.5_f32, -0.25, 42.0, 42.0];
    let mut f = filter(&weights, 1.0, 1.0);
    let r = f.adapt(&faulty, &bits(&[0.0, 0.0, 0.0, 0.0]), 1.0_f32.to_bits(), MAX);
    assert!(matches!(r, Err(NanWeight { tap: 2 })));
    assert_eq!(f.weights, bits(&weights));
}

#[test]
fn shut_gate_hides_a_nan_update() {
    let poisoned = [1.0_f32, f32::NAN, 2.0];
    let mut f = filter(&poisoned, 1.0, 1.0);
    let r = f.adapt(&unit, &bits(&[1.0, 1.0, 1.0]), 1.0_f32.to_bits(), ZERO);
    let (output, novelty) = r.unwrap();
    assert!(f32::from_bits(output).is_nan());
    assert_eq!(novelty, ZERO);
    assert_eq!(f.weights, bits(&poisoned));
}

#[test]
fn infinite_novelty_is_above_every_threshold() {
    let mut f = filter(&[0.0], 1.0, 1.0);
    let r = f.adapt(&unit, &bits(&[1.0]), 1.0e30_f32.to_bits(), MAX);
    let (_, novelty) = r.unwrap();
    assert_eq!(f32::from_bits(novelty), f32::INFINITY);
    assert_eq!(f.weights, vec![ZERO]);
}

#[test]
fn filter_converges_on_a_unity_echo_path() {
    let taps = 8;
    let mut f = filter(&vec![0.0; taps], 1.0, 1.0);
    let mut line = DelayLine::new(taps);
    let mut residuals = Vec::new();
    for t in 0..3000 {
        let sample = 0.5 * (0.3 * t as f32).sin();
        line.push(sample.to_bits());
        let (echo, _) =
            f.adapt(&unit, &line.window(), sample.to_bits(), 2.5e-3_f32.to_bits()).unwrap();
        residuals.push((sample - f32::from_bits(echo)).abs());
    }
    let early = residuals[..50].iter().cloned().fold(0.0, f32::max);
    let late = residuals[2800..].iter().cloned().fold(0.0, f32::max);
    assert!(early > 0.4, "early residual {}", early);
    assert!(late < 1.0e-4, "late residual {}", late);
    assert!(f.weights.iter().all(|w| !f32::from_bits(*w).is_nan()));
}
