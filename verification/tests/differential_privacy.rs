use samaritan_core::accountant::PrivacyAccountant;
use samaritan_core::differential_privacy::{isqrt, l2_norm, squared_norm, DPConfig, DPEngine};

const UNIT: i32 = 1_000_000;

fn to_unit_interval(draw: u64) -> f32 {
    (draw as f32) / (u64::MAX as f32)
}

fn noise_scale(config: &DPConfig) -> f32 {
    let epsilon = config.epsilon as f32 / 1.0e6;
    let delta = config.delta as f32 / 1.0e12;
    let bound = config.max_grad_norm as f32 / 1.0e6;
    bound * (2.0 * (1.25_f32 / delta).ln()).sqrt() / epsilon
}

/// Box-Muller transform over two uniform draws, scaled by the noise scale of
/// the configuration.
fn shape(config: &DPConfig, first: u64, second: u64) -> i32 {
    let u1 = to_unit_interval(first).max(1.0e-10);
    let u2 = to_unit_interval(second);
    let z = (-2.0 * u1.ln()).sqrt() * (2.0 * std::f32::consts::PI * u2).cos();
    (noise_scale(config) * z * 1.0e6) as i32
}

/// Gaussian noise for `count` components from the generator of the engine.
fn gaussian_noise(engine: &mut DPEngine, count: usize) -> Vec<i32> {
    let config = *engine.config();
    engine.draw_uniform(count).iter().map(|(a, b)| shape(&config, *a, *b)).collect()
}

#[test]
fn l2_norm_basic() {
    let v = vec![3 * UNIT, 4 * UNIT];
    assert_eq!(l2_norm(&v), 5_000_000);

    let zero = vec![0, 0];
    assert_eq!(l2_norm(&zero), 0);
}

#[test]
fn l2_norm_rounds_down() {
    assert_eq!(l2_norm(&vec![UNIT, UNIT, UNIT]), 1_732_050);
    assert_eq!(l2_norm(&vec![-7, 24, 0, -1]), 25);
    assert_eq!(l2_norm(&Vec::new()), 0);
    assert_eq!(l2_norm(&vec![i32::MAX, i32::MIN, 5]), 3_037_000_499);
    assert_eq!(squared_norm(&vec![-3, 4]), 25);
}

#[test]
fn isqrt_values() {
    assert_eq!(isqrt(0), 0);
    assert_eq!(isqrt(1), 1);
    assert_eq!(isqrt(3), 1);
    assert_eq!(isqrt(4), 2);
    assert_eq!(isqrt(24), 4);
    assert_eq!(isqrt(25), 5);
    assert_eq!(isqrt(3_000_000_000_000), 1_732_050);
    assert_eq!(isqrt(u128::MAX), u64::MAX);
}

#[test]
fn clip_gradients_respects_max_norm() {
    let cfg = DPConfig::new(1_000_000, 10_000_000, 5_000_000);
    let engine = DPEngine::with_seed(cfg, 1);

    let mut g = vec![3 * UNIT, 4 * UNIT];
    engine.clip_gradients(&mut g);
    assert_eq!(l2_norm(&g), 5_000_000);
    assert_eq!(g, vec![3 * UNIT, 4 * UNIT]);

    let mut g_big = vec![6 * UNIT, 8 * UNIT];
    engine.clip_gradients(&mut g_big);
    let n_big = l2_norm(&g_big);
    assert!(n_big <= 5_000_000);
    assert!(5_000_000 - n_big < 1_000);

    let ratio = g_big[0] as f64 / g_big[1] as f64;
    assert!((ratio - 0.75).abs() < 1.0e-3);
    assert_eq!(g_big, vec![3 * UNIT, 4 * UNIT]);
}

#[test]
fn clip_rounds_toward_zero_and_stays_within_the_bound() {
    let engine = DPEngine::with_seed(DPConfig::new(1, 1, 1_000_000), 0);
    let mut g = vec![UNIT, UNIT, UNIT];
    engine.clip_gradients(&mut g);
    assert_eq!(g, vec![577_350, 577_350, 577_350]);
    assert_eq!(l2_norm(&g), 999_999);

    let mut g = vec![i32::MAX, i32::MIN, 5];
    engine.clip_gradients(&mut g);
    assert_eq!(g, vec![707_106, -707_106, 0]);
    assert!(squared_norm(&g) <= 1_000_000_000_000);

    let mut g = vec![10 * UNIT, 0];
    engine.clip_gradients(&mut g);
    assert_eq!(g, vec![UNIT, 0]);

    let engine = DPEngine::with_seed(DPConfig::new(1, 1, 5), 0);
    let mut g = vec![-7, 24, 0, -1];
    engine.clip_gradients(&mut g);
    assert_eq!(g, vec![-1, 4, 0, 0]);

    let engine = DPEngine::with_seed(DPConfig::new(1, 1, 4), 0);
    let mut g = vec![3, 4];
    engine.clip_gradients(&mut g);
    assert_eq!(g, vec![2, 3]);

    let engine = DPEngine::with_seed(DPConfig::new(1, 1, 0), 0);
    let mut g = vec![1, 1];
    engine.clip_gradients(&mut g);
    assert_eq!(g, vec![0, 0]);

    let mut g: Vec<i32> = Vec::new();
    engine.clip_gradients(&mut g);
    assert!(g.is_empty());
}

#[test]
fn clipping_never_raises_the_norm() {
    let engine = DPEngine::with_seed(DPConfig::new(1, 1, 123_456), 0);
    let mut state: u64 = 7;
    for _ in 0..200 {
        let mut g: Vec<i32> = Vec::new();
        for _ in 0..5 {
            state = state.wrapping_mul(6364136223846793005).wrapping_add(1442695040888963407);
            g.push((state >> 40) as i32 - (1 << 23));
        }
        let before = squared_norm(&g);
        let original = g.clone();
        engine.clip_gradients(&mut g);
        let after = squared_norm(&g);
        assert!(after <= before);
        assert!(after <= 123_456u128 * 123_456u128);
        for (x, y) in original.iter().zip(g.iter()) {
            assert!((*x >= 0 && *y >= 0 && y <= x) || (*x <= 0 && *y <= 0 && y >= x));
        }
    }
}

#[test]
fn generator_is_the_documented_one() {
    let mut engine = DPEngine::with_seed(DPConfig::moderate(), 42);
    assert_eq!(engine.next_u64(), 1_083_814_273);
    assert_eq!(engine.next_u64(), 1_804_036_966_669_548);
    assert_eq!(engine.next_u64(), 14_492_092_005_695_927_131);
    assert_eq!(engine.next_u64(), 11_155_472_507_664_421_118);
    let mut engine = DPEngine::with_seed(DPConfig::moderate(), u64::MAX);
    assert_eq!(engine.next_u64(), 1_012_239_698);
}

#[test]
fn two_uniform_draws_per_noise_value() {
    let mut engine = DPEngine::with_seed(DPConfig::moderate(), 42);
    assert_eq!(
        engine.draw_uniform(2),
        vec![
            (1_083_814_273, 1_804_036_966_669_548),
            (14_492_092_005_695_927_131, 11_155_472_507_664_421_118),
        ]
    );
    assert_eq!(engine.next_u64(), 14_950_991_865_790_022_725);
    assert!(engine.draw_uniform(0).is_empty());
    let mut again = DPEngine::with_seed(DPConfig::moderate(), 42);
    assert_eq!(again.draw_uniform(1), vec![(1_083_814_273, 1_804_036_966_669_548)]);
    assert_eq!(
        again.draw_uniform(1),
        vec![(14_492_092_005_695_927_131, 11_155_472_507_664_421_118)]
    );
}

#[test]
fn adding_noise_is_component_by_component() {
    let engine = DPEngine::with_seed(DPConfig::moderate(), 42);
    let mut grads = vec![1, 2];
    assert!(engine.add_noise(&mut grads, &vec![10, -20]));
    assert_eq!(grads, vec![11, -18]);
}

#[test]
fn add_noise_saturates() {
    let engine = DPEngine::with_seed(DPConfig::moderate(), 42);
    let mut grads = vec![i32::MAX, i32::MIN, 5, -5];
    assert!(engine.add_noise(&mut grads, &vec![1, -1, -7, 5]));
    assert_eq!(grads, vec![i32::MAX, i32::MIN, -2, 0]);
}

#[test]
fn noise_of_another_length_is_not_added() {
    let engine = DPEngine::with_seed(DPConfig::new(1, 1, 5), 42);
    let mut grads = vec![6, 8];
    assert!(!engine.add_noise(&mut grads, &vec![1]));
    assert_eq!(grads, vec![6, 8]);
    assert!(!engine.add_noise(&mut grads, &vec![1, 2, 3]));
    assert_eq!(grads, vec![6, 8]);
    assert!(!engine.privatize_gradients(&mut grads, &Vec::new()));
    assert_eq!(grads, vec![6, 8]);
    let mut empty: Vec<i32> = Vec::new();
    assert!(engine.privatize_gradients(&mut empty, &Vec::new()));
    assert!(engine.add_noise(&mut empty, &Vec::new()));
    assert!(empty.is_empty());
}

#[test]
fn add_noise_changes_values() {
    let cfg = DPConfig::moderate();
    let mut engine = DPEngine::with_seed(cfg, 42);

    let mut grads = vec![UNIT, 2 * UNIT, 3 * UNIT];
    let original = grads.clone();

    let noise = gaussian_noise(&mut engine, 3);
    assert!(engine.add_noise(&mut grads, &noise));

    let changed = grads.iter().zip(original.iter()).any(|(a, b)| (a - b).abs() > 10);
    assert!(changed);
}

#[test]
fn privatize_pipeline_runs_and_produces_finite_values() {
    let cfg = DPConfig::new(1_000_000, 10_000_000, 1_000_000);
    let mut engine = DPEngine::with_seed(cfg, 123);

    let mut grads = vec![10 * UNIT, 0];
    let noise = gaussian_noise(&mut engine, 2);
    assert!(engine.privatize_gradients(&mut grads, &noise));

    assert_eq!(grads.len(), 2);
    assert_eq!(grads[0] as i64, UNIT as i64 + noise[0] as i64);
    assert_eq!(grads[1], noise[1]);
}

#[test]
fn privatize_clips_before_it_adds_noise() {
    let cfg = DPConfig::new(1_000_000, 10_000_000, 1_000_000);
    let engine = DPEngine::with_seed(cfg, 123);
    let mut grads = vec![10 * UNIT, 0];
    assert!(engine.privatize_gradients(&mut grads, &vec![7, -7]));
    assert_eq!(grads, vec![UNIT + 7, -7]);

    let mut noised_first = vec![10 * UNIT, 0];
    engine.add_noise(&mut noised_first, &vec![7, -7]);
    engine.clip_gradients(&mut noised_first);
    assert_ne!(grads, noised_first);
}

#[test]
fn privatize_is_clip_then_add_noise() {
    let cfg = DPConfig::new(1_000_000, 10_000_000, 5);
    let mut e1 = DPEngine::with_seed(cfg, 77);
    let mut e2 = DPEngine::with_seed(cfg, 77);
    let mut g1 = vec![6, -8, 0, 24];
    let mut g2 = g1.clone();

    let noise1 = gaussian_noise(&mut e1, 4);
    assert!(e1.privatize_gradients(&mut g1, &noise1));

    e2.clip_gradients(&mut g2);
    let noise2 = gaussian_noise(&mut e2, 4);
    assert!(e2.add_noise(&mut g2, &noise2));

    assert_eq!(g1, g2);
    assert_eq!(g1.len(), 4);
    assert_eq!(e1.next_u64(), e2.next_u64());
}

#[test]
fn accountant_tracks_budget() {
    let mut acc = PrivacyAccountant::new(1_000_000);

    assert!(!acc.is_budget_exhausted());
    assert_eq!(acc.remaining_budget(), 1_000_000);
    assert_eq!(acc.rounds(), 0);

    acc.record_round(300_000);
    acc.record_round(300_000);
    acc.record_round(300_000);

    assert_eq!(acc.rounds(), 3);
    assert_eq!(acc.total_epsilon(), 900_000);
    assert_eq!(acc.remaining_budget(), 100_000);
    assert!(!acc.is_budget_exhausted());

    acc.record_round(200_000);
    assert!(acc.is_budget_exhausted());
    assert_eq!(acc.remaining_budget(), 0);
}

#[test]
fn accountant_reset_restores_budget() {
    let mut acc = PrivacyAccountant::new(5_000_000);
    acc.record_round(2_000_000);
    acc.record_round(2_000_000);

    assert_eq!(acc.rounds(), 2);
    assert_eq!(acc.total_epsilon(), 4_000_000);

    acc.reset();

    assert_eq!(acc.rounds(), 0);
    assert_eq!(acc.total_epsilon(), 0);
    assert_eq!(acc.remaining_budget(), 5_000_000);
    assert_eq!(acc.budget(), 5_000_000);
}

#[test]
fn accountant_is_exhausted_exactly_at_the_budget() {
    let mut acc = PrivacyAccountant::new(10);
    acc.record_round(9);
    assert!(!acc.is_budget_exhausted());
    assert_eq!(acc.remaining_budget(), 1);
    acc.record_round(1);
    assert!(acc.is_budget_exhausted());
    assert_eq!(acc.total_epsilon(), 10);
    let empty = PrivacyAccountant::new(0);
    assert!(empty.is_budget_exhausted());
}

#[test]
fn accountant_total_is_the_sum_of_the_rounds() {
    let costs: [u64; 6] = [5, 0, 17, 1_000_000, 3, 250];
    let mut acc = PrivacyAccountant::new(2_000_000);
    let mut sum: u64 = 0;
    for cost in costs {
        acc.record_round(cost);
        sum += cost;
        assert_eq!(acc.total_epsilon(), sum);
        assert_eq!(acc.is_budget_exhausted(), sum >= 2_000_000);
        assert_eq!(acc.remaining_budget(), 2_000_000 - sum);
    }
    assert_eq!(acc.rounds(), 6);
}

#[test]
fn accountant_total_stops_at_the_top() {
    let mut acc = PrivacyAccountant::new(u64::MAX);
    acc.record_round(u64::MAX - 1);
    assert!(!acc.is_budget_exhausted());
    acc.record_round(5);
    assert_eq!(acc.total_epsilon(), u64::MAX);
    assert!(acc.is_budget_exhausted());
    assert_eq!(acc.remaining_budget(), 0);
    assert_eq!(acc.rounds(), 2);
}

#[test]
fn presets_are_consistent() {
    let strong = DPConfig::strong();
    let moderate = DPConfig::moderate();
    let weak = DPConfig::weak();

    assert!(strong.epsilon < moderate.epsilon);
    assert!(moderate.epsilon < weak.epsilon);

    assert_eq!(strong.delta, moderate.delta);
    assert_eq!(moderate.delta, weak.delta);
}

#[test]
fn privacy_preset_values() {
    assert_eq!(DPConfig::strong(), DPConfig { epsilon: 100_000, delta: 10_000_000, max_grad_norm: 1_000_000 });
    assert_eq!(DPConfig::moderate(), DPConfig { epsilon: 1_000_000, delta: 10_000_000, max_grad_norm: 1_000_000 });
    assert_eq!(DPConfig::weak(), DPConfig { epsilon: 8_000_000, delta: 10_000_000, max_grad_norm: 1_000_000 });
    assert_eq!(DPConfig::default(), DPConfig::moderate());
    let engine = DPEngine::with_seed(DPConfig::strong(), 9);
    assert_eq!(engine.epsilon(), 100_000);
    assert_eq!(engine.delta(), 10_000_000);
    assert_eq!(*engine.config(), DPConfig::strong());
}

#[test]
fn deterministic_with_seed() {
    let cfg = DPConfig::moderate();
    let mut e1 = DPEngine::with_seed(cfg, 999);
    let mut e2 = DPEngine::with_seed(cfg, 999);

    let mut g1 = vec![UNIT, 2 * UNIT, 3 * UNIT];
    let mut g2 = vec![UNIT, 2 * UNIT, 3 * UNIT];

    let n1 = gaussian_noise(&mut e1, 3);
    let n2 = gaussian_noise(&mut e2, 3);
    assert!(e1.add_noise(&mut g1, &n1));
    assert!(e2.add_noise(&mut g2, &n2));

    for (a, b) in g1.iter().zip(g2.iter()) {
        assert_eq!(a, b);
    }
}

/// The calibration factor `sqrt(2 ln(1.25 / δ))` in millionths.
fn calibration(config: &DPConfig) -> u64 {
    let delta = config.delta as f64 / 1.0e12;
    ((2.0 * (1.25 / delta).ln()).sqrt() * 1.0e6).round() as u64
}

#[test]
fn noise_scale_reasonable() {
    let cfg = DPConfig::new(1_000_000, 10_000_000, 1_000_000);
    let sigma = cfg.noise_scale(calibration(&cfg));
    assert!(sigma > 0);
    assert!(sigma > 4_700_000 && sigma < 4_900_000);
}

#[test]
fn strong_vs_weak_noise_scale() {
    let strong = DPConfig::strong();
    let weak = DPConfig::weak();

    let s_sigma = strong.noise_scale(calibration(&strong));
    let w_sigma = weak.noise_scale(calibration(&weak));

    assert!(s_sigma > w_sigma);
}

#[test]
fn noise_scale_is_the_quotient_rounded_down() {
    let cfg = DPConfig::new(3, 0, 10);
    assert_eq!(cfg.noise_scale(2), 6);
    assert_eq!(cfg.noise_scale(0), 0);
    assert_eq!(DPConfig::new(7, 0, 2).noise_scale(3), 0);
    assert_eq!(
        DPConfig::new(1, 0, u64::MAX).noise_scale(u64::MAX),
        u64::MAX as u128 * u64::MAX as u128
    );
    let engine = DPEngine::with_seed(DPConfig::new(4, 0, 10), 0);
    assert_eq!(engine.noise_std(6), 15);
}

#[test]
fn clock_seeds() {
    let mut engine = DPEngine::new(DPConfig::moderate(), Some(42));
    assert_eq!(engine.next_u64(), 1_083_814_273);
    let mut engine = DPEngine::new(DPConfig::moderate(), Some((7u128 << 64) + 42));
    assert_eq!(engine.next_u64(), 1_083_814_273);
    let mut fallback = DPEngine::new(DPConfig::moderate(), None);
    let mut same = DPEngine::with_seed(DPConfig::moderate(), 0xDEAD_BEEF_F0F0_1234);
    assert_eq!(fallback.next_u64(), same.next_u64());
}
