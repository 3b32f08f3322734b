use samaritan_core::adaptive_throttle::{AdaptiveThrottle, ThrottleConfig, ThrottleLevel};
use samaritan_core::node_profile::NodeProfile;

const MS: u64 = 1_000_000;

#[test]
fn new_throttle_starts_normal() {
    let throttle = AdaptiveThrottle::new();
    assert_eq!(throttle.current_level(), ThrottleLevel::Normal);
    assert_eq!(throttle.current_intensity(), 1_000_000);
    assert!(throttle.allow_background());
}

#[test]
fn throttle_level_allows_background_correctly() {
    assert!(ThrottleLevel::Normal.allows_background());
    assert!(ThrottleLevel::Throttled.allows_background());
    assert!(!ThrottleLevel::Survival.allows_background());
}

#[test]
fn throttle_level_names() {
    assert_eq!(ThrottleLevel::Normal.as_str(), "Normal");
    assert_eq!(ThrottleLevel::Throttled.as_str(), "Throttled");
    assert_eq!(ThrottleLevel::Survival.as_str(), "Survival");
    assert_eq!(ThrottleLevel::default(), ThrottleLevel::Normal);
}

#[test]
fn config_presets_differ_by_profile() {
    let heavy = ThrottleConfig::heavy();
    let desktop = ThrottleConfig::desktop();
    let mobile = ThrottleConfig::mobile();

    assert!(heavy.target_latency_ms < desktop.target_latency_ms);
    assert!(desktop.target_latency_ms < mobile.target_latency_ms);

    assert!(heavy.survival_threshold_ms < desktop.survival_threshold_ms);
    assert!(desktop.survival_threshold_ms < mobile.survival_threshold_ms);
}

#[test]
fn throttle_preset_values() {
    let heavy = ThrottleConfig::heavy();
    assert_eq!(heavy.target_latency_ms, 10 * MS);
    assert_eq!(heavy.kp, 50_000);
    assert_eq!(heavy.ki, 1_000);
    assert_eq!(heavy.kd, 10_000);
    assert_eq!(heavy.survival_threshold_ms, 100 * MS);
    assert_eq!(heavy.throttled_threshold, 700_000);
    let desktop = ThrottleConfig::desktop();
    assert_eq!(desktop.target_latency_ms, 50 * MS);
    assert_eq!(desktop.kp, 30_000);
    assert_eq!(desktop.ki, 500);
    assert_eq!(desktop.kd, 5_000);
    assert_eq!(desktop.survival_threshold_ms, 200 * MS);
    assert_eq!(desktop.throttled_threshold, 600_000);
    let mobile = ThrottleConfig::mobile();
    assert_eq!(mobile.target_latency_ms, 200 * MS);
    assert_eq!(mobile.kp, 20_000);
    assert_eq!(mobile.ki, 200);
    assert_eq!(mobile.kd, 2_000);
    assert_eq!(mobile.survival_threshold_ms, 500 * MS);
    assert_eq!(mobile.throttled_threshold, 500_000);
    assert_eq!(ThrottleConfig::default(), desktop);
}

#[test]
fn for_profile_selects_correct_preset() {
    let heavy_cfg = ThrottleConfig::for_profile(&NodeProfile::HeavyGpu);
    let desktop_cfg = ThrottleConfig::for_profile(&NodeProfile::Desktop);
    let mobile_cfg = ThrottleConfig::for_profile(&NodeProfile::Mobile);

    assert_eq!(heavy_cfg.target_latency_ms, ThrottleConfig::heavy().target_latency_ms);
    assert_eq!(desktop_cfg.target_latency_ms, ThrottleConfig::desktop().target_latency_ms);
    assert_eq!(mobile_cfg.target_latency_ms, ThrottleConfig::mobile().target_latency_ms);
    assert_eq!(ThrottleConfig::for_profile(&NodeProfile::HeavyCpu), ThrottleConfig::heavy());
}

#[test]
fn low_latency_keeps_normal_level() {
    let mut throttle = AdaptiveThrottle::new();
    throttle.record_tick_latency(5 * MS, 10);

    assert_eq!(throttle.current_level(), ThrottleLevel::Normal);
    assert!(throttle.current_intensity() >= 900_000);
    assert_eq!(throttle.current_intensity(), 1_000_000);
}

#[test]
fn extreme_latency_triggers_survival() {
    let config = ThrottleConfig::desktop();
    let mut throttle = AdaptiveThrottle::with_config(config);

    throttle.record_tick_latency(500 * MS, 10);

    assert_eq!(throttle.current_level(), ThrottleLevel::Survival);
    assert!(!throttle.allow_background());
    assert_eq!(throttle.current_intensity(), 0);
}

#[test]
fn survival_overrides_any_history() {
    let mut throttle = AdaptiveThrottle::new();
    for _ in 0..50 {
        throttle.record_tick_latency(MS, 1_000);
    }
    assert_eq!(throttle.current_level(), ThrottleLevel::Normal);
    assert_eq!(throttle.current_intensity(), 1_000_000);
    throttle.record_tick_latency(200 * MS + 1, 1_000);
    assert_eq!(throttle.current_level(), ThrottleLevel::Survival);
    assert_eq!(throttle.current_intensity(), 0);
    assert!(!throttle.allow_background());
    throttle.record_tick_latency(200 * MS + 1, 0);
    assert_eq!(throttle.current_level(), ThrottleLevel::Survival);
    assert_eq!(throttle.current_intensity(), 0);
}

#[test]
fn threshold_itself_is_not_survival() {
    let mut throttle = AdaptiveThrottle::new();
    throttle.record_tick_latency(200 * MS, 1_000_000);
    assert_ne!(throttle.current_level(), ThrottleLevel::Survival);
    assert!(throttle.allow_background());
}

#[test]
fn reset_restores_initial_state() {
    let mut throttle = AdaptiveThrottle::new();

    throttle.record_tick_latency(1000 * MS, 10);
    assert_eq!(throttle.current_level(), ThrottleLevel::Survival);

    throttle.reset();

    assert_eq!(throttle.current_level(), ThrottleLevel::Normal);
    assert_eq!(throttle.current_intensity(), 1_000_000);
    assert_eq!(throttle.tick_count(), 0);
    assert_eq!(throttle.last_latency_ms(), 0);
    assert_eq!(throttle.avg_latency_ms(), 0);
}

#[test]
fn pid_controller_reacts_to_consistent_error() {
    let mut throttle = AdaptiveThrottle::new();
    for _ in 0..20 {
        throttle.record_tick_latency(70 * MS, 5_000);
    }
    assert!(throttle.current_intensity() < 1_000_000);
    assert_eq!(throttle.current_intensity(), 939_900);
    assert_eq!(throttle.avg_latency_ms(), 70 * MS);
    assert_eq!(throttle.current_level(), ThrottleLevel::Normal);
}

#[test]
fn controller_step_by_step() {
    let mut throttle = AdaptiveThrottle::new();
    throttle.record_tick_latency(180 * MS, 1_000_000);
    assert_eq!(throttle.current_intensity(), 544_500);
    assert_eq!(throttle.current_level(), ThrottleLevel::Throttled);
    assert_eq!(throttle.avg_latency_ms(), 180 * MS);

    throttle.record_tick_latency(180 * MS, 1_000_000);
    assert_eq!(throttle.current_intensity(), 609_500);
    assert_eq!(throttle.current_level(), ThrottleLevel::Normal);

    throttle.record_tick_latency(60 * MS, 2_000_000);
    assert_eq!(throttle.current_intensity(), 999_500);
    assert_eq!(throttle.avg_latency_ms(), 168 * MS);
    assert_eq!(throttle.last_latency_ms(), 60 * MS);

    throttle.record_tick_latency(60 * MS, 0);
    assert_eq!(throttle.current_intensity(), 999_500);
    assert_eq!(throttle.avg_latency_ms(), 157_200_000);
}

#[test]
fn first_step_after_a_jump_is_damped_hard() {
    let mut throttle = AdaptiveThrottle::new();
    throttle.record_tick_latency(100 * MS, 10_000);
    assert_eq!(throttle.current_intensity(), 0);
    assert_eq!(throttle.current_level(), ThrottleLevel::Throttled);
    throttle.record_tick_latency(100 * MS, 10_000);
    assert_eq!(throttle.current_intensity(), 849_950);
    assert_eq!(throttle.current_level(), ThrottleLevel::Normal);
}

#[test]
fn integral_is_bounded() {
    let mut throttle = AdaptiveThrottle::with_config(ThrottleConfig::heavy());
    throttle.record_tick_latency(90 * MS, 1_000_000);
    assert_eq!(throttle.current_intensity(), 519_000);
    for _ in 0..4 {
        throttle.record_tick_latency(90 * MS, 1_000_000);
        assert_eq!(throttle.current_intensity(), 599_000);
        assert_eq!(throttle.current_level(), ThrottleLevel::Throttled);
    }
}

#[test]
fn extreme_arguments_are_handled() {
    let mut throttle = AdaptiveThrottle::new();
    throttle.record_tick_latency(u64::MAX, u64::MAX);
    assert_eq!(throttle.current_level(), ThrottleLevel::Survival);
    assert_eq!(throttle.current_intensity(), 0);
    throttle.record_tick_latency(0, 1);
    assert_eq!(throttle.current_level(), ThrottleLevel::Normal);
    assert_eq!(throttle.current_intensity(), 1_000_000);
    throttle.record_tick_latency(u64::MAX, 1);
    assert_eq!(throttle.current_intensity(), 0);
}

#[test]
fn update_counts_ticks_and_retunes() {
    let mut throttle = AdaptiveThrottle::new();
    throttle.update(&NodeProfile::Desktop);
    assert_eq!(throttle.tick_count(), 1);
    throttle.record_tick_latency(150 * MS, 1_000_000);
    assert_ne!(throttle.current_level(), ThrottleLevel::Survival);

    throttle.update(&NodeProfile::HeavyCpu);
    assert_eq!(throttle.tick_count(), 2);
    throttle.record_tick_latency(150 * MS, 1_000_000);
    assert_eq!(throttle.current_level(), ThrottleLevel::Survival);

    throttle.update(&NodeProfile::Mobile);
    throttle.record_tick_latency(150 * MS, 1_000_000);
    assert_ne!(throttle.current_level(), ThrottleLevel::Survival);
}

#[test]
fn update_keeps_a_close_configuration() {
    let custom = ThrottleConfig {
        target_latency_ms: 50 * MS + 1_000_000,
        kp: 1,
        ki: 1,
        kd: 1,
        survival_threshold_ms: 60 * MS,
        throttled_threshold: 100_000,
    };
    let mut throttle = AdaptiveThrottle::with_config(custom);
    throttle.update(&NodeProfile::Desktop);
    throttle.record_tick_latency(61 * MS, 1_000);
    assert_eq!(throttle.current_level(), ThrottleLevel::Survival);

    let farther = ThrottleConfig { target_latency_ms: 50 * MS + 1_000_001, ..custom };
    let mut throttle = AdaptiveThrottle::with_config(farther);
    throttle.update(&NodeProfile::Desktop);
    throttle.record_tick_latency(61 * MS, 1_000);
    assert_ne!(throttle.current_level(), ThrottleLevel::Survival);
}
