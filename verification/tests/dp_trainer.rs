use samaritan_core::accountant::PrivacyAccountant;
use samaritan_core::differential_privacy::{DPConfig, DPEngine};
use samaritan_core::dp_trainer::{
    close_round, sanitize_batch, step_admissible, DpOptimizable, DpTrainer, DpTrainingConfig,
    RoundStats, RoundTally, TrainError, TrainerStats,
};

/// Model whose gradient is the distance of each weight from a target.
#[derive(Debug, Clone)]
struct DummyModel {
    weights: Vec<i32>,
    target: i32,
    applied: u32,
}

impl DpOptimizable for DummyModel {
    type Batch = ();

    fn params_len(&self) -> usize {
        self.weights.len()
    }

    fn compute_gradients(&mut self, _batch: &Self::Batch) -> Vec<i32> {
        self.weights.iter().map(|&w| w - self.target).collect()
    }

    fn apply_gradients(&mut self, gradients: &Vec<i32>, learning_rate: u64) {
        self.applied += 1;
        for (w, g) in self.weights.iter_mut().zip(gradients) {
            *w -= ((learning_rate as i64 * *g as i64) / 1_000_000) as i32;
        }
    }
}

/// Model whose gradient is the batch itself, and which keeps what it was given.
struct Patchy {
    applied: Vec<Vec<i32>>,
    rates: Vec<u64>,
}

impl DpOptimizable for Patchy {
    type Batch = Vec<i32>;

    fn params_len(&self) -> usize {
        2
    }

    fn compute_gradients(&mut self, batch: &Self::Batch) -> Vec<i32> {
        batch.clone()
    }

    fn apply_gradients(&mut self, gradients: &Vec<i32>, learning_rate: u64) {
        self.applied.push(gradients.clone());
        self.rates.push(learning_rate);
    }
}

fn dummy(weights: Vec<i32>) -> DummyModel {
    DummyModel { weights, target: 0, applied: 0 }
}

fn patchy() -> Patchy {
    Patchy { applied: Vec::new(), rates: Vec::new() }
}

fn batches(n: usize) -> Vec<()> {
    std::iter::repeat(()).take(n).collect()
}

/// The same noise value for every component of `n` gradients of `len` components.
fn constant(n: usize, len: usize, value: i32) -> Vec<Vec<i32>> {
    vec![vec![value; len]; n]
}

#[test]
fn trainer_respects_budget_and_updates_model() {
    let dp_cfg = DPConfig::moderate();
    let trainer_cfg = DpTrainingConfig::from_dp(dp_cfg, 100_000, 500_000);
    let model = dummy(vec![1_000_000, 1_000_000, 1_000_000]);

    let mut trainer = DpTrainer::new(model, trainer_cfg, 7);

    let stats_round_0 = trainer.train_round(batches(5), &constant(5, 3, 1_000)).unwrap();
    assert!(stats_round_0.batches_processed > 0);
    assert!(stats_round_0.epsilon_spent > 0);
    assert!(stats_round_0.epsilon_total > 0);

    let weights_after_0 = trainer.model().weights.clone();
    assert_ne!(weights_after_0, vec![1_000_000, 1_000_000, 1_000_000]);
    assert!(trainer.is_budget_exhausted());
    assert_eq!(
        trainer.train_round(batches(5), &constant(5, 3, 1_000)),
        Err(TrainError::PrivacyBudgetExhausted)
    );
}

#[test]
fn rounds_follow_each_other_while_budget_is_left() {
    let trainer_cfg = DpTrainingConfig::from_dp(DPConfig::moderate(), 100_000, 5_000_000);
    let mut trainer = DpTrainer::new(dummy(vec![1_000_000, 1_000_000, 1_000_000]), trainer_cfg, 7);

    let stats_round_0 = trainer.train_round(batches(5), &constant(5, 3, 1_000)).unwrap();
    assert_eq!(stats_round_0.round_index, 0);
    assert_eq!(stats_round_0.batches_processed, 5);
    assert_eq!(stats_round_0.epsilon_spent, 1_000_000);
    assert_eq!(stats_round_0.epsilon_total, 1_000_000);
    assert_eq!(stats_round_0.epsilon_remaining, 4_000_000);
    assert!(!stats_round_0.budget_exhausted);
    let weights_after_0 = trainer.model().weights.clone();

    let stats_round_1 = trainer.train_round(batches(5), &constant(5, 3, 1_000)).unwrap();
    assert_eq!(stats_round_1.round_index, 1);
    assert!(stats_round_1.epsilon_total >= stats_round_0.epsilon_total);
    assert_eq!(stats_round_1.epsilon_total, 2_000_000);
    let weights_after_1 = trainer.model().weights.clone();

    assert_ne!(weights_after_0, weights_after_1);
    assert_eq!(
        *trainer.stats(),
        TrainerStats { rounds_completed: 2, total_batches: 10, total_epsilon: 2_000_000 }
    );
    assert_eq!(trainer.model().applied, 10);
    let model = trainer.into_inner();
    assert_eq!(model.applied, 10);
}

#[test]
fn trainer_fails_when_budget_exhausted() {
    let dp_cfg = DPConfig::moderate();
    let trainer_cfg = DpTrainingConfig::from_dp(dp_cfg, 10_000, 50_000);
    let model = dummy(vec![500_000, 500_000]);

    let mut trainer = DpTrainer::new(model, trainer_cfg, 1);

    let first = trainer.train_round(batches(3), &constant(3, 2, 0));
    assert!(first.is_ok());

    assert!(trainer.is_budget_exhausted());

    let weights = trainer.model().weights.clone();
    let applied = trainer.model().applied;
    let res = trainer.train_round(batches(3), &constant(3, 2, 0));
    assert!(res.is_err());
    assert_eq!(res, Err(TrainError::PrivacyBudgetExhausted));
    assert_eq!(trainer.model().weights, weights);
    assert_eq!(trainer.model().applied, applied);
    assert_eq!(
        TrainError::PrivacyBudgetExhausted.message(),
        "privacy budget exhausted: no further DP training is allowed"
    );
}

#[test]
fn zero_batches_do_not_consume_epsilon() {
    let dp_cfg = DPConfig::moderate();
    let trainer_cfg = DpTrainingConfig::from_dp(dp_cfg, 10_000, 1_000_000);
    let model = dummy(vec![1_000_000, 2_000_000]);

    let mut trainer = DpTrainer::new(model, trainer_cfg, 1);

    let stats = trainer.train_round(Vec::new(), &Vec::new()).unwrap();
    assert_eq!(stats.batches_processed, 0);
    assert_eq!(stats.epsilon_spent, 0);
    assert_eq!(stats.epsilon_total, 0);
    assert_eq!(stats.epsilon_remaining, 1_000_000);
    assert_eq!(stats.mean_grad_norm_before, 0);
    assert_eq!(stats.mean_grad_norm_after, 0);
    assert!(!stats.budget_exhausted);
    assert!(!trainer.is_budget_exhausted());
    assert_eq!(trainer.model().weights, vec![1_000_000, 2_000_000]);
    assert_eq!(trainer.model().applied, 0);
    assert_eq!(
        *trainer.stats(),
        TrainerStats { rounds_completed: 0, total_batches: 0, total_epsilon: 0 }
    );
    let next = trainer.train_round(Vec::new(), &constant(3, 2, 5)).unwrap();
    assert_eq!(next.round_index, 1);
    assert_eq!(trainer.model().weights, vec![1_000_000, 2_000_000]);
}

#[test]
fn empty_gradients_are_skipped_and_not_counted() {
    let cfg = DpTrainingConfig::from_dp(DPConfig::new(250_000, 10_000_000, 5), 17, 1_000_000);
    let mut trainer = DpTrainer::new(patchy(), cfg, 3);
    let noise = vec![vec![], vec![1, 1], vec![], vec![1, 1], vec![]];
    let stats = trainer
        .train_round(vec![vec![], vec![3, 4], vec![], vec![6, 8], vec![]], &noise)
        .unwrap();
    assert_eq!(stats.batches_processed, 2);
    assert_eq!(stats.mean_grad_norm_before, 7);
    assert_eq!(stats.epsilon_spent, 250_000);
    assert_eq!(trainer.model().applied, vec![vec![4, 5], vec![4, 5]]);
    assert_eq!(trainer.model().rates, vec![17, 17]);
    assert_eq!(stats.mean_grad_norm_after, 6);

    let only_empty = trainer.train_round(vec![vec![], vec![]], &constant(2, 0, 0)).unwrap();
    assert_eq!(only_empty.batches_processed, 0);
    assert_eq!(only_empty.epsilon_spent, 0);
    assert_eq!(only_empty.epsilon_total, 250_000);
    assert_eq!(trainer.stats().rounds_completed, 1);
    assert_eq!(trainer.stats().total_batches, 2);
}

#[test]
fn a_gradient_without_fitting_noise_is_never_applied() {
    let cfg = DpTrainingConfig::from_dp(DPConfig::new(250_000, 10_000_000, 5), 1, 1_000_000);
    let mut trainer = DpTrainer::new(patchy(), cfg, 3);
    let noise = vec![vec![1], vec![2, 2], vec![3, 3, 3]];
    let stats = trainer
        .train_round(vec![vec![3, 4], vec![3, 4], vec![3, 4], vec![3, 4]], &noise)
        .unwrap();
    assert_eq!(stats.batches_processed, 1);
    assert_eq!(trainer.model().applied, vec![vec![5, 6]]);
    assert_eq!(stats.epsilon_spent, 250_000);

    let stats = trainer.train_round(vec![vec![3, 4], vec![3, 4]], &Vec::new()).unwrap();
    assert_eq!(stats.batches_processed, 0);
    assert_eq!(stats.epsilon_spent, 0);
    assert_eq!(trainer.model().applied.len(), 1);
}

#[test]
fn a_round_is_charged_once_and_stops_at_the_batch_limit() {
    let mut cfg = DpTrainingConfig::from_dp(DPConfig::moderate(), 1, 10_000_000);
    cfg.max_batches_per_round = Some(3);
    cfg.epsilon_per_round = 400_000;
    let mut trainer = DpTrainer::new(dummy(vec![5, 5]), cfg, 3);
    let stats = trainer.train_round(batches(10), &constant(10, 2, 0)).unwrap();
    assert_eq!(stats.batches_processed, 3);
    assert_eq!(stats.epsilon_spent, 400_000);
    assert_eq!(stats.epsilon_total, 400_000);
    assert_eq!(trainer.model().applied, 3);

    cfg.max_batches_per_round = Some(0);
    let mut trainer = DpTrainer::new(dummy(vec![5, 5]), cfg, 3);
    let stats = trainer.train_round(batches(10), &constant(10, 2, 0)).unwrap();
    assert_eq!(stats.batches_processed, 0);
    assert_eq!(stats.epsilon_spent, 0);
    assert_eq!(trainer.model().applied, 0);
}

#[test]
fn the_limit_counts_processed_batches_only() {
    let mut cfg = DpTrainingConfig::from_dp(DPConfig::new(1, 1, 100), 1, 0);
    cfg.max_batches_per_round = Some(2);
    let mut trainer = DpTrainer::new(patchy(), cfg, 3);
    let gradients = vec![vec![], vec![1, 1], vec![], vec![], vec![2, 2], vec![3, 3]];
    let noise = vec![vec![], vec![0, 0], vec![], vec![], vec![0, 0], vec![0, 0]];
    let stats = trainer.train_round(gradients, &noise).unwrap();
    assert_eq!(stats.batches_processed, 2);
    assert_eq!(trainer.model().applied, vec![vec![1, 1], vec![2, 2]]);
}

#[test]
fn zero_budget_means_no_limit_is_set() {
    let cfg = DpTrainingConfig::from_dp(DPConfig::weak(), 1, 0);
    let mut trainer = DpTrainer::new(dummy(vec![5, 5]), cfg, 3);
    for round in 0..20 {
        let stats = trainer.train_round(batches(1), &constant(1, 2, 0)).unwrap();
        assert_eq!(stats.round_index, round);
        assert_eq!(stats.epsilon_remaining, u64::MAX / 2 - 8_000_000 * (round as u64 + 1));
    }
    assert!(!trainer.is_budget_exhausted());
}

#[test]
fn the_trainer_hands_out_the_draws_of_its_generator() {
    let cfg = DpTrainingConfig::from_dp(DPConfig::moderate(), 1, 0);
    let mut trainer = DpTrainer::new(dummy(vec![5, 5]), cfg, 42);
    let mut engine = DPEngine::with_seed(DPConfig::moderate(), 42);
    assert_eq!(trainer.draw_uniform(3), engine.draw_uniform(3));
    trainer.train_round(batches(2), &constant(2, 2, 1)).unwrap();
    assert_eq!(trainer.draw_uniform(2), engine.draw_uniform(2));
    assert_eq!(*trainer.settings(), cfg);
}

#[test]
fn a_step_is_a_round_of_one_gradient() {
    let cfg = DpTrainingConfig::from_dp(DPConfig::new(300_000, 10_000_000, 5), 9, 500_000);
    let mut trainer = DpTrainer::new(patchy(), cfg, 3);

    assert_eq!(trainer.train_step(Vec::new(), &Vec::new()), None);
    assert_eq!(trainer.train_step(vec![1, 2, 3], &vec![0, 0, 0]), None);
    assert_eq!(trainer.train_step(vec![1, 2], &vec![0]), None);
    assert!(trainer.model().applied.is_empty());
    assert_eq!(*trainer.stats(), TrainerStats { rounds_completed: 0, total_batches: 0, total_epsilon: 0 });

    let report = trainer.train_step(vec![6, 8], &vec![2, 2]).unwrap();
    assert_eq!(
        report,
        RoundStats {
            round_index: 0,
            batches_processed: 1,
            mean_grad_norm_before: 10,
            mean_grad_norm_after: 7,
            epsilon_spent: 300_000,
            epsilon_total: 300_000,
            epsilon_remaining: 200_000,
            budget_exhausted: false,
        }
    );
    assert_eq!(trainer.model().applied, vec![vec![5, 6]]);
    assert_eq!(trainer.model().rates, vec![9]);

    let report = trainer.train_step(vec![0, 1], &vec![0, 0]).unwrap();
    assert_eq!(report.round_index, 1);
    assert!(report.budget_exhausted);
    assert_eq!(report.epsilon_remaining, 0);
    assert_eq!(trainer.train_step(vec![0, 1], &vec![0, 0]), None);
    assert_eq!(trainer.model().applied.len(), 2);
}

#[test]
fn a_step_for_a_given_parameter_count() {
    let cfg = DpTrainingConfig::from_dp(DPConfig::new(300_000, 10_000_000, 5), 1, 500_000);
    let mut trainer = DpTrainer::new(patchy(), cfg, 3);

    assert_eq!(trainer.train_step_given(vec![6, 8], &vec![2, 2], 3), None);
    assert_eq!(trainer.train_step_given(vec![6, 8], &vec![2], 2), None);
    assert_eq!(trainer.train_step_given(Vec::new(), &Vec::new(), 0), None);
    assert!(trainer.model().applied.is_empty());
    assert_eq!(*trainer.stats(), TrainerStats { rounds_completed: 0, total_batches: 0, total_epsilon: 0 });

    let report = trainer.train_step_given(vec![6, 8], &vec![2, 2], 2).unwrap();
    assert_eq!(
        report,
        RoundStats {
            round_index: 0,
            batches_processed: 1,
            mean_grad_norm_before: 10,
            mean_grad_norm_after: 7,
            epsilon_spent: 300_000,
            epsilon_total: 300_000,
            epsilon_remaining: 200_000,
            budget_exhausted: false,
        }
    );
    assert_eq!(trainer.model().applied, vec![vec![5, 6]]);
    assert_eq!(*trainer.stats(), TrainerStats { rounds_completed: 1, total_batches: 1, total_epsilon: 300_000 });

    let report = trainer.train_step_given(vec![0, 0, 0], &vec![2, 2, 1], 3).unwrap();
    assert_eq!(report.round_index, 1);
    assert_eq!(report.mean_grad_norm_before, 0);
    assert_eq!(report.mean_grad_norm_after, 3);
    assert!(report.budget_exhausted);
    assert_eq!(trainer.train_step_given(vec![0, 0, 0], &vec![0, 0, 0], 3), None);
    assert_eq!(trainer.model().applied.len(), 2);
}

#[test]
fn step_admission() {
    assert!(step_admissible(false, 3, 3, 3));
    assert!(!step_admissible(true, 3, 3, 3));
    assert!(!step_admissible(false, 0, 0, 0));
    assert!(!step_admissible(false, 2, 2, 3));
    assert!(!step_admissible(false, 3, 2, 3));
}

#[test]
fn a_tally_counts_sanitised_batches_up_to_the_limit() {
    let mut tally = RoundTally::new();
    assert_eq!(tally, RoundTally { batches: 0, sum_before: 0, sum_after: 0 });
    assert!(!tally.record(None, 2));
    assert_eq!(tally, RoundTally { batches: 0, sum_before: 0, sum_after: 0 });
    assert!(tally.record(Some((10, 7)), 2));
    assert_eq!(tally, RoundTally { batches: 1, sum_before: 10, sum_after: 7 });
    assert!(tally.record(Some((u64::MAX, 0)), 2));
    assert_eq!(tally, RoundTally { batches: 2, sum_before: u64::MAX as u128 + 10, sum_after: 7 });
    assert!(!tally.record(Some((1, 1)), 2));
    assert_eq!(tally.batches, 2);
    assert!(!RoundTally::new().record(Some((1, 1)), 0));
}

#[test]
fn closing_a_round() {
    let mut accountant = PrivacyAccountant::new(1_000);
    let mut stats = TrainerStats { rounds_completed: 4, total_batches: 9, total_epsilon: 0 };
    let tally = RoundTally { batches: 3, sum_before: 10, sum_after: 7 };
    let report = close_round(&mut accountant, &mut stats, 4, &tally, 600);
    assert_eq!(
        report,
        RoundStats {
            round_index: 4,
            batches_processed: 3,
            mean_grad_norm_before: 3,
            mean_grad_norm_after: 2,
            epsilon_spent: 600,
            epsilon_total: 600,
            epsilon_remaining: 400,
            budget_exhausted: false,
        }
    );
    assert_eq!(stats, TrainerStats { rounds_completed: 5, total_batches: 9, total_epsilon: 600 });

    let report = close_round(&mut accountant, &mut stats, 5, &RoundTally::new(), 600);
    assert_eq!(report.epsilon_spent, 0);
    assert_eq!(report.epsilon_total, 600);
    assert_eq!(accountant.rounds(), 1);
    assert_eq!(stats.rounds_completed, 5);
}

#[test]
fn sanitizing_a_batch() {
    let engine = DPEngine::with_seed(DPConfig::new(1, 1, 5), 42);
    let mut empty: Vec<i32> = Vec::new();
    assert_eq!(sanitize_batch(&engine, &mut empty, &Vec::new()), None);

    let mut gradient = vec![6, 8];
    assert_eq!(sanitize_batch(&engine, &mut gradient, &vec![9]), None);
    assert_eq!(gradient, vec![6, 8]);
    assert_eq!(sanitize_batch(&engine, &mut gradient, &vec![9, 9]), Some((10, 17)));
    assert_eq!(gradient, vec![12, 13]);
}

#[test]
fn training_settings() {
    let cfg = DpTrainingConfig::safe_default();
    assert_eq!(cfg.dp, DPConfig::moderate());
    assert_eq!(cfg.learning_rate, 10_000);
    assert_eq!(cfg.epsilon_budget, 10_000_000);
    assert_eq!(cfg.epsilon_per_round, 1_000_000);
    assert_eq!(cfg.max_batches_per_round, None);
    let cfg = DpTrainingConfig::from_dp(DPConfig::strong(), 5, 6);
    assert_eq!(cfg.epsilon_per_round, 100_000);
    assert_eq!(cfg.learning_rate, 5);
    assert_eq!(cfg.epsilon_budget, 6);
}
