//! Differentially private trainer.
//!
//! The trainer owns a model, a sanitisation engine and a privacy accountant.
//! It never looks inside the model: it asks it for a flat gradient, clips and
//! noises that gradient, and hands the result back. A round runs over several
//! batches and is charged once, after the last batch; a step is one gradient,
//! charged on its own. Neither runs once the budget is used up.
//!
//! The noise comes in as values: the caller draws uniform numbers from the
//! trainer's generator, shapes them, and hands one vector of noise per batch
//! to the round. A gradient for which no noise of its length is at hand is
//! never applied.

use crate::accountant::{Ledger, PrivacyAccountant};
use crate::differential_privacy::{
    l2_norm, lcg_advance, lemma_norm_fits, norm_of, privatized, uniform_pairs, DPConfig, DPEngine,
};
use vstd::prelude::*;

verus! {

/// A model that can be trained on sanitised gradients.
///
/// Gradients are flat vectors of millionths, laid out the same way for
/// `compute_gradients` and `apply_gradients`. Nothing is assumed of what an
/// implementation returns or does.
pub trait DpOptimizable {
    /// A batch of local training data.
    type Batch;

    /// Number of parameters of the model.
    fn params_len(&self) -> usize;

    /// Raw gradient of the model on one batch.
    fn compute_gradients(&mut self, batch: &Self::Batch) -> Vec<i32>;

    /// Updates the model with a sanitised gradient and a learning rate in millionths.
    fn apply_gradients(&mut self, gradients: &Vec<i32>, learning_rate: u64);
}

/// Settings of a training session.
#[derive(Debug, Clone, Copy, PartialEq, Eq, Structural)]
pub struct DpTrainingConfig {
    /// Parameters of the Gaussian mechanism.
    pub dp: DPConfig,
    /// Learning rate handed to the model, in millionths.
    pub learning_rate: u64,
    /// Total ε that may be spent, in millionths; zero means no limit is set.
    pub epsilon_budget: u64,
    /// ε charged for each round or step, in millionths.
    pub epsilon_per_round: u64,
    /// Largest number of batches processed in one round, if limited.
    pub max_batches_per_round: Option<u32>,
}

impl DpTrainingConfig {
    /// Settings that charge the mechanism's own ε per round and do not limit
    /// the batches of a round.
    #[must_use]
    pub fn from_dp(dp: DPConfig, learning_rate: u64, epsilon_budget: u64) -> (c: Self)
        ensures
            c == (DpTrainingConfig {
                dp,
                learning_rate,
                epsilon_budget,
                epsilon_per_round: dp.epsilon,
                max_batches_per_round: None,
            }),
    {
        DpTrainingConfig {
            dp,
            learning_rate,
            epsilon_budget,
            epsilon_per_round: dp.epsilon,
            max_batches_per_round: None,
        }
    }

    /// Balanced privacy, learning rate 0.01 and a budget of ε = 10.
    #[must_use]
    pub fn safe_default() -> (c: Self)
        ensures
            c == (DpTrainingConfig {
                dp: DPConfig { epsilon: 1_000_000, delta: 10_000_000, max_grad_norm: 1_000_000 },
                learning_rate: 10_000,
                epsilon_budget: 10_000_000,
                epsilon_per_round: 1_000_000,
                max_batches_per_round: None,
            }),
    {
        Self::from_dp(DPConfig::moderate(), 10_000, 10_000_000)
    }

    /// The budget that an accountant is made with: the configured one, or half
    /// of the whole range where none is set.
    pub open spec fn effective_budget(&self) -> u64 {
        if self.epsilon_budget > 0 {
            self.epsilon_budget
        } else {
            (u64::MAX / 2) as u64
        }
    }

    /// The limit on the batches of one round, `u32::MAX` where none is set.
    pub open spec fn batch_limit(&self) -> u32 {
        match self.max_batches_per_round {
            Some(limit) => limit,
            None => u32::MAX,
        }
    }
}

/// Report of one round or step.
#[derive(Debug, Clone, Copy, PartialEq, Eq, Structural)]
pub struct RoundStats {
    /// Index of the round, counted from zero.
    pub round_index: u32,
    /// Number of batches that were sanitised and applied.
    pub batches_processed: u32,
    /// Mean L2 norm of the raw gradients, in millionths.
    pub mean_grad_norm_before: u64,
    /// Mean L2 norm of the sanitised gradients, in millionths.
    pub mean_grad_norm_after: u64,
    /// ε charged for this round, in millionths.
    pub epsilon_spent: u64,
    /// ε spent so far, in millionths.
    pub epsilon_total: u64,
    /// What is left of the budget, in millionths.
    pub epsilon_remaining: u64,
    /// Whether the budget is used up after this round.
    pub budget_exhausted: bool,
}

/// Running totals of a trainer.
#[derive(Debug, Clone, Copy, PartialEq, Eq, Structural)]
pub struct TrainerStats {
    /// Rounds that processed at least one batch.
    pub rounds_completed: u32,
    /// Batches processed over all rounds.
    pub total_batches: u64,
    /// ε spent so far, in millionths.
    pub total_epsilon: u64,
}

impl TrainerStats {
    fn new() -> (s: Self)
        ensures
            s == (TrainerStats { rounds_completed: 0, total_batches: 0, total_epsilon: 0 }),
    {
        TrainerStats { rounds_completed: 0, total_batches: 0, total_epsilon: 0 }
    }
}

/// Why a round was not run.
#[derive(Debug, Clone, Copy, PartialEq, Eq, Structural)]
pub enum TrainError {
    /// The privacy budget was already used up when the round was asked for.
    PrivacyBudgetExhausted,
}

impl TrainError {
    /// The error in words.
    #[must_use]
    pub fn message(&self) -> (s: &'static str)
        ensures
            s@ == "privacy budget exhausted: no further DP training is allowed"@,
    {
        match self {
            TrainError::PrivacyBudgetExhausted => {
                "privacy budget exhausted: no further DP training is allowed"
            },
        }
    }
}

/// What a round over `batches` batches that cost `epsilon` leaves in the ledger:
/// a round without batches is free, any other is charged once.
pub open spec fn ledger_after_round(before: Ledger, batches: u32, epsilon: u64) -> Ledger {
    if batches == 0 {
        before
    } else {
        before.record(epsilon as nat)
    }
}

/// The mean of `batches` norms whose sum is `sum`; zero for no batch.
pub open spec fn mean_norm(sum: nat, batches: u32) -> nat {
    if batches == 0 {
        0
    } else {
        sum / batches as nat
    }
}

/// The report of the round `round_index` that processed `batches` batches,
/// whose norms before and after sanitisation sum to `sum_before` and
/// `sum_after`, charged `epsilon` against the ledger `before`.
pub open spec fn round_report(
    before: Ledger,
    round_index: u32,
    batches: u32,
    sum_before: nat,
    sum_after: nat,
    epsilon: u64,
) -> RoundStats {
    let after = ledger_after_round(before, batches, epsilon);
    RoundStats {
        round_index,
        batches_processed: batches,
        mean_grad_norm_before: mean_norm(sum_before, batches) as u64,
        mean_grad_norm_after: mean_norm(sum_after, batches) as u64,
        epsilon_spent: if batches == 0 {
            0
        } else {
            epsilon
        },
        epsilon_total: after.total as u64,
        epsilon_remaining: after.remaining() as u64,
        budget_exhausted: after.exhausted(),
    }
}

/// The running totals after a round: a round without batches leaves them,
/// any other counts as completed and brings the spent ε up to date.
pub open spec fn stats_after_round(before: TrainerStats, batches: u32, total: u64) -> TrainerStats {
    if batches == 0 {
        before
    } else {
        TrainerStats {
            rounds_completed: if before.rounds_completed == u32::MAX {
                u32::MAX
            } else {
                (before.rounds_completed + 1) as u32
            },
            total_batches: before.total_batches,
            total_epsilon: total,
        }
    }
}

/// Tally of a round in progress.
#[derive(Debug, Clone, Copy, PartialEq, Eq, Structural)]
pub struct RoundTally {
    /// Number of batches processed so far.
    pub batches: u32,
    /// Sum of the norms of their gradients before sanitisation.
    pub sum_before: u128,
    /// Sum of the norms of their gradients after sanitisation.
    pub sum_after: u128,
}

impl RoundTally {
    /// The tally of a round that has not seen a batch.
    pub open spec fn zero() -> RoundTally {
        RoundTally { batches: 0, sum_before: 0, sum_after: 0 }
    }

    /// Each sum is the sum of as many 64-bit norms as batches were counted.
    pub open spec fn wf(self) -> bool {
        self.sum_before <= self.batches * u64::MAX && self.sum_after <= self.batches * u64::MAX
    }

    /// Whether a batch is counted: it was sanitised, which gave the two norms,
    /// and the round has not reached the limit.
    pub open spec fn counts(self, norms: Option<(u64, u64)>, limit: u32) -> bool {
        norms is Some && self.batches < limit
    }

    /// The tally after one more batch: a batch that counts raises the count
    /// by one and the sums by its two norms; any other leaves the tally.
    pub open spec fn recorded(self, norms: Option<(u64, u64)>, limit: u32) -> RoundTally {
        if self.counts(norms, limit) {
            let pair = norms->0;
            RoundTally {
                batches: (self.batches + 1) as u32,
                sum_before: (self.sum_before + pair.0) as u128,
                sum_after: (self.sum_after + pair.1) as u128,
            }
        } else {
            self
        }
    }

    /// The tally of a round that has not seen a batch.
    pub fn new() -> (t: Self)
        ensures
            t == RoundTally::zero(),
            t.wf(),
    {
        RoundTally { batches: 0, sum_before: 0, sum_after: 0 }
    }

    /// Takes note of one batch. `norms` are the norms of its gradient before
    /// and after sanitisation, or nothing if the gradient was not sanitised.
    /// The batch is counted unless it was not sanitised or the round has
    /// reached `limit` batches.
    pub fn record(&mut self, norms: Option<(u64, u64)>, limit: u32) -> (counted: bool)
        requires
            old(self).wf(),
        ensures
            counted == old(self).counts(norms, limit),
            *final(self) == old(self).recorded(norms, limit),
            final(self).wf(),
    {
        match norms {
            Some(pair) => {
                if self.batches < limit {
                    proof {
                        assert((self.batches + 1) * u64::MAX == self.batches * u64::MAX + u64::MAX)
                            by (nonlinear_arith);
                    }
                    self.batches = self.batches + 1;
                    self.sum_before = self.sum_before + pair.0 as u128;
                    self.sum_after = self.sum_after + pair.1 as u128;
                    true
                } else {
                    false
                }
            },
            None => false,
        }
    }
}

/// Closes a round: charges the accountant once if any batch was processed,
/// brings the running totals up to date and writes the report.
pub fn close_round(
    accountant: &mut PrivacyAccountant,
    stats: &mut TrainerStats,
    round_index: u32,
    tally: &RoundTally,
    epsilon: u64,
) -> (report: RoundStats)
    requires
        tally.wf(),
    ensures
        final(accountant)@ == ledger_after_round(old(accountant)@, tally.batches, epsilon),
        *final(stats) == stats_after_round(
            *old(stats),
            tally.batches,
            final(accountant)@.total as u64,
        ),
        report == round_report(
            old(accountant)@,
            round_index,
            tally.batches,
            tally.sum_before as nat,
            tally.sum_after as nat,
            epsilon,
        ),
{
    proof {
        accountant.lemma_in_range();
    }
    let batches: u32 = tally.batches;
    if batches == 0 {
        return RoundStats {
            round_index,
            batches_processed: 0,
            mean_grad_norm_before: 0,
            mean_grad_norm_after: 0,
            epsilon_spent: 0,
            epsilon_total: accountant.total_epsilon(),
            epsilon_remaining: accountant.remaining_budget(),
            budget_exhausted: accountant.is_budget_exhausted(),
        };
    }
    accountant.record_round(epsilon);
    proof {
        accountant.lemma_in_range();
    }
    let epsilon_total: u64 = accountant.total_epsilon();
    stats.rounds_completed = stats.rounds_completed.saturating_add(1);
    stats.total_epsilon = epsilon_total;
    let mean_before: u128 = tally.sum_before / (batches as u128);
    let mean_after: u128 = tally.sum_after / (batches as u128);
    proof {
        lemma_mean_fits(tally.sum_before as nat, batches);
        lemma_mean_fits(tally.sum_after as nat, batches);
    }
    RoundStats {
        round_index,
        batches_processed: batches,
        mean_grad_norm_before: mean_before as u64,
        mean_grad_norm_after: mean_after as u64,
        epsilon_spent: epsilon,
        epsilon_total,
        epsilon_remaining: accountant.remaining_budget(),
        budget_exhausted: accountant.is_budget_exhausted(),
    }
}

/// The mean of norms that each fit in 64 bits fits in 64 bits.
pub proof fn lemma_mean_fits(sum: nat, batches: u32)
    requires
        sum <= batches * u64::MAX,
    ensures
        mean_norm(sum, batches) <= u64::MAX,
{
    if batches > 0 {
        let b = batches as int;
        let m = u64::MAX as int;
        vstd::arithmetic::div_mod::lemma_div_is_ordered(sum as int, b * m, b);
        vstd::arithmetic::div_mod::lemma_div_multiples_vanish(m, b);
        assert(b * m == m * b) by (nonlinear_arith);
    }
}

/// No field of a report is cut to fit: with a ledger in range and a tally
/// whose sums are sums of 64-bit norms, the two means, the total and what
/// remains of the budget all fit in 64 bits.
pub proof fn lemma_round_report_fits(before: Ledger, tally: RoundTally, epsilon: u64)
    requires
        before.in_range(),
        tally.wf(),
    ensures
        mean_norm(tally.sum_before as nat, tally.batches) <= u64::MAX,
        mean_norm(tally.sum_after as nat, tally.batches) <= u64::MAX,
        ledger_after_round(before, tally.batches, epsilon).in_range(),
        ledger_after_round(before, tally.batches, epsilon).remaining() <= u64::MAX,
{
    lemma_mean_fits(tally.sum_before as nat, tally.batches);
    lemma_mean_fits(tally.sum_after as nat, tally.batches);
}

/// The norms of a gradient before and after it is sanitised with the noise
/// at hand, or nothing if it is not sanitised: because it is empty, or because
/// there is no noise that holds one value for each of its components.
pub open spec fn batch_norms(gradient: Seq<i32>, bound: nat, noise: Option<Seq<i32>>) -> Option<
    (u64, u64),
> {
    match noise {
        Some(values) => if gradient.len() > 0 && values.len() == gradient.len() {
            Some(
                (
                    norm_of(gradient) as u64,
                    norm_of(privatized(gradient, bound, values)) as u64,
                ),
            )
        } else {
            None
        },
        None => None,
    }
}

/// The noise for the batch `i` of a round, if there is any.
pub open spec fn noise_at(noise: Seq<Vec<i32>>, i: int) -> Option<Seq<i32>> {
    if 0 <= i < noise.len() {
        Some(noise[i]@)
    } else {
        None
    }
}

/// The tally of a round after the first `upto` of the gradients `gradients`,
/// where gradient `i` has the noise `noise[i]`: every gradient that is
/// sanitised is counted with its two norms until `limit` are counted.
pub open spec fn tally_of(
    gradients: Seq<Seq<i32>>,
    noise: Seq<Vec<i32>>,
    limit: u32,
    bound: nat,
    upto: int,
) -> RoundTally
    decreases upto,
{
    if upto <= 0 {
        RoundTally::zero()
    } else {
        tally_of(gradients, noise, limit, bound, upto - 1).recorded(
            batch_norms(gradients[upto - 1], bound, noise_at(noise, upto - 1)),
            limit,
        )
    }
}

/// The tally of a round over the gradients `gradients`.
pub open spec fn round_tally(
    gradients: Seq<Seq<i32>>,
    noise: Seq<Vec<i32>>,
    limit: u32,
    bound: nat,
) -> RoundTally {
    tally_of(gradients, noise, limit, bound, gradients.len() as int)
}

/// Sanitises the gradient of one batch, in place: clips it, then adds the
/// noise to the clipped gradient.
///
/// A gradient is sanitised if it is not empty and the noise holds one value
/// for each of its components; then the norms before and after are returned.
/// Any other gradient is left alone and nothing is returned.
pub fn sanitize_batch(engine: &DPEngine, gradients: &mut Vec<i32>, noise: &Vec<i32>) -> (norms:
    Option<(u64, u64)>)
    ensures
        norms is Some <==> old(gradients)@.len() > 0 && noise@.len() == old(gradients)@.len(),
        norms == batch_norms(
            old(gradients)@,
            engine.settings().max_grad_norm as nat,
            Some(noise@),
        ),
        final(gradients)@ == privatized(
            old(gradients)@,
            engine.settings().max_grad_norm as nat,
            noise@,
        ),
{
    if gradients.len() == 0 || noise.len() != gradients.len() {
        return None;
    }
    let before: u64 = l2_norm(gradients);
    let done = engine.privatize_gradients(gradients, noise);
    let after: u64 = l2_norm(gradients);
    Some((before, after))
}

/// Whether a step may run: the budget is not used up, the gradient is not
/// empty and has one component per parameter of the model, and the noise holds
/// one value per component.
pub fn step_admissible(
    budget_exhausted: bool,
    gradient_len: usize,
    noise_len: usize,
    params_len: usize,
) -> (ok: bool)
    ensures
        ok == (!budget_exhausted && gradient_len > 0 && gradient_len == params_len && noise_len
            == gradient_len),
{
    !budget_exhausted && gradient_len > 0 && gradient_len == params_len && noise_len
        == gradient_len
}

/// The running totals with `batches` more batches counted, stopping at the
/// top of the range.
pub open spec fn with_batches(before: TrainerStats, batches: u32) -> TrainerStats {
    TrainerStats {
        total_batches: if before.total_batches + batches > u64::MAX {
            u64::MAX
        } else {
            (before.total_batches + batches) as u64
        },
        ..before
    }
}

/// `index + 1`, stopping at `u32::MAX`.
pub open spec fn next_index(index: u32) -> u32 {
    if index == u32::MAX {
        index
    } else {
        (index + 1) as u32
    }
}

/// Trainer that sanitises every gradient before the model sees it.
pub struct DpTrainer<M: DpOptimizable> {
    model: M,
    cfg: DpTrainingConfig,
    dp_engine: DPEngine,
    accountant: PrivacyAccountant,
    stats: TrainerStats,
    next_round_index: u32,
}

impl<M: DpOptimizable> DpTrainer<M> {
    /// The settings of the session.
    pub closed spec fn config(&self) -> DpTrainingConfig {
        self.cfg
    }

    /// The ledger of the trainer's accountant.
    pub closed spec fn ledger(&self) -> Ledger {
        self.accountant@
    }

    /// The running totals.
    pub closed spec fn totals(&self) -> TrainerStats {
        self.stats
    }

    /// The index that the next round gets.
    pub closed spec fn next_round(&self) -> u32 {
        self.next_round_index
    }

    /// The sanitisation engine.
    pub closed spec fn engine(&self) -> DPEngine {
        self.dp_engine
    }

    /// The model, as the trainer holds it.
    pub closed spec fn held_model(&self) -> M {
        self.model
    }

    /// The ledger of a trainer is always in range.
    pub proof fn lemma_ledger_in_range(&self)
        ensures
            self.ledger().in_range(),
    {
        self.accountant.lemma_in_range();
    }

    /// A trainer for `model` whose generator starts from `seed`.
    ///
    /// Nothing is spent yet. The accountant's budget is the configured one, or
    /// half of the whole range where the configured budget is zero.
    pub fn new(model: M, cfg: DpTrainingConfig, seed: u64) -> (t: Self)
        ensures
            t.config() == cfg,
            t.held_model() == model,
            t.ledger() == Ledger::fresh(cfg.effective_budget() as nat),
            t.totals() == (TrainerStats { rounds_completed: 0, total_batches: 0, total_epsilon: 0 }),
            t.next_round() == 0,
            t.engine().settings() == cfg.dp,
            t.engine().rng() == seed,
    {
        let accountant = if cfg.epsilon_budget > 0 {
            PrivacyAccountant::new(cfg.epsilon_budget)
        } else {
            PrivacyAccountant::new(u64::MAX / 2)
        };
        DpTrainer {
            model,
            cfg,
            dp_engine: DPEngine::with_seed(cfg.dp, seed),
            accountant,
            stats: TrainerStats::new(),
            next_round_index: 0,
        }
    }

    /// The model.
    pub fn model(&self) -> (m: &M)
        ensures
            *m == self.held_model(),
    {
        &self.model
    }

    /// Gives the model back and ends the session.
    pub fn into_inner(self) -> (m: M)
        ensures
            m == self.held_model(),
    {
        self.model
    }

    /// The running totals.
    pub fn stats(&self) -> (s: &TrainerStats)
        ensures
            *s == self.totals(),
    {
        &self.stats
    }

    /// The settings of the session.
    pub fn settings(&self) -> (c: &DpTrainingConfig)
        ensures
            *c == self.config(),
    {
        &self.cfg
    }

    /// Whether the privacy budget is used up.
    pub fn is_budget_exhausted(&self) -> (b: bool)
        ensures
            b == self.ledger().exhausted(),
    {
        self.accountant.is_budget_exhausted()
    }

    /// Draws the uniform numbers for `count` noise values from the trainer's
    /// generator: two steps for each. Nothing else of the trainer changes.
    pub fn draw_uniform(&mut self, count: usize) -> (pairs: Vec<(u64, u64)>)
        ensures
            pairs@ == uniform_pairs(old(self).engine().rng(), count as nat),
            final(self).engine().rng() == lcg_advance(old(self).engine().rng(), 2 * count as nat),
            final(self).engine().settings() == old(self).engine().settings(),
            final(self).held_model() == old(self).held_model(),
            final(self).config() == old(self).config(),
            final(self).ledger() == old(self).ledger(),
            final(self).totals() == old(self).totals(),
            final(self).next_round() == old(self).next_round(),
    {
        self.dp_engine.draw_uniform(count)
    }

    /// Runs one round over `batches`, with `noise[i]` as the noise for the
    /// gradient of `batches[i]`.
    ///
    /// With the budget used up at entry the round fails and nothing changes,
    /// the model included. Otherwise the round takes the next index and goes
    /// through the batches in order until the limit of the settings is
    /// reached. A batch is processed if its gradient is not empty and its
    /// noise holds one value per component: the gradient is clipped, the
    /// noise is added, and the model is updated with the result. Any other
    /// batch is skipped and not counted. A round that processed no batch is
    /// free and leaves the accountant alone; any other is charged the ε of one
    /// round, once, after its last batch. The generator is not touched.
    ///
    /// The gradients are the model's. Whatever they are, the report is the
    /// one of the tally over the gradients that the round has seen: one for
    /// each batch, unless the limit was reached before the last batch.
    pub fn train_round(&mut self, batches: Vec<M::Batch>, noise: &Vec<Vec<i32>>) -> (result: Result<
        RoundStats,
        TrainError,
    >)
        ensures
            old(self).ledger().exhausted() <==> result is Err,
            result is Err ==> result == Err::<RoundStats, TrainError>(
                TrainError::PrivacyBudgetExhausted,
            ) && *final(self) == *old(self),
            result is Ok ==> ({
                let report = result->Ok_0;
                let n = report.batches_processed;
                let epsilon = old(self).config().epsilon_per_round;
                &&& n <= batches@.len()
                &&& n <= noise@.len()
                &&& n <= old(self).config().batch_limit()
                &&& exists|seen: Seq<Seq<i32>>|
                    round_is(
                        report,
                        old(self).ledger(),
                        old(self).next_round(),
                        epsilon,
                        batches@.len(),
                        #[trigger] round_tally(
                            seen,
                            noise@,
                            old(self).config().batch_limit(),
                            old(self).engine().settings().max_grad_norm as nat,
                        ),
                        seen.len(),
                        old(self).config().batch_limit(),
                    )
                &&& final(self).ledger() == ledger_after_round(old(self).ledger(), n, epsilon)
                &&& final(self).totals() == stats_after_round(
                    with_batches(old(self).totals(), n),
                    n,
                    final(self).ledger().total as u64,
                )
                &&& final(self).next_round() == next_index(old(self).next_round())
                &&& final(self).config() == old(self).config()
                &&& final(self).engine() == old(self).engine()
                &&& batches@.len() == 0 ==> final(self).held_model() == old(self).held_model()
            }),
    {
        if self.accountant.is_budget_exhausted() {
            return Err(TrainError::PrivacyBudgetExhausted);
        }
        let round_index: u32 = self.next_round_index;
        self.next_round_index = self.next_round_index.saturating_add(1);

        let mut tally = RoundTally::new();
        let max_batches: u32 = match self.cfg.max_batches_per_round {
            Some(limit) => limit,
            None => u32::MAX,
        };

        let ghost bound = self.dp_engine.settings().max_grad_norm as nat;
        let ghost mut seen: Seq<Seq<i32>> = Seq::empty();
        let mut i: usize = 0;
        while i < batches.len() && tally.batches < max_batches
            invariant
                i <= batches@.len(),
                seen.len() == i,
                tally == tally_of(seen, noise@, max_batches, bound, i as int),
                bound == old(self).engine().settings().max_grad_norm,
                tally.wf(),
                tally.batches <= i,
                tally.batches <= noise@.len(),
                tally.batches <= max_batches,
                max_batches == old(self).config().batch_limit(),
                self.cfg == old(self).cfg,
                self.accountant == old(self).accountant,
                self.dp_engine == old(self).dp_engine,
                self.next_round_index == next_index(old(self).next_round_index),
                self.stats == with_batches(old(self).stats, tally.batches),
                i == 0 ==> self.model == old(self).model,
            decreases batches@.len() - i,
        {
            let mut gradients: Vec<i32> = self.model.compute_gradients(&batches[i]);
            proof {
                let before = seen;
                seen = seen.push(gradients@);
                lemma_tally_of_prefix(before, seen, noise@, max_batches, bound, i as int);
            }
            let norms: Option<(u64, u64)> = if i < noise.len() {
                sanitize_batch(&self.dp_engine, &mut gradients, &noise[i])
            } else {
                None
            };
            if tally.record(norms, max_batches) {
                self.model.apply_gradients(&gradients, self.cfg.learning_rate);
                self.stats.total_batches = self.stats.total_batches.saturating_add(1);
            }
            i = i + 1;
        }

        let report = close_round(
            &mut self.accountant,
            &mut self.stats,
            round_index,
            &tally,
            self.cfg.epsilon_per_round,
        );
        proof {
            assert(tally == round_tally(seen, noise@, max_batches, bound));
        }
        Ok(report)
    }

    /// Runs one step on a gradient that the caller computed, with `noise` as
    /// its noise.
    ///
    /// Nothing is returned and nothing changes when the budget is already used
    /// up, when the gradient is empty, when the noise does not hold one value
    /// per component, or when the length of the gradient is not the model's
    /// parameter count. Otherwise the gradient is clipped and noised, the
    /// model is updated with it, the step is charged the ε of one round, and
    /// the report of a round of one batch is returned.
    pub fn train_step(&mut self, raw_gradients: Vec<i32>, noise: &Vec<i32>) -> (result: Option<
        RoundStats,
    >)
        ensures
            old(self).ledger().exhausted() || raw_gradients@.len() == 0 || noise@.len()
                != raw_gradients@.len() ==> result is None,
            result is None ==> *final(self) == *old(self),
            result is Some ==> step_done(*old(self), *final(self), raw_gradients@, noise@, result->0),
    {
        let exhausted: bool = self.accountant.is_budget_exhausted();
        if exhausted || raw_gradients.len() == 0 || noise.len() != raw_gradients.len() {
            return None;
        }
        let params_len: usize = self.model.params_len();
        self.train_step_given(raw_gradients, noise, params_len)
    }

    /// Runs one step on a gradient, given the parameter count of the model.
    ///
    /// The step runs exactly when the budget is not used up, the gradient is
    /// not empty and has `params_len` components, and the noise holds one
    /// value per component; otherwise nothing is returned and nothing changes.
    /// A step that runs clips the gradient, adds the noise to the clipped
    /// gradient, updates the model with the result, charges the ε of one
    /// round, and reports the norms of the gradient before and after.
    pub fn train_step_given(
        &mut self,
        raw_gradients: Vec<i32>,
        noise: &Vec<i32>,
        params_len: usize,
    ) -> (result: Option<RoundStats>)
        ensures
            result is Some <==> !old(self).ledger().exhausted() && raw_gradients@.len() > 0
                && raw_gradients@.len() == params_len && noise@.len() == raw_gradients@.len(),
            result is None ==> *final(self) == *old(self),
            result is Some ==> step_done(*old(self), *final(self), raw_gradients@, noise@, result->0),
    {
        let exhausted: bool = self.accountant.is_budget_exhausted();
        if !step_admissible(exhausted, raw_gradients.len(), noise.len(), params_len) {
            return None;
        }
        let round_index: u32 = self.next_round_index;
        self.next_round_index = self.next_round_index.saturating_add(1);

        let mut gradients = raw_gradients;
        let mut tally = RoundTally::new();
        let norms = sanitize_batch(&self.dp_engine, &mut gradients, noise);
        let counted = tally.record(norms, 1);
        self.model.apply_gradients(&gradients, self.cfg.learning_rate);
        self.stats.total_batches = self.stats.total_batches.saturating_add(1);
        proof {
            lemma_norm_fits(raw_gradients@);
            lemma_norm_fits(gradients@);
        }
        let report = close_round(
            &mut self.accountant,
            &mut self.stats,
            round_index,
            &tally,
            self.cfg.epsilon_per_round,
        );
        Some(report)
    }
}

/// Whether `report` is the report of a round over `batches` batches that has
/// seen the gradients of the first `seen` of them, with `tally` as the tally
/// over those gradients: the round has seen every batch unless it reached the
/// limit before, and the report is the one of the tally.
pub open spec fn round_is(
    report: RoundStats,
    before: Ledger,
    round_index: u32,
    epsilon: u64,
    batches: nat,
    tally: RoundTally,
    seen: nat,
    limit: u32,
) -> bool {
    &&& seen <= batches
    &&& tally.batches < limit ==> seen == batches
    &&& tally.wf()
    &&& report == round_report(
        before,
        round_index,
        tally.batches,
        tally.sum_before as nat,
        tally.sum_after as nat,
        epsilon,
    )
}

/// The number of gradients among the first `upto` that are sanitised: those
/// that are not empty and have noise of their length.
pub open spec fn sanitised_in(
    gradients: Seq<Seq<i32>>,
    noise: Seq<Vec<i32>>,
    bound: nat,
    upto: int,
) -> nat
    decreases upto,
{
    if upto <= 0 {
        0
    } else {
        sanitised_in(gradients, noise, bound, upto - 1) + if batch_norms(
            gradients[upto - 1],
            bound,
            noise_at(noise, upto - 1),
        ) is Some {
            1nat
        } else {
            0nat
        }
    }
}

/// The number of batches that a tally counts is the number of sanitised
/// gradients or the limit, whichever is smaller, and its sums are sums of
/// 64-bit norms.
pub proof fn lemma_tally_counts(
    gradients: Seq<Seq<i32>>,
    noise: Seq<Vec<i32>>,
    limit: u32,
    bound: nat,
    upto: int,
)
    ensures
        tally_of(gradients, noise, limit, bound, upto).batches == if sanitised_in(
            gradients,
            noise,
            bound,
            upto,
        ) < limit {
            sanitised_in(gradients, noise, bound, upto)
        } else {
            limit as nat
        },
        tally_of(gradients, noise, limit, bound, upto).wf(),
    decreases upto,
{
    if upto > 0 {
        lemma_tally_counts(gradients, noise, limit, bound, upto - 1);
        let before = tally_of(gradients, noise, limit, bound, upto - 1);
        assert((before.batches + 1) * u64::MAX == before.batches * u64::MAX + u64::MAX)
            by (nonlinear_arith);
    }
}

/// The tally over the first gradients does not depend on the later ones.
pub proof fn lemma_tally_of_prefix(
    shorter: Seq<Seq<i32>>,
    longer: Seq<Seq<i32>>,
    noise: Seq<Vec<i32>>,
    limit: u32,
    bound: nat,
    upto: int,
)
    requires
        0 <= upto <= shorter.len() <= longer.len(),
        forall|k: int| 0 <= k < shorter.len() ==> shorter[k] == longer[k],
    ensures
        tally_of(shorter, noise, limit, bound, upto) == tally_of(longer, noise, limit, bound, upto),
    decreases upto,
{
    if upto > 0 {
        lemma_tally_of_prefix(shorter, longer, noise, limit, bound, upto - 1);
    }
}

/// What a step that ran has done: the report is that of a round of one batch,
/// with the norm of the raw gradient before and the norm of the clipped and
/// noised gradient after; the ledger is charged once; the totals count one
/// more batch and one more round; the round index has moved on; settings and
/// engine are as they were.
pub open spec fn step_done<M: DpOptimizable>(
    before: DpTrainer<M>,
    after: DpTrainer<M>,
    raw: Seq<i32>,
    noise: Seq<i32>,
    report: RoundStats,
) -> bool {
    let epsilon = before.config().epsilon_per_round;
    &&& report == round_report(
        before.ledger(),
        before.next_round(),
        1,
        norm_of(raw),
        norm_of(privatized(raw, before.engine().settings().max_grad_norm as nat, noise)),
        epsilon,
    )
    &&& after.ledger() == before.ledger().record(epsilon as nat)
    &&& after.totals() == stats_after_round(
        with_batches(before.totals(), 1),
        1,
        after.ledger().total as u64,
    )
    &&& after.next_round() == next_index(before.next_round())
    &&& after.config() == before.config()
    &&& after.engine() == before.engine()
}

/// A round over no batches processes none, charges nothing and leaves the
/// ledger as it was.
pub proof fn lemma_empty_round_is_free(before: Ledger, round_index: u32, epsilon: u64)
    ensures
        ledger_after_round(before, 0, epsilon) == before,
        round_report(before, round_index, 0, 0, 0, epsilon).batches_processed == 0,
        round_report(before, round_index, 0, 0, 0, epsilon).epsilon_spent == 0,
        before.total <= u64::MAX ==> round_report(before, round_index, 0, 0, 0, epsilon).epsilon_total
            == before.total,
{
}

} // verus!
