//! The tick loop of a node, as a state machine.
//!
//! A tick has two halves. At its start the throttle refreshes its
//! configuration, the scheduler plans, and the plan is cut down to what may
//! run: Critical work always, everything else only while the throttle allows
//! background work, training only on heavy nodes and only while privacy
//! budget is left. At its end the latency of the tick goes to the throttle.
//! What happens in between, the work itself, is the caller's part.

use crate::adaptive_throttle::{AdaptiveThrottle, ThrottleConfig, ThrottleLevel, ThrottleState};
use crate::differential_privacy::DPConfig;
use crate::node_profile::{HardwareCapabilities, NodeProfile, NodeProfileDetector, RawReadings};
use crate::policy_core::PolicyCore;
use crate::scheduler::{planned_tasks, Lane, PriorityScheduler, SchedulerConfig, TaskKind};
use vstd::prelude::*;

verus! {

/// Settings of the federated part of a node.
#[derive(Debug, Clone)]
pub struct FederatedConfig {
    /// Whether the node takes part in federated training.
    pub enabled: bool,
    /// Address of the federated server, if one is configured.
    pub endpoint: Option<String>,
}

impl FederatedConfig {
    /// Whether federated training is on where the settings do not say.
    pub fn default_enabled() -> (b: bool)
        ensures
            b,
    {
        true
    }
}

impl Default for FederatedConfig {
    /// Federated training on, no server configured.
    fn default() -> (c: Self)
        ensures
            c.enabled,
            c.endpoint is None,
    {
        FederatedConfig { enabled: true, endpoint: None }
    }
}

/// Settings of the policy of a node.
#[derive(Debug, Clone, Copy, PartialEq, Eq, Structural)]
pub struct PolicyConfig {
    /// Whether the policy is strict.
    pub strict_mode: bool,
}

impl Default for PolicyConfig {
    /// A lenient policy.
    fn default() -> (c: Self)
        ensures
            !c.strict_mode,
    {
        PolicyConfig { strict_mode: false }
    }
}

/// Settings of a node, as its configuration file gives them.
#[derive(Debug, Clone)]
pub struct NodeConfig {
    /// Directory of the node's persistent data.
    pub data_dir: String,
    /// Path of the global model.
    pub model_path: String,
    /// Tier to use in place of the detected one, if any.
    pub profile_override: Option<NodeProfile>,
    /// Settings of the federated part.
    pub federated: FederatedConfig,
    /// Settings of the policy.
    pub policy: PolicyConfig,
}

impl NodeConfig {
    /// The tier the node runs as: the configured one, else the one that the
    /// hardware readings stand for.
    pub fn effective_profile(&self, readings: &RawReadings) -> (p: NodeProfile)
        ensures
            p == match self.profile_override {
                Some(profile) => profile,
                None => HardwareCapabilities::of_raw(*readings).classify_spec(),
            },
    {
        match self.profile_override {
            Some(profile) => profile,
            None => NodeProfileDetector::detect(readings),
        }
    }
}

/// Runtime settings of the orchestrator.
#[derive(Debug, Clone, Copy, PartialEq, Eq, Structural)]
pub struct RuntimeConfig {
    /// Privacy parameters of the local trainer.
    pub dp: DPConfig,
    /// Number of ticks between two snapshots.
    pub snapshot_interval_ticks: u64,
    /// Number of ticks between two update checks.
    pub update_interval_ticks: u64,
}

impl Default for RuntimeConfig {
    /// Balanced privacy, a snapshot every 10000 ticks and an update check
    /// every 50000.
    fn default() -> (c: Self)
        ensures
            c == (RuntimeConfig {
                dp: DPConfig { epsilon: 1_000_000, delta: 10_000_000, max_grad_norm: 1_000_000 },
                snapshot_interval_ticks: 10_000,
                update_interval_ticks: 50_000,
            }),
    {
        RuntimeConfig {
            dp: DPConfig::moderate(),
            snapshot_interval_ticks: 10_000,
            update_interval_ticks: 50_000,
        }
    }
}

/// Local state of federated learning.
#[derive(Debug, Clone, Copy, PartialEq, Eq, Structural)]
pub struct FederatedState {
    training_enabled: bool,
}

impl FederatedState {
    /// Whether local training is on.
    pub closed spec fn enabled(&self) -> bool {
        self.training_enabled
    }

    /// A state with local training on.
    pub fn new() -> (s: Self)
        ensures
            s.enabled(),
    {
        FederatedState { training_enabled: true }
    }

    /// Whether local training is on.
    pub fn is_training_enabled(&self) -> (b: bool)
        ensures
            b == self.enabled(),
    {
        self.training_enabled
    }

    /// Whether a delta is due for submission. The local state holds none, so
    /// none is ever due.
    pub fn should_submit_delta(&self) -> (b: bool)
        ensures
            !b,
    {
        false
    }

    /// Switches local training off.
    pub fn disable_training(&mut self)
        ensures
            !final(self).enabled(),
    {
        self.training_enabled = false;
    }
}

/// A delta of the local model, as it is sent to the federated server.
#[derive(Debug, Clone, Copy, PartialEq, Eq, Structural)]
pub struct DeltaMessage {}

/// Address book of the federated network: who this node is and where it sends.
#[derive(Debug, Clone)]
pub struct NetClient {
    id: [u8; 32],
    endpoint: Option<String>,
}

impl NetClient {
    /// The identity of the node.
    pub closed spec fn node_id(&self) -> [u8; 32] {
        self.id
    }

    /// The address of the federated server, if one is set.
    pub closed spec fn server(&self) -> Option<String> {
        self.endpoint
    }

    /// A client for the node `id`, without a server.
    pub fn new(id: [u8; 32]) -> (c: Self)
        ensures
            c.node_id() == id,
            c.server() is None,
    {
        NetClient { id, endpoint: None }
    }

    /// Sets the address of the federated server.
    pub fn set_endpoint(&mut self, endpoint: String)
        ensures
            final(self).server() == Some(endpoint),
            final(self).node_id() == old(self).node_id(),
    {
        self.endpoint = Some(endpoint);
    }

    /// The address of the federated server, if one is set.
    pub fn endpoint(&self) -> (e: &Option<String>)
        ensures
            *e == self.server(),
    {
        &self.endpoint
    }
}

/// Applies the settings of a node to its policy, its federated state and its
/// network client: a strict policy is switched on, federated training is
/// switched off where the settings say so, and the server address is set where
/// one is configured.
pub fn apply_config(
    config: &NodeConfig,
    policy: &mut PolicyCore,
    federated: &mut FederatedState,
    net: &mut NetClient,
)
    ensures
        final(policy).strict() == (old(policy).strict() || config.policy.strict_mode),
        final(federated).enabled() == (old(federated).enabled() && config.federated.enabled),
        final(net).node_id() == old(net).node_id(),
        final(net).server() == match config.federated.endpoint {
            Some(endpoint) => Some(endpoint),
            None => old(net).server(),
        },
{
    if config.policy.strict_mode {
        policy.enable_strict_mode();
    }
    if !config.federated.enabled {
        federated.disable_training();
    }
    match &config.federated.endpoint {
        Some(endpoint) => {
            net.set_endpoint(endpoint.clone());
        },
        None => {},
    }
}

/// Whether a planned task may run in this tick.
///
/// Critical work always runs. Everything else needs the throttle's leave.
/// Training, delta handling and metrics sampling run on heavy nodes only, and
/// training needs privacy budget.
pub open spec fn admitted(task: TaskKind, gate: bool, heavy: bool, budget_left: bool) -> bool {
    match task.lane_spec() {
        Lane::Critical => true,
        Lane::Normal => gate && heavy && (task == TaskKind::LocalTraining ==> budget_left),
        Lane::Background => gate && (task == TaskKind::MetricsSampling ==> heavy),
    }
}

/// The tasks among the first `upto` of a plan that may run, in plan order.
pub open spec fn admitted_in(
    plan: Seq<TaskKind>,
    upto: int,
    gate: bool,
    heavy: bool,
    budget_left: bool,
) -> Seq<TaskKind>
    decreases upto,
{
    if upto <= 0 {
        Seq::<TaskKind>::empty()
    } else {
        let before = admitted_in(plan, upto - 1, gate, heavy, budget_left);
        if admitted(plan[upto - 1], gate, heavy, budget_left) {
            before.push(plan[upto - 1])
        } else {
            before
        }
    }
}

/// The tasks of a plan that may run, in plan order.
pub open spec fn admitted_tasks(plan: Seq<TaskKind>, gate: bool, heavy: bool, budget_left: bool) -> Seq<
    TaskKind,
> {
    admitted_in(plan, plan.len() as int, gate, heavy, budget_left)
}

/// Whether a planned task may run in this tick.
pub fn admits(task: TaskKind, gate: bool, heavy: bool, budget_left: bool) -> (b: bool)
    ensures
        b == admitted(task, gate, heavy, budget_left),
{
    match task.lane() {
        Lane::Critical => true,
        Lane::Normal => {
            let training: bool = match task {
                TaskKind::LocalTraining => true,
                _ => false,
            };
            gate && heavy && (!training || budget_left)
        },
        Lane::Background => {
            let sampling: bool = match task {
                TaskKind::MetricsSampling => true,
                _ => false,
            };
            gate && (!sampling || heavy)
        },
    }
}

/// The number of batches of a training round at a given intensity, where
/// `most` is the number at full intensity: none if `most` is zero, else one
/// plus the share of the remaining `most - 1` that the intensity allows. An
/// intensity above one counts as one.
pub open spec fn batches_at(intensity: u32, most: usize) -> nat {
    if most == 0 {
        0
    } else if intensity >= 1_000_000 {
        most as nat
    } else {
        (1 + (intensity as nat * (most - 1) as nat) / 1_000_000) as nat
    }
}

/// The number of batches of a training round at a given intensity, in
/// millionths, where `most` is the number at full intensity.
pub fn batches_for(intensity: u32, most: usize) -> (n: usize)
    ensures
        n == batches_at(intensity, most),
        n <= most,
        most > 0 ==> n >= 1,
{
    if most == 0 {
        return 0;
    }
    if intensity >= 1_000_000 {
        return most;
    }
    let rest: u128 = (most - 1) as u128;
    assert(intensity as u128 * rest <= 1_000_000 * rest) by (nonlinear_arith)
        requires
            intensity < 1_000_000,
            rest >= 0,
    ;
    let share: u128 = (intensity as u128 * rest) / 1_000_000;
    assert(share <= rest);
    1 + share as usize
}

/// Cuts a plan down to the tasks that may run, keeping their order.
pub fn runnable(plan: &Vec<TaskKind>, gate: bool, heavy: bool, budget_left: bool) -> (tasks: Vec<
    TaskKind,
>)
    ensures
        tasks@ == admitted_tasks(plan@, gate, heavy, budget_left),
{
    let mut tasks: Vec<TaskKind> = Vec::new();
    let mut i: usize = 0;
    while i < plan.len()
        invariant
            i <= plan@.len(),
            tasks@ == admitted_in(plan@, i as int, gate, heavy, budget_left),
        decreases plan@.len() - i,
    {
        if admits(plan[i], gate, heavy, budget_left) {
            tasks.push(plan[i]);
        }
        i = i + 1;
    }
    tasks
}

/// What a tick may do.
#[derive(Debug, Clone)]
pub struct TickActions {
    /// Index of the tick.
    pub tick: u64,
    /// The tasks that may run, in priority order.
    pub tasks: Vec<TaskKind>,
    /// Share of the tick that work may take, in millionths.
    pub budget: u32,
    /// Intensity at which background work may run, in millionths.
    pub intensity: u32,
    /// Level of the throttle.
    pub level: ThrottleLevel,
}

/// What is reported of a finished tick.
#[derive(Debug, Clone, Copy, PartialEq, Eq, Structural)]
pub struct TickMetrics {
    /// Number of ticks finished so far.
    pub tick: u64,
    /// Latency of the tick, in millionths of a millisecond.
    pub duration: u64,
    /// Level of the throttle after the tick.
    pub throttle_level: ThrottleLevel,
    /// Intensity of background work after the tick, in millionths.
    pub background_intensity: u32,
    /// Tier of the node.
    pub profile: NodeProfile,
}

/// The deciding part of a node: tier, throttle, scheduler and tick counter.
#[derive(Debug)]
pub struct NodeRuntime {
    profile: NodeProfile,
    throttle: AdaptiveThrottle,
    scheduler: PriorityScheduler,
    tick_counter: u64,
}

impl NodeRuntime {
    /// The tier of the node.
    pub closed spec fn tier(&self) -> NodeProfile {
        self.profile
    }

    /// The state of the throttle.
    pub closed spec fn throttle_state(&self) -> ThrottleState {
        self.throttle@
    }

    /// Number of ticks finished so far, modulo 2^64.
    pub closed spec fn ticks(&self) -> u64 {
        self.tick_counter
    }

    /// Number of ticks planned so far, modulo 2^64.
    pub closed spec fn planned(&self) -> u64 {
        self.scheduler.ticks()
    }

    /// Throttle and scheduler are well formed, and the scheduler has the
    /// default settings.
    pub closed spec fn wf(&self) -> bool {
        &&& self.throttle.wf()
        &&& self.scheduler.wf()
        &&& self.scheduler.config() == SchedulerConfig::standard()
    }

    /// A runtime for a node of the given tier, with the throttle preset of
    /// that tier and the default scheduler.
    pub fn new(profile: NodeProfile) -> (r: Self)
        ensures
            r.wf(),
            r.tier() == profile,
            r.throttle_state() == ThrottleState::initial(ThrottleConfig::for_profile_spec(profile)),
            r.ticks() == 0,
            r.planned() == 0,
    {
        NodeRuntime {
            profile,
            throttle: AdaptiveThrottle::with_config(ThrottleConfig::for_profile(&profile)),
            scheduler: PriorityScheduler::new(),
            tick_counter: 0,
        }
    }

    /// Starts a tick: refreshes the throttle's configuration, plans the tick
    /// and cuts the plan down to what may run.
    ///
    /// `budget_exhausted` says whether the trainer's privacy budget is used up.
    pub fn begin_tick(&mut self, budget_exhausted: bool) -> (actions: TickActions)
        requires
            old(self).wf(),
        ensures
            final(self).wf(),
            final(self).tier() == old(self).tier(),
            final(self).ticks() == old(self).ticks(),
            final(self).throttle_state() == old(self).throttle_state().retuned(old(self).tier()),
            final(self).planned() == if old(self).planned() == u64::MAX {
                0
            } else {
                old(self).planned() + 1
            },
            actions.tick == old(self).ticks(),
            actions.tasks@ == admitted_tasks(
                planned_tasks(old(self).ticks()),
                old(self).throttle_state().level != ThrottleLevel::Survival,
                old(self).tier() == NodeProfile::HeavyGpu || old(self).tier()
                    == NodeProfile::HeavyCpu,
                !budget_exhausted,
            ),
            actions.budget == SchedulerConfig::standard().max_budget_per_tick,
            actions.intensity == old(self).throttle_state().intensity,
            actions.level == old(self).throttle_state().level,
    {
        self.throttle.update(&self.profile);
        let work = self.scheduler.schedule_tick(self.tick_counter);
        let tasks = runnable(
            &work.tasks,
            self.throttle.allow_background(),
            self.profile.is_heavy(),
            !budget_exhausted,
        );
        TickActions {
            tick: self.tick_counter,
            tasks,
            budget: work.budget,
            intensity: self.throttle.current_intensity(),
            level: self.throttle.current_level(),
        }
    }

    /// Ends a tick: hands its latency to the throttle, `elapsed` millionths of
    /// a second after the previous controller step, and counts the tick.
    pub fn end_tick(&mut self, latency: u64, elapsed: u64) -> (metrics: TickMetrics)
        requires
            old(self).wf(),
        ensures
            final(self).wf(),
            final(self).tier() == old(self).tier(),
            final(self).planned() == old(self).planned(),
            final(self).throttle_state() == old(self).throttle_state().observe(
                latency as int,
                elapsed as int,
            ),
            final(self).ticks() == if old(self).ticks() == u64::MAX {
                0
            } else {
                old(self).ticks() + 1
            },
            metrics == (TickMetrics {
                tick: final(self).ticks(),
                duration: latency,
                throttle_level: final(self).throttle_state().level,
                background_intensity: final(self).throttle_state().intensity as u32,
                profile: old(self).tier(),
            }),
    {
        self.throttle.record_tick_latency(latency, elapsed);
        self.tick_counter = self.tick_counter.wrapping_add(1);
        TickMetrics {
            tick: self.tick_counter,
            duration: latency,
            throttle_level: self.throttle.current_level(),
            background_intensity: self.throttle.current_intensity(),
            profile: self.profile,
        }
    }

    /// Changes the tier of the node. The throttle follows at the next tick.
    pub fn set_profile(&mut self, profile: NodeProfile)
        requires
            old(self).wf(),
        ensures
            final(self).wf(),
            final(self).tier() == profile,
            final(self).throttle_state() == old(self).throttle_state(),
            final(self).ticks() == old(self).ticks(),
            final(self).planned() == old(self).planned(),
    {
        self.profile = profile;
    }
}

/// Critical work is never cut: every Critical task of a plan is admitted,
/// whatever the throttle, the tier and the budget.
pub proof fn lemma_critical_always_runs(
    plan: Seq<TaskKind>,
    gate: bool,
    heavy: bool,
    budget_left: bool,
    i: int,
)
    requires
        0 <= i < plan.len(),
        plan[i].lane_spec() == Lane::Critical,
    ensures
        admitted_tasks(plan, gate, heavy, budget_left).contains(plan[i]),
{
    lemma_admitted_in_contains(plan, plan.len() as int, gate, heavy, budget_left, i);
}

/// An admitted task among the first `upto` of a plan is among what may run.
proof fn lemma_admitted_in_contains(
    plan: Seq<TaskKind>,
    upto: int,
    gate: bool,
    heavy: bool,
    budget_left: bool,
    i: int,
)
    requires
        0 <= i < upto <= plan.len(),
        admitted(plan[i], gate, heavy, budget_left),
    ensures
        admitted_in(plan, upto, gate, heavy, budget_left).contains(plan[i]),
    decreases upto,
{
    let now = admitted_in(plan, upto, gate, heavy, budget_left);
    let before = admitted_in(plan, upto - 1, gate, heavy, budget_left);
    if i == upto - 1 {
        assert(now == before.push(plan[i]));
        assert(now[now.len() - 1] == plan[i]);
    } else {
        lemma_admitted_in_contains(plan, upto - 1, gate, heavy, budget_left, i);
        let j = choose|j: int| 0 <= j < before.len() && before[j] == plan[i];
        assert(now[j] == plan[i]);
    }
}

/// Without the throttle's leave only Critical work runs.
pub proof fn lemma_survival_runs_critical_only(
    plan: Seq<TaskKind>,
    upto: int,
    heavy: bool,
    budget_left: bool,
    j: int,
)
    requires
        0 <= upto <= plan.len(),
        0 <= j < admitted_in(plan, upto, false, heavy, budget_left).len(),
    ensures
        admitted_in(plan, upto, false, heavy, budget_left)[j].lane_spec() == Lane::Critical,
    decreases upto,
{
    if upto > 0 {
        let before = admitted_in(plan, upto - 1, false, heavy, budget_left);
        if j < before.len() {
            lemma_survival_runs_critical_only(plan, upto - 1, heavy, budget_left, j);
        }
    }
}

/// Training never runs without privacy budget.
pub proof fn lemma_no_training_without_budget(plan: Seq<TaskKind>, upto: int, gate: bool, heavy: bool)
    requires
        0 <= upto <= plan.len(),
    ensures
        !admitted_in(plan, upto, gate, heavy, false).contains(TaskKind::LocalTraining),
    decreases upto,
{
    if upto > 0 {
        lemma_no_training_without_budget(plan, upto - 1, gate, heavy);
    }
}

} // verus!
