//! Three-lane priority scheduler.
//!
//! The scheduler is a planner, not a preemptive executor: once per tick it
//! announces which kinds of work are eligible, ordered Critical, then Normal,
//! then Background. Admission is decided by the tick index alone; whether the
//! node can afford the Normal and Background part is the throttle's business.
//! A FIFO queue per lane is offered to callers that push discrete task
//! instances instead.

use std::collections::VecDeque;
use vstd::prelude::*;

verus! {

/// One whole, in millionths: the unit of budgets and costs.
pub const UNIT: u32 = 1_000_000;

/// Local training is admitted on every tick that this number divides.
pub const TRAINING_PERIOD: u64 = 10;

/// Delta computation and submission are admitted on every tick that this number divides.
pub const DELTA_PERIOD: u64 = 100;

/// Metrics sampling is admitted on every tick that this number divides.
pub const METRICS_PERIOD: u64 = 1_000;

/// Snapshot creation is admitted on every tick that this number divides.
pub const SNAPSHOT_PERIOD: u64 = 10_000;

/// The update check is admitted on every tick that this number divides.
pub const UPDATE_PERIOD: u64 = 50_000;

/// Priority lane of a task.
#[derive(Debug, Clone, Copy, PartialEq, Eq, Hash, Structural)]
pub enum Lane {
    /// User inference, policy, delivery: always first.
    Critical,
    /// Local training and delta handling.
    Normal,
    /// Snapshots, metrics, updates: best effort.
    Background,
}

impl Lane {
    /// Position of the lane in a plan: smaller runs earlier.
    pub open spec fn rank(self) -> nat {
        match self {
            Lane::Critical => 0,
            Lane::Normal => 1,
            Lane::Background => 2,
        }
    }

    /// Static scheduling weight of the lane.
    pub open spec fn weight_spec(self) -> u32 {
        match self {
            Lane::Critical => 10,
            Lane::Normal => 5,
            Lane::Background => 1,
        }
    }

    /// Scheduling weight: Critical 10, Normal 5, Background 1.
    #[must_use]
    pub fn weight(&self) -> (w: u32)
        ensures
            w == self.weight_spec(),
    {
        match self {
            Lane::Critical => 10,
            Lane::Normal => 5,
            Lane::Background => 1,
        }
    }

    /// Whether the throttle may switch this lane off.
    #[must_use]
    pub fn is_background(&self) -> (b: bool)
        ensures
            b == (*self == Lane::Background),
    {
        match self {
            Lane::Background => true,
            _ => false,
        }
    }

    /// Name of the lane.
    #[must_use]
    pub fn as_str(&self) -> (s: &'static str)
        ensures
            s@ == match *self {
                Lane::Critical => "Critical"@,
                Lane::Normal => "Normal"@,
                Lane::Background => "Background"@,
            },
    {
        match self {
            Lane::Critical => "Critical",
            Lane::Normal => "Normal",
            Lane::Background => "Background",
        }
    }
}

/// Kind of a schedulable unit of work.
#[derive(Debug, Clone, Copy, PartialEq, Eq, Structural)]
pub enum TaskKind {
    /// Inference for a user request.
    UserInference,
    /// Policy evaluation of a model output.
    PolicyEvaluation,
    /// Delivery of the answer to the user.
    UserDelivery,
    /// One epoch of local, differentially private training.
    LocalTraining,
    /// Computation and compression of the federated delta.
    DeltaComputation,
    /// Submission of the delta.
    DeltaSubmission,
    /// Sampling of metrics.
    MetricsSampling,
    /// Creation of a model snapshot.
    SnapshotCreation,
    /// Check for binary updates.
    UpdateCheck,
    /// Application of an adaptive rule.
    AdrApplication,
}

impl TaskKind {
    /// The lane each kind belongs to.
    pub open spec fn lane_spec(self) -> Lane {
        match self {
            TaskKind::UserInference | TaskKind::PolicyEvaluation | TaskKind::UserDelivery =>
                Lane::Critical,
            TaskKind::LocalTraining | TaskKind::DeltaComputation | TaskKind::DeltaSubmission =>
                Lane::Normal,
            TaskKind::MetricsSampling
            | TaskKind::SnapshotCreation
            | TaskKind::UpdateCheck
            | TaskKind::AdrApplication => Lane::Background,
        }
    }

    /// Approximate cost of each kind, in millionths of a tick.
    pub open spec fn cost_spec(self) -> u32 {
        match self {
            TaskKind::UserInference => 300_000,
            TaskKind::PolicyEvaluation => 50_000,
            TaskKind::UserDelivery => 10_000,
            TaskKind::LocalTraining => 800_000,
            TaskKind::DeltaComputation => 200_000,
            TaskKind::DeltaSubmission => 100_000,
            TaskKind::MetricsSampling => 20_000,
            TaskKind::SnapshotCreation => 400_000,
            TaskKind::UpdateCheck => 50_000,
            TaskKind::AdrApplication => 100_000,
        }
    }

    /// Lane of the task.
    #[must_use]
    pub fn lane(&self) -> (l: Lane)
        ensures
            l == self.lane_spec(),
    {
        match self {
            TaskKind::UserInference | TaskKind::PolicyEvaluation | TaskKind::UserDelivery => {
                Lane::Critical
            },
            TaskKind::LocalTraining | TaskKind::DeltaComputation | TaskKind::DeltaSubmission => {
                Lane::Normal
            },
            TaskKind::MetricsSampling
            | TaskKind::SnapshotCreation
            | TaskKind::UpdateCheck
            | TaskKind::AdrApplication => Lane::Background,
        }
    }

    /// Approximate cost of the task, in millionths of a tick; never more than one tick.
    #[must_use]
    pub fn cost(&self) -> (c: u32)
        ensures
            c == self.cost_spec(),
            c <= UNIT,
    {
        match self {
            TaskKind::UserInference => 300_000,
            TaskKind::PolicyEvaluation => 50_000,
            TaskKind::UserDelivery => 10_000,
            TaskKind::LocalTraining => 800_000,
            TaskKind::DeltaComputation => 200_000,
            TaskKind::DeltaSubmission => 100_000,
            TaskKind::MetricsSampling => 20_000,
            TaskKind::SnapshotCreation => 400_000,
            TaskKind::UpdateCheck => 50_000,
            TaskKind::AdrApplication => 100_000,
        }
    }
}

/// Sum of the costs of a sequence of tasks, in millionths of a tick.
pub open spec fn total_cost_of(tasks: Seq<TaskKind>) -> nat
    decreases tasks.len(),
{
    if tasks.len() == 0 {
        0
    } else {
        total_cost_of(tasks.drop_last()) + tasks.last().cost_spec() as nat
    }
}

/// The three Critical tasks, which every plan starts with.
pub open spec fn critical_set() -> Seq<TaskKind> {
    seq![TaskKind::UserInference, TaskKind::PolicyEvaluation, TaskKind::UserDelivery]
}

/// Normal-lane tasks admitted at a tick.
pub open spec fn normal_part(tick: u64) -> Seq<TaskKind> {
    (if tick % TRAINING_PERIOD == 0 {
        seq![TaskKind::LocalTraining]
    } else {
        Seq::<TaskKind>::empty()
    }) + (if tick % DELTA_PERIOD == 0 {
        seq![TaskKind::DeltaComputation, TaskKind::DeltaSubmission]
    } else {
        Seq::<TaskKind>::empty()
    })
}

/// Background-lane tasks admitted at a tick.
pub open spec fn background_part(tick: u64) -> Seq<TaskKind> {
    (if tick % SNAPSHOT_PERIOD == 0 {
        seq![TaskKind::SnapshotCreation]
    } else {
        Seq::<TaskKind>::empty()
    }) + (if tick % METRICS_PERIOD == 0 {
        seq![TaskKind::MetricsSampling]
    } else {
        Seq::<TaskKind>::empty()
    }) + (if tick % UPDATE_PERIOD == 0 {
        seq![TaskKind::UpdateCheck]
    } else {
        Seq::<TaskKind>::empty()
    })
}

/// The ordered plan of a tick: Critical, then Normal, then Background.
pub open spec fn planned_tasks(tick: u64) -> Seq<TaskKind> {
    critical_set() + normal_part(tick) + background_part(tick)
}

/// Whether any Background task is admitted at a tick.
pub open spec fn background_due(tick: u64) -> bool {
    tick % SNAPSHOT_PERIOD == 0 || tick % METRICS_PERIOD == 0 || tick % UPDATE_PERIOD == 0
}

/// Work plan of one tick.
#[derive(Debug, Clone)]
pub struct ScheduledWork {
    /// Tasks to run, in priority order.
    pub tasks: Vec<TaskKind>,
    /// Share of the tick that work may take, in millionths.
    pub budget: u32,
    /// Whether the plan holds Background work.
    pub background_active: bool,
}

impl ScheduledWork {
    /// A plan's budget is a fraction of one tick.
    pub open spec fn wf(&self) -> bool {
        self.budget <= UNIT
    }

    /// The plan without tasks and without budget.
    #[must_use]
    pub fn empty() -> (w: Self)
        ensures
            w.tasks@ == Seq::<TaskKind>::empty(),
            w.budget == 0,
            !w.background_active,
            w.wf(),
    {
        ScheduledWork { tasks: Vec::new(), budget: 0, background_active: false }
    }

    /// Whether the plan holds at least one task.
    #[must_use]
    pub fn has_work(&self) -> (b: bool)
        ensures
            b == (self.tasks@.len() > 0),
    {
        self.tasks.len() > 0
    }

    /// Number of tasks in the plan.
    #[must_use]
    pub fn task_count(&self) -> (n: usize)
        ensures
            n == self.tasks@.len(),
    {
        self.tasks.len()
    }

    /// Sum of the costs of the planned tasks, in millionths of a tick.
    #[must_use]
    pub fn total_cost(&self) -> (c: u128)
        ensures
            c == total_cost_of(self.tasks@),
    {
        let mut sum: u128 = 0;
        let mut i: usize = 0;
        while i < self.tasks.len()
            invariant
                i <= self.tasks@.len(),
                sum == total_cost_of(self.tasks@.take(i as int)),
                sum <= i * UNIT,
            decreases self.tasks@.len() - i,
        {
            let c: u32 = self.tasks[i].cost();
            proof {
                let next = self.tasks@.take(i + 1);
                assert(next.drop_last() == self.tasks@.take(i as int));
                assert(next.last() == self.tasks@[i as int]);
            }
            sum = sum + c as u128;
            i = i + 1;
        }
        proof {
            assert(self.tasks@.take(i as int) == self.tasks@);
        }
        sum
    }
}

/// Scheduler settings.
#[derive(Debug, Clone, Copy, PartialEq, Eq, Structural)]
pub struct SchedulerConfig {
    /// Weight of the Critical lane.
    pub critical_weight: u32,
    /// Weight of the Normal lane.
    pub normal_weight: u32,
    /// Weight of the Background lane.
    pub background_weight: u32,
    /// Largest share of a tick that a plan may claim, in millionths.
    pub max_budget_per_tick: u32,
}

impl SchedulerConfig {
    /// The budget is a fraction of one tick.
    pub open spec fn wf(&self) -> bool {
        self.max_budget_per_tick <= UNIT
    }

    /// The default settings: lane weights 10, 5 and 1, and nine tenths of a
    /// tick as budget.
    pub open spec fn standard() -> SchedulerConfig {
        SchedulerConfig {
            critical_weight: 10,
            normal_weight: 5,
            background_weight: 1,
            max_budget_per_tick: 900_000,
        }
    }

    /// Whether the settings are usable: the budget is at most one tick.
    #[must_use]
    pub fn is_valid(&self) -> (b: bool)
        ensures
            b == self.wf(),
    {
        self.max_budget_per_tick <= UNIT
    }
}

impl Default for SchedulerConfig {
    /// Lane weights 10, 5 and 1, and nine tenths of a tick as budget.
    fn default() -> (c: Self)
        ensures
            c == SchedulerConfig::standard(),
            c.wf(),
    {
        SchedulerConfig {
            critical_weight: 10,
            normal_weight: 5,
            background_weight: 1,
            max_budget_per_tick: 900_000,
        }
    }
}

/// Per-tick planner with one FIFO queue per lane.
#[derive(Debug)]
pub struct PriorityScheduler {
    config: SchedulerConfig,
    critical_queue: VecDeque<TaskKind>,
    normal_queue: VecDeque<TaskKind>,
    background_queue: VecDeque<TaskKind>,
    ticks_scheduled: u64,
    tasks_executed: u64,
}

/// Whether every task of a queue belongs to one lane.
pub open spec fn all_in_lane(queue: Seq<TaskKind>, lane: Lane) -> bool {
    forall|i: int| 0 <= i < queue.len() ==> (#[trigger] queue[i]).lane_spec() == lane
}

impl PriorityScheduler {
    /// The settings the scheduler was made with.
    pub closed spec fn config(&self) -> SchedulerConfig {
        self.config
    }

    /// Pending Critical tasks, oldest first.
    pub closed spec fn critical_pending(&self) -> Seq<TaskKind> {
        self.critical_queue@
    }

    /// Pending Normal tasks, oldest first.
    pub closed spec fn normal_pending(&self) -> Seq<TaskKind> {
        self.normal_queue@
    }

    /// Pending Background tasks, oldest first.
    pub closed spec fn background_pending(&self) -> Seq<TaskKind> {
        self.background_queue@
    }

    /// The pending tasks of one lane, oldest first.
    pub open spec fn pending_in(&self, lane: Lane) -> Seq<TaskKind> {
        match lane {
            Lane::Critical => self.critical_pending(),
            Lane::Normal => self.normal_pending(),
            Lane::Background => self.background_pending(),
        }
    }

    /// Number of pending tasks over all lanes.
    pub open spec fn pending_count(&self) -> nat {
        self.critical_pending().len() + self.normal_pending().len()
            + self.background_pending().len()
    }

    /// Number of plans made so far, modulo 2^64.
    pub closed spec fn ticks(&self) -> u64 {
        self.ticks_scheduled
    }

    /// Number of tasks handed out by the dequeue operations so far, modulo 2^64.
    pub closed spec fn executed(&self) -> u64 {
        self.tasks_executed
    }

    /// The settings are valid, each queue holds tasks of its own lane only, and
    /// the pending tasks can be counted in a machine word.
    pub open spec fn wf(&self) -> bool {
        &&& self.config().wf()
        &&& all_in_lane(self.critical_pending(), Lane::Critical)
        &&& all_in_lane(self.normal_pending(), Lane::Normal)
        &&& all_in_lane(self.background_pending(), Lane::Background)
        &&& self.pending_count() <= usize::MAX
    }

    /// A scheduler with the default settings and empty queues.
    #[must_use]
    pub fn new() -> (s: Self)
        ensures
            s.wf(),
            s.config() == SchedulerConfig::standard(),
            s.critical_pending() == Seq::<TaskKind>::empty(),
            s.normal_pending() == Seq::<TaskKind>::empty(),
            s.background_pending() == Seq::<TaskKind>::empty(),
            s.ticks() == 0,
            s.executed() == 0,
    {
        Self::with_config(SchedulerConfig::default())
    }

    /// A scheduler with the given settings and empty queues.
    #[must_use]
    pub fn with_config(config: SchedulerConfig) -> (s: Self)
        requires
            config.wf(),
        ensures
            s.wf(),
            s.config() == config,
            s.critical_pending() == Seq::<TaskKind>::empty(),
            s.normal_pending() == Seq::<TaskKind>::empty(),
            s.background_pending() == Seq::<TaskKind>::empty(),
            s.ticks() == 0,
            s.executed() == 0,
    {
        PriorityScheduler {
            config,
            critical_queue: VecDeque::new(),
            normal_queue: VecDeque::new(),
            background_queue: VecDeque::new(),
            ticks_scheduled: 0,
            tasks_executed: 0,
        }
    }

    /// Plans one tick.
    ///
    /// The plan holds the Critical set, then the Normal tasks whose period
    /// divides `tick_number`, then the Background tasks whose period divides it.
    /// The budget is the configured one. The queues are left alone; the count
    /// of plans goes up by one, wrapping.
    pub fn schedule_tick(&mut self, tick_number: u64) -> (work: ScheduledWork)
        requires
            old(self).wf(),
        ensures
            final(self).wf(),
            work.wf(),
            work.tasks@ == planned_tasks(tick_number),
            work.budget == old(self).config().max_budget_per_tick,
            work.background_active == background_due(tick_number),
            final(self).ticks() == if old(self).ticks() == u64::MAX {
                0
            } else {
                old(self).ticks() + 1
            },
            final(self).config() == old(self).config(),
            final(self).critical_pending() == old(self).critical_pending(),
            final(self).normal_pending() == old(self).normal_pending(),
            final(self).background_pending() == old(self).background_pending(),
            final(self).executed() == old(self).executed(),
    {
        self.ticks_scheduled = self.ticks_scheduled.wrapping_add(1);

        let mut tasks: Vec<TaskKind> = Vec::new();
        let mut background_active = false;

        tasks.push(TaskKind::UserInference);
        tasks.push(TaskKind::PolicyEvaluation);
        tasks.push(TaskKind::UserDelivery);
        assert(tasks@ == critical_set());

        if tick_number % TRAINING_PERIOD == 0 {
            tasks.push(TaskKind::LocalTraining);
        }
        if tick_number % DELTA_PERIOD == 0 {
            tasks.push(TaskKind::DeltaComputation);
            tasks.push(TaskKind::DeltaSubmission);
        }
        assert(tasks@ == critical_set() + normal_part(tick_number));

        if tick_number % SNAPSHOT_PERIOD == 0 {
            tasks.push(TaskKind::SnapshotCreation);
            background_active = true;
        }
        if tick_number % METRICS_PERIOD == 0 {
            tasks.push(TaskKind::MetricsSampling);
            background_active = true;
        }
        if tick_number % UPDATE_PERIOD == 0 {
            tasks.push(TaskKind::UpdateCheck);
            background_active = true;
        }
        assert(tasks@ == planned_tasks(tick_number));

        ScheduledWork { tasks, budget: self.config.max_budget_per_tick, background_active }
    }

    /// Appends a task to the queue of its lane.
    pub fn enqueue(&mut self, task: TaskKind)
        requires
            old(self).wf(),
            old(self).pending_count() < usize::MAX,
        ensures
            final(self).wf(),
            final(self).pending_in(task.lane_spec()) == old(self).pending_in(
                task.lane_spec(),
            ).push(task),
            keeps_other_lanes(*old(self), *final(self), task.lane_spec()),
            final(self).pending_count() == old(self).pending_count() + 1,
            final(self).config() == old(self).config(),
            final(self).ticks() == old(self).ticks(),
            final(self).executed() == old(self).executed(),
    {
        match task.lane() {
            Lane::Critical => self.critical_queue.push_back(task),
            Lane::Normal => self.normal_queue.push_back(task),
            Lane::Background => self.background_queue.push_back(task),
        }
    }

    /// Takes the oldest pending Critical task, if there is one.
    pub fn dequeue_critical(&mut self) -> (task: Option<TaskKind>)
        requires
            old(self).wf(),
        ensures
            final(self).wf(),
            dequeued(*old(self), *final(self), Lane::Critical, task),
    {
        let task = self.critical_queue.pop_front();
        if task.is_some() {
            self.tasks_executed = self.tasks_executed.wrapping_add(1);
        }
        task
    }

    /// Takes the oldest pending Normal task, if there is one.
    pub fn dequeue_normal(&mut self) -> (task: Option<TaskKind>)
        requires
            old(self).wf(),
        ensures
            final(self).wf(),
            dequeued(*old(self), *final(self), Lane::Normal, task),
    {
        let task = self.normal_queue.pop_front();
        if task.is_some() {
            self.tasks_executed = self.tasks_executed.wrapping_add(1);
        }
        task
    }

    /// Takes the oldest pending Background task, if there is one.
    pub fn dequeue_background(&mut self) -> (task: Option<TaskKind>)
        requires
            old(self).wf(),
        ensures
            final(self).wf(),
            dequeued(*old(self), *final(self), Lane::Background, task),
    {
        let task = self.background_queue.pop_front();
        if task.is_some() {
            self.tasks_executed = self.tasks_executed.wrapping_add(1);
        }
        task
    }

    /// Number of pending tasks over all lanes.
    #[must_use]
    pub fn pending_tasks(&self) -> (n: usize)
        requires
            self.wf(),
        ensures
            n == self.pending_count(),
    {
        self.critical_queue.len() + self.normal_queue.len() + self.background_queue.len()
    }

    /// Number of plans made so far, modulo 2^64.
    #[must_use]
    pub fn ticks_scheduled(&self) -> (n: u64)
        ensures
            n == self.ticks(),
    {
        self.ticks_scheduled
    }

    /// Number of tasks dequeued so far, modulo 2^64.
    #[must_use]
    pub fn tasks_executed(&self) -> (n: u64)
        ensures
            n == self.executed(),
    {
        self.tasks_executed
    }

    /// Empties the three queues; the counters stay.
    pub fn clear_all(&mut self)
        requires
            old(self).wf(),
        ensures
            final(self).wf(),
            final(self).critical_pending() == Seq::<TaskKind>::empty(),
            final(self).normal_pending() == Seq::<TaskKind>::empty(),
            final(self).background_pending() == Seq::<TaskKind>::empty(),
            final(self).config() == old(self).config(),
            final(self).ticks() == old(self).ticks(),
            final(self).executed() == old(self).executed(),
    {
        self.critical_queue.clear();
        self.normal_queue.clear();
        self.background_queue.clear();
    }
}

/// Whether the queues of the lanes other than `lane` are the same before and
/// after.
pub open spec fn keeps_other_lanes(
    before: PriorityScheduler,
    after: PriorityScheduler,
    lane: Lane,
) -> bool {
    &&& lane != Lane::Critical ==> after.critical_pending() == before.critical_pending()
    &&& lane != Lane::Normal ==> after.normal_pending() == before.normal_pending()
    &&& lane != Lane::Background ==> after.background_pending() == before.background_pending()
}

/// What a dequeue from `lane` does: on an empty queue nothing changes and
/// nothing is returned; otherwise the oldest task leaves its queue, is
/// returned, and the count of executed tasks goes up by one, wrapping. The
/// other lanes, the settings and the count of plans stay.
pub open spec fn dequeued(
    before: PriorityScheduler,
    after: PriorityScheduler,
    lane: Lane,
    task: Option<TaskKind>,
) -> bool {
    &&& after.config() == before.config()
    &&& after.ticks() == before.ticks()
    &&& keeps_other_lanes(before, after, lane)
    &&& if before.pending_in(lane).len() == 0 {
        &&& task is None
        &&& after.pending_in(lane) == before.pending_in(lane)
        &&& after.executed() == before.executed()
    } else {
        &&& task == Some(before.pending_in(lane)[0])
        &&& after.pending_in(lane) == before.pending_in(lane).subrange(
            1,
            before.pending_in(lane).len() as int,
        )
        &&& after.executed() == if before.executed() == u64::MAX {
            0
        } else {
            before.executed() + 1
        }
    }
}

impl Default for PriorityScheduler {
    /// Same as [`PriorityScheduler::new`].
    fn default() -> (s: Self)
        ensures
            s.wf(),
            s.config() == SchedulerConfig::standard(),
            s.critical_pending() == Seq::<TaskKind>::empty(),
            s.normal_pending() == Seq::<TaskKind>::empty(),
            s.background_pending() == Seq::<TaskKind>::empty(),
            s.ticks() == 0,
            s.executed() == 0,
    {
        Self::new()
    }
}

/// Every plan holds the whole Critical set, and each gated task is in the plan
/// exactly on the ticks that its period divides.
pub proof fn lemma_plan_membership(tick: u64)
    ensures
        planned_tasks(tick).contains(TaskKind::UserInference),
        planned_tasks(tick).contains(TaskKind::PolicyEvaluation),
        planned_tasks(tick).contains(TaskKind::UserDelivery),
        planned_tasks(tick).contains(TaskKind::LocalTraining) <==> tick % TRAINING_PERIOD == 0,
        planned_tasks(tick).contains(TaskKind::DeltaComputation) <==> tick % DELTA_PERIOD == 0,
        planned_tasks(tick).contains(TaskKind::DeltaSubmission) <==> tick % DELTA_PERIOD == 0,
        planned_tasks(tick).contains(TaskKind::SnapshotCreation) <==> tick % SNAPSHOT_PERIOD
            == 0,
        planned_tasks(tick).contains(TaskKind::MetricsSampling) <==> tick % METRICS_PERIOD == 0,
        planned_tasks(tick).contains(TaskKind::UpdateCheck) <==> tick % UPDATE_PERIOD == 0,
        !planned_tasks(tick).contains(TaskKind::AdrApplication),
{
    let plan = planned_tasks(tick);
    let normal = normal_part(tick);
    let background = background_part(tick);
    assert(plan[0] == TaskKind::UserInference);
    assert(plan[1] == TaskKind::PolicyEvaluation);
    assert(plan[2] == TaskKind::UserDelivery);
    if tick % TRAINING_PERIOD == 0 {
        assert(plan[3] == TaskKind::LocalTraining);
    }
    if tick % DELTA_PERIOD == 0 {
        assert(plan[3 + normal.len() - 2] == TaskKind::DeltaComputation);
        assert(plan[3 + normal.len() - 1] == TaskKind::DeltaSubmission);
    }
    if tick % SNAPSHOT_PERIOD == 0 {
        assert(plan[3 + normal.len() as int] == TaskKind::SnapshotCreation);
    }
    if tick % METRICS_PERIOD == 0 {
        assert(background.len() >= 1);
        let at = if tick % SNAPSHOT_PERIOD == 0 {
            1int
        } else {
            0int
        };
        assert(background[at] == TaskKind::MetricsSampling);
        assert(plan[3 + normal.len() as int + at] == TaskKind::MetricsSampling);
    }
    if tick % UPDATE_PERIOD == 0 {
        assert(background.last() == TaskKind::UpdateCheck);
        assert(plan[plan.len() - 1] == TaskKind::UpdateCheck);
    }
}

/// Within a plan no task comes before one of a more urgent lane: Critical
/// tasks first, then Normal, then Background.
pub proof fn lemma_plan_is_priority_ordered(tick: u64, i: int, j: int)
    requires
        0 <= i <= j < planned_tasks(tick).len(),
    ensures
        planned_tasks(tick)[i].lane_spec().rank() <= planned_tasks(tick)[j].lane_spec().rank(),
{
    let normal = normal_part(tick);
    let background = background_part(tick);
    assert(forall|k: int| 0 <= k < normal.len() ==> (#[trigger] normal[k]).lane_spec() == Lane::Normal);
    assert(forall|k: int|
        0 <= k < background.len() ==> (#[trigger] background[k]).lane_spec() == Lane::Background);
}

/// A plan holds Background work exactly when its flag says so, and that is on
/// the ticks that the metrics period divides.
pub proof fn lemma_background_flag(tick: u64)
    ensures
        background_due(tick) <==> background_part(tick).len() > 0,
        background_due(tick) <==> tick % METRICS_PERIOD == 0,
{
    assert(tick % 10_000 == 0 ==> tick % 1_000 == 0);
    assert(tick % 50_000 == 0 ==> tick % 1_000 == 0);
}

} // verus!
