use samaritan_core::scheduler::{Lane, PriorityScheduler, ScheduledWork, SchedulerConfig, TaskKind};

#[test]
fn lane_weights_are_correct() {
    assert_eq!(Lane::Critical.weight(), 10);
    assert_eq!(Lane::Normal.weight(), 5);
    assert_eq!(Lane::Background.weight(), 1);
}

#[test]
fn only_background_lane_is_background() {
    assert!(!Lane::Critical.is_background());
    assert!(!Lane::Normal.is_background());
    assert!(Lane::Background.is_background());
}

#[test]
fn task_kind_lane_mapping() {
    assert_eq!(TaskKind::UserInference.lane(), Lane::Critical);
    assert_eq!(TaskKind::PolicyEvaluation.lane(), Lane::Critical);
    assert_eq!(TaskKind::LocalTraining.lane(), Lane::Normal);
    assert_eq!(TaskKind::SnapshotCreation.lane(), Lane::Background);
}

#[test]
fn task_costs_are_reasonable() {
    assert!(TaskKind::UserDelivery.cost() < 100_000);
    assert!(TaskKind::PolicyEvaluation.cost() < 100_000);
    assert!(TaskKind::LocalTraining.cost() > 500_000);
    assert!(TaskKind::SnapshotCreation.cost() > 300_000);
    assert!(TaskKind::SnapshotCreation.cost() < 600_000);
}

#[test]
fn scheduled_work_empty_has_no_work() {
    let work = ScheduledWork::empty();
    assert!(!work.has_work());
    assert_eq!(work.task_count(), 0);
    assert_eq!(work.total_cost(), 0);
}

#[test]
fn scheduled_work_total_cost() {
    let work = ScheduledWork {
        tasks: vec![
            TaskKind::UserInference,
            TaskKind::PolicyEvaluation,
            TaskKind::LocalTraining,
        ],
        budget: 1_000_000,
        background_active: false,
    };
    assert_eq!(work.task_count(), 3);
    assert_eq!(work.total_cost(), 1_150_000);
}

#[test]
fn new_scheduler_has_empty_queues() {
    let sched = PriorityScheduler::new();
    assert_eq!(sched.pending_tasks(), 0);
    assert_eq!(sched.ticks_scheduled(), 0);
    assert_eq!(sched.tasks_executed(), 0);
}

#[test]
fn schedule_tick_returns_valid_work() {
    let mut sched = PriorityScheduler::new();
    let work = sched.schedule_tick(0);
    assert!(work.has_work());
    assert!(work.budget > 0);
    assert!(work.budget <= 1_000_000);
}

#[test]
fn schedule_tick_includes_critical_tasks() {
    let mut sched = PriorityScheduler::new();
    let work = sched.schedule_tick(0);
    let has_critical = work.tasks.iter().any(|t| t.lane() == Lane::Critical);
    assert!(has_critical);
}

#[test]
fn schedule_tick_background_is_periodic() {
    let mut sched = PriorityScheduler::new();
    let work1 = sched.schedule_tick(5);
    assert!(!work1.background_active);
    let work2 = sched.schedule_tick(10_000);
    assert!(work2.background_active);
    assert!(work2.tasks.contains(&TaskKind::SnapshotCreation));
}

#[test]
fn enqueue_and_dequeue_critical() {
    let mut sched = PriorityScheduler::new();
    sched.enqueue(TaskKind::UserInference);
    sched.enqueue(TaskKind::PolicyEvaluation);
    assert_eq!(sched.pending_tasks(), 2);
    let task1 = sched.dequeue_critical();
    assert_eq!(task1, Some(TaskKind::UserInference));
    let task2 = sched.dequeue_critical();
    assert_eq!(task2, Some(TaskKind::PolicyEvaluation));
    assert_eq!(sched.pending_tasks(), 0);
    assert_eq!(sched.tasks_executed(), 2);
}

#[test]
fn enqueue_and_dequeue_normal() {
    let mut sched = PriorityScheduler::new();
    sched.enqueue(TaskKind::LocalTraining);
    assert_eq!(sched.pending_tasks(), 1);
    let task = sched.dequeue_normal();
    assert_eq!(task, Some(TaskKind::LocalTraining));
    assert_eq!(sched.pending_tasks(), 0);
}

#[test]
fn enqueue_and_dequeue_background() {
    let mut sched = PriorityScheduler::new();
    sched.enqueue(TaskKind::SnapshotCreation);
    assert_eq!(sched.pending_tasks(), 1);
    let task = sched.dequeue_background();
    assert_eq!(task, Some(TaskKind::SnapshotCreation));
    assert_eq!(sched.pending_tasks(), 0);
}

#[test]
fn clear_all_empties_queues() {
    let mut sched = PriorityScheduler::new();
    sched.enqueue(TaskKind::UserInference);
    sched.enqueue(TaskKind::LocalTraining);
    sched.enqueue(TaskKind::SnapshotCreation);
    assert_eq!(sched.pending_tasks(), 3);
    sched.clear_all();
    assert_eq!(sched.pending_tasks(), 0);
}

#[test]
fn dequeue_from_empty_queue_returns_none() {
    let mut sched = PriorityScheduler::new();
    assert_eq!(sched.dequeue_critical(), None);
    assert_eq!(sched.dequeue_normal(), None);
    assert_eq!(sched.dequeue_background(), None);
}

#[test]
fn lane_names() {
    assert_eq!(Lane::Critical.as_str(), "Critical");
    assert_eq!(Lane::Normal.as_str(), "Normal");
    assert_eq!(Lane::Background.as_str(), "Background");
}

#[test]
fn every_task_has_its_lane_and_cost() {
    let table = [
        (TaskKind::UserInference, Lane::Critical, 300_000),
        (TaskKind::PolicyEvaluation, Lane::Critical, 50_000),
        (TaskKind::UserDelivery, Lane::Critical, 10_000),
        (TaskKind::LocalTraining, Lane::Normal, 800_000),
        (TaskKind::DeltaComputation, Lane::Normal, 200_000),
        (TaskKind::DeltaSubmission, Lane::Normal, 100_000),
        (TaskKind::MetricsSampling, Lane::Background, 20_000),
        (TaskKind::SnapshotCreation, Lane::Background, 400_000),
        (TaskKind::UpdateCheck, Lane::Background, 50_000),
        (TaskKind::AdrApplication, Lane::Background, 100_000),
    ];
    for (task, lane, cost) in table {
        assert_eq!(task.lane(), lane);
        assert_eq!(task.cost(), cost);
    }
}

#[test]
fn plans_follow_the_cadences() {
    let mut sched = PriorityScheduler::new();
    let critical = vec![TaskKind::UserInference, TaskKind::PolicyEvaluation, TaskKind::UserDelivery];

    let work = sched.schedule_tick(7);
    assert_eq!(work.tasks, critical);
    assert_eq!(work.budget, 900_000);
    assert!(!work.background_active);

    let work = sched.schedule_tick(30);
    assert_eq!(work.tasks, [critical.clone(), vec![TaskKind::LocalTraining]].concat());

    let work = sched.schedule_tick(300);
    assert_eq!(
        work.tasks,
        [
            critical.clone(),
            vec![TaskKind::LocalTraining, TaskKind::DeltaComputation, TaskKind::DeltaSubmission]
        ]
        .concat()
    );
    assert!(!work.background_active);

    let work = sched.schedule_tick(3_000);
    assert_eq!(work.tasks.len(), 7);
    assert_eq!(work.tasks[6], TaskKind::MetricsSampling);
    assert!(work.background_active);

    let work = sched.schedule_tick(20_000);
    assert_eq!(&work.tasks[6..], &[TaskKind::SnapshotCreation, TaskKind::MetricsSampling]);

    let work = sched.schedule_tick(50_000);
    assert_eq!(
        &work.tasks[6..],
        &[TaskKind::SnapshotCreation, TaskKind::MetricsSampling, TaskKind::UpdateCheck]
    );
    assert_eq!(work.total_cost(), 360_000 + 1_100_000 + 470_000);

    let work = sched.schedule_tick(u64::MAX);
    assert_eq!(work.tasks, [critical.clone(), vec![TaskKind::LocalTraining]].concat()[..3].to_vec());
    assert_eq!(sched.ticks_scheduled(), 7);
    assert_eq!(sched.pending_tasks(), 0);
}

#[test]
fn every_plan_holds_the_critical_set_first_and_is_ordered_by_lane() {
    let mut sched = PriorityScheduler::new();
    for tick in (0..120_000u64).step_by(7).chain([10_000, 50_000, 100_000, 1_000, 100, 10]) {
        let work = sched.schedule_tick(tick);
        assert_eq!(
            &work.tasks[..3],
            &[TaskKind::UserInference, TaskKind::PolicyEvaluation, TaskKind::UserDelivery]
        );
        assert_eq!(work.tasks.contains(&TaskKind::LocalTraining), tick % 10 == 0);
        assert_eq!(work.tasks.contains(&TaskKind::DeltaComputation), tick % 100 == 0);
        assert_eq!(work.tasks.contains(&TaskKind::DeltaSubmission), tick % 100 == 0);
        assert_eq!(work.tasks.contains(&TaskKind::MetricsSampling), tick % 1_000 == 0);
        assert_eq!(work.tasks.contains(&TaskKind::SnapshotCreation), tick % 10_000 == 0);
        assert_eq!(work.tasks.contains(&TaskKind::UpdateCheck), tick % 50_000 == 0);
        assert_eq!(work.background_active, tick % 1_000 == 0);
        let rank = |t: &TaskKind| match t.lane() {
            Lane::Critical => 0,
            Lane::Normal => 1,
            Lane::Background => 2,
        };
        assert!(work.tasks.windows(2).all(|w| rank(&w[0]) <= rank(&w[1])));
    }
}

#[test]
fn queues_are_first_in_first_out_and_apart() {
    let mut sched = PriorityScheduler::new();
    sched.enqueue(TaskKind::MetricsSampling);
    sched.enqueue(TaskKind::DeltaComputation);
    sched.enqueue(TaskKind::UserDelivery);
    sched.enqueue(TaskKind::AdrApplication);
    sched.enqueue(TaskKind::LocalTraining);
    sched.enqueue(TaskKind::UserInference);
    assert_eq!(sched.pending_tasks(), 6);
    assert_eq!(sched.dequeue_background(), Some(TaskKind::MetricsSampling));
    assert_eq!(sched.dequeue_background(), Some(TaskKind::AdrApplication));
    assert_eq!(sched.dequeue_background(), None);
    assert_eq!(sched.dequeue_critical(), Some(TaskKind::UserDelivery));
    assert_eq!(sched.dequeue_normal(), Some(TaskKind::DeltaComputation));
    assert_eq!(sched.dequeue_normal(), Some(TaskKind::LocalTraining));
    assert_eq!(sched.pending_tasks(), 1);
    assert_eq!(sched.tasks_executed(), 5);
    sched.clear_all();
    assert_eq!(sched.tasks_executed(), 5);
    assert_eq!(sched.dequeue_critical(), None);
    assert_eq!(sched.tasks_executed(), 5);
}

#[test]
fn custom_budget_is_copied_into_the_plan() {
    let config = SchedulerConfig {
        critical_weight: 3,
        normal_weight: 2,
        background_weight: 1,
        max_budget_per_tick: 250_000,
    };
    assert!(config.is_valid());
    let mut sched = PriorityScheduler::with_config(config);
    assert_eq!(sched.schedule_tick(1).budget, 250_000);
    let too_much = SchedulerConfig { max_budget_per_tick: 1_000_001, ..SchedulerConfig::default() };
    assert!(!too_much.is_valid());
    assert!(SchedulerConfig::default().is_valid());
    assert_eq!(PriorityScheduler::default().pending_tasks(), 0);
}
