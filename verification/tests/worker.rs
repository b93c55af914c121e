use fabrexlens::api::FabrexReassignmentResult;
use fabrexlens::dashboard::DashboardSnapshot;
use fabrexlens::worker::{
    clamp_interval, dashboard_event, delivery, emit, poll_step, reassignment_event, AppCommand,
    AppEvent,
    BackgroundWorker, PollSignal, PollStep, PollingState, WorkerAction, MIN_POLL_INTERVAL_SECS,
};

fn alive_after(actions: &[WorkerAction], alive: &mut Vec<u64>) {
    for action in actions {
        match action {
            WorkerAction::StartPoll { task, .. } => alive.push(*task),
            WorkerAction::CancelPoll { task } => alive.retain(|t| t != task),
            _ => {}
        }
    }
}

#[test]
fn interval_is_clamped_to_five_seconds() {
    assert_eq!(MIN_POLL_INTERVAL_SECS, 5);
    assert_eq!(clamp_interval(0), 5);
    assert_eq!(clamp_interval(4), 5);
    assert_eq!(clamp_interval(5), 5);
    assert_eq!(clamp_interval(6), 6);
    assert_eq!(clamp_interval(u64::MAX), u64::MAX);
}

#[test]
fn start_below_the_floor_polls_at_five() {
    let mut worker = BackgroundWorker::new();
    assert_eq!(worker.state(), PollingState::Idle);
    let actions = worker.handle(AppCommand::StartPolling { interval_secs: 1 });
    assert_eq!(actions, vec![WorkerAction::StartPoll { task: 0, interval_secs: 5 }]);
    assert_eq!(worker.state(), PollingState::Polling { interval_secs: 5 });
}

#[test]
fn update_twice_leaves_one_task() {
    let mut worker = BackgroundWorker::new();
    let mut alive = Vec::new();
    let first = worker.handle(AppCommand::UpdatePolling { interval_secs: 10 });
    assert_eq!(first, vec![WorkerAction::StartPoll { task: 0, interval_secs: 10 }]);
    alive_after(&first, &mut alive);
    let second = worker.handle(AppCommand::UpdatePolling { interval_secs: 20 });
    assert_eq!(
        second,
        vec![
            WorkerAction::CancelPoll { task: 0 },
            WorkerAction::StartPoll { task: 1, interval_secs: 20 }
        ]
    );
    alive_after(&second, &mut alive);
    assert_eq!(alive, vec![1]);
    assert_eq!(worker.state(), PollingState::Polling { interval_secs: 20 });
}

#[test]
fn stop_cancels_and_is_a_no_op_when_idle() {
    let mut worker = BackgroundWorker::new();
    assert!(worker.handle(AppCommand::StopPolling).is_empty());
    worker.handle(AppCommand::StartPolling { interval_secs: 7 });
    assert_eq!(
        worker.handle(AppCommand::StopPolling),
        vec![WorkerAction::CancelPoll { task: 0 }]
    );
    assert_eq!(worker.state(), PollingState::Idle);
    assert!(worker.handle(AppCommand::StopPolling).is_empty());
}

#[test]
fn refresh_and_reassignment_leave_polling_alone() {
    let mut worker = BackgroundWorker::new();
    worker.handle(AppCommand::StartPolling { interval_secs: 9 });
    assert_eq!(worker.handle(AppCommand::RefreshDashboard), vec![WorkerAction::FetchDashboard]);
    let actions = worker.handle(AppCommand::SubmitReassignment {
        fabric_id: "fab-1".into(),
        endpoint_id: "ep-9".into(),
        target_supernode: "sn-42".into(),
    });
    assert_eq!(
        actions,
        vec![WorkerAction::Reassign {
            fabric_id: "fab-1".into(),
            endpoint_id: "ep-9".into(),
            target_supernode: "sn-42".into(),
        }]
    );
    assert_eq!(worker.state(), PollingState::Polling { interval_secs: 9 });
}

#[test]
fn any_row_of_commands_keeps_at_most_one_task() {
    let mut worker = BackgroundWorker::new();
    let mut alive = Vec::new();
    let commands = [0u64, 1, 2, 1, 1, 3, 2, 2, 0, 1, 3, 3, 1, 2];
    for (i, c) in commands.iter().enumerate() {
        let command = match c {
            0 => AppCommand::RefreshDashboard,
            1 => AppCommand::StartPolling { interval_secs: i as u64 },
            2 => AppCommand::UpdatePolling { interval_secs: 100 + i as u64 },
            _ => AppCommand::StopPolling,
        };
        let actions = worker.handle(command);
        alive_after(&actions, &mut alive);
        assert!(alive.len() <= 1);
        match worker.state() {
            PollingState::Idle => assert!(alive.is_empty()),
            PollingState::Polling { interval_secs } => {
                assert_eq!(alive.len(), 1);
                assert!(interval_secs >= 5);
            }
        }
    }
}

#[test]
fn reassignment_answer_becomes_a_completed_event() {
    let answer = FabrexReassignmentResult {
        request_id: "req-100".into(),
        status: "accepted".into(),
        message: None,
    };
    match reassignment_event(Ok(answer)) {
        AppEvent::ReassignmentCompleted(result) => {
            assert_eq!(result.request_id, "req-100");
            assert_eq!(result.status, "accepted");
            assert_eq!(result.message, None);
        }
        other => panic!("unexpected event {other:?}"),
    }
    assert_eq!(
        reassignment_event(Err("HTTP 409: busy".into())),
        AppEvent::ReassignmentFailed("HTTP 409: busy".into())
    );
}

#[test]
fn gathering_result_becomes_a_dashboard_event() {
    let snapshot = DashboardSnapshot::default();
    assert_eq!(
        dashboard_event(Ok(snapshot.clone())),
        AppEvent::DashboardUpdated(snapshot)
    );
    assert_eq!(
        dashboard_event(Err("Fetching usage for fabric fab-2: boom".into())),
        AppEvent::DashboardFailed("Fetching usage for fabric fab-2: boom".into())
    );
}

#[test]
fn emit_delivers_in_order() {
    let (tx, rx) = crossbeam_channel::unbounded();
    assert!(emit(&tx, AppEvent::DashboardFailed("a".into())));
    assert!(emit(&tx, AppEvent::ReassignmentFailed("b".into())));
    assert_eq!(rx.try_recv().unwrap(), AppEvent::DashboardFailed("a".into()));
    assert_eq!(rx.try_recv().unwrap(), AppEvent::ReassignmentFailed("b".into()));
    assert!(rx.try_recv().is_err());
}

#[test]
fn emit_after_the_receiver_is_gone_is_harmless() {
    let (tx, rx) = crossbeam_channel::unbounded();
    drop(rx);
    let mut worker = BackgroundWorker::new();
    worker.handle(AppCommand::StartPolling { interval_secs: 5 });
    for _ in 0..3 {
        assert!(!emit(&tx, AppEvent::DashboardFailed("nobody listens".into())));
    }
    assert_eq!(worker.state(), PollingState::Polling { interval_secs: 5 });
    assert_eq!(worker.handle(AppCommand::RefreshDashboard), vec![WorkerAction::FetchDashboard]);
}

#[test]
fn emit_never_waits_on_a_full_queue() {
    let (tx, rx) = crossbeam_channel::bounded(1);
    assert!(emit(&tx, AppEvent::DashboardFailed("first".into())));
    assert!(!emit(&tx, AppEvent::DashboardFailed("second".into())));
    assert_eq!(rx.try_recv().unwrap(), AppEvent::DashboardFailed("first".into()));
    assert!(emit(&tx, AppEvent::DashboardFailed("third".into())));
}

#[test]
fn poll_task_fetches_on_tick_and_ends_on_cancel() {
    assert_eq!(poll_step(PollSignal::Tick), PollStep::FetchAndReport);
    assert_eq!(poll_step(PollSignal::Cancelled), PollStep::Exit);
}

#[test]
fn delivery_follows_the_queue_answer() {
    assert!(delivery(Ok(())));
    assert!(!delivery(Err("sending on a disconnected channel".to_string())));
}
