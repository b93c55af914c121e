//! The background worker's decisions: what each command makes it do, and
//! which recurring poll task is alive.
//!
//! The worker owns at most one poll task. Starting one always cancels the
//! one before it first.

use crate::api::fabrex::FabrexReassignmentResult;
use crate::channel::send_message;
use crate::dashboard::DashboardSnapshot;
use vstd::prelude::*;

verus! {

/// The shortest interval between two polls, in seconds.
pub const MIN_POLL_INTERVAL_SECS: u64 = 5;

/// The interval that is polled at when `secs` is asked for: `secs`, but not
/// less than the shortest interval.
pub open spec fn clamped(secs: u64) -> u64 {
    if secs < MIN_POLL_INTERVAL_SECS {
        MIN_POLL_INTERVAL_SECS
    } else {
        secs
    }
}

/// The interval that is polled at when `secs` is asked for.
pub fn clamp_interval(secs: u64) -> (r: u64)
    ensures
        r == clamped(secs),
        r >= MIN_POLL_INTERVAL_SECS,
        secs >= MIN_POLL_INTERVAL_SECS ==> r == secs,
        secs < MIN_POLL_INTERVAL_SECS ==> r == MIN_POLL_INTERVAL_SECS,
{
    if secs < MIN_POLL_INTERVAL_SECS {
        MIN_POLL_INTERVAL_SECS
    } else {
        secs
    }
}

/// What the interface asks of the worker.
#[derive(Debug, PartialEq, Eq)]
pub enum AppCommand {
    RefreshDashboard,
    SubmitReassignment { fabric_id: String, endpoint_id: String, target_supernode: String },
    StartPolling { interval_secs: u64 },
    StopPolling,
    UpdatePolling { interval_secs: u64 },
}

impl Clone for AppCommand {
    fn clone(&self) -> (r: Self)
        ensures
            r == *self,
    {
        match self {
            AppCommand::RefreshDashboard => AppCommand::RefreshDashboard,
            AppCommand::SubmitReassignment { fabric_id, endpoint_id, target_supernode } => {
                AppCommand::SubmitReassignment {
                    fabric_id: fabric_id.clone(),
                    endpoint_id: endpoint_id.clone(),
                    target_supernode: target_supernode.clone(),
                }
            },
            AppCommand::StartPolling { interval_secs } => AppCommand::StartPolling {
                interval_secs: *interval_secs,
            },
            AppCommand::StopPolling => AppCommand::StopPolling,
            AppCommand::UpdatePolling { interval_secs } => AppCommand::UpdatePolling {
                interval_secs: *interval_secs,
            },
        }
    }
}

/// What the worker reports back.
#[derive(Debug, Clone, PartialEq, Eq)]
pub enum AppEvent {
    DashboardUpdated(DashboardSnapshot),
    DashboardFailed(String),
    ReassignmentCompleted(FabrexReassignmentResult),
    ReassignmentFailed(String),
}

/// What the worker's surroundings do for it.
#[derive(Debug, PartialEq, Eq)]
pub enum WorkerAction {
    /// Gather a snapshot once and report it.
    FetchDashboard,
    /// Ask the fabric service for a reassignment and report the answer.
    Reassign { fabric_id: String, endpoint_id: String, target_supernode: String },
    /// Signal the poll task `task` to end.
    CancelPoll { task: u64 },
    /// Start the poll task `task`, which gathers a snapshot every
    /// `interval_secs` seconds.
    StartPoll { task: u64, interval_secs: u64 },
}

/// The right to cancel one poll task. Cancelling uses it up.
#[derive(Debug)]
pub struct PollingHandle {
    task: u64,
    interval_secs: u64,
}

impl PollingHandle {
    /// The task that the handle cancels.
    pub closed spec fn task(self) -> u64 {
        self.task
    }

    /// The interval of the task that the handle cancels.
    pub closed spec fn interval_secs(self) -> u64 {
        self.interval_secs
    }

    /// The signal that ends the handle's task.
    pub fn stop(self) -> (r: WorkerAction)
        ensures
            r == (WorkerAction::CancelPoll { task: self.task() }),
    {
        WorkerAction::CancelPoll { task: self.task }
    }
}

/// Whether the worker polls, and how often.
#[derive(Debug, Clone, Copy, PartialEq, Eq, Structural)]
pub enum PollingState {
    Idle,
    Polling { interval_secs: u64 },
}

/// The worker as the contracts see it: the poll task that is alive, with its
/// interval, and the number that the next task gets.
pub struct WorkerView {
    pub poll: Option<(u64, u64)>,
    pub next_task: u64,
}

/// The number after `task`; after the largest comes 0.
pub open spec fn task_after(task: u64) -> u64 {
    if task == u64::MAX {
        0
    } else {
        (task + 1) as u64
    }
}

/// What a command to poll every `secs` seconds does: the task that is alive
/// is cancelled, and then a new one is started at the clamped interval.
pub open spec fn restart_spec(view: WorkerView, secs: u64) -> (WorkerView, Seq<WorkerAction>) {
    let start = WorkerAction::StartPoll { task: view.next_task, interval_secs: clamped(secs) };
    let after = WorkerView {
        poll: Some((view.next_task, clamped(secs))),
        next_task: task_after(view.next_task),
    };
    match view.poll {
        Some((task, _)) => (after, seq![WorkerAction::CancelPoll { task }, start]),
        None => (after, seq![start]),
    }
}

/// What a command does to the worker, and what it makes the worker's
/// surroundings do, in order.
pub open spec fn step_spec(view: WorkerView, command: AppCommand) -> (
    WorkerView,
    Seq<WorkerAction>,
) {
    match command {
        AppCommand::RefreshDashboard => (view, seq![WorkerAction::FetchDashboard]),
        AppCommand::SubmitReassignment { fabric_id, endpoint_id, target_supernode } => (
            view,
            seq![WorkerAction::Reassign { fabric_id, endpoint_id, target_supernode }],
        ),
        AppCommand::StartPolling { interval_secs } => restart_spec(view, interval_secs),
        AppCommand::UpdatePolling { interval_secs } => restart_spec(view, interval_secs),
        AppCommand::StopPolling => match view.poll {
            Some((task, _)) => (
                WorkerView { poll: None, next_task: view.next_task },
                seq![WorkerAction::CancelPoll { task }],
            ),
            None => (view, Seq::empty()),
        },
    }
}

/// What a row of commands does, one after the other: the worker at the end,
/// and all that its surroundings were made to do, in order.
pub open spec fn run_spec(view: WorkerView, commands: Seq<AppCommand>) -> (
    WorkerView,
    Seq<WorkerAction>,
)
    decreases commands.len(),
{
    if commands.len() == 0 {
        (view, Seq::empty())
    } else {
        let (mid, before) = run_spec(view, commands.drop_last());
        let (after, actions) = step_spec(mid, commands.last());
        (after, before + actions)
    }
}

/// The poll tasks that are alive after `action`, where `alive` were before.
pub open spec fn alive_after(alive: Set<u64>, action: WorkerAction) -> Set<u64> {
    match action {
        WorkerAction::StartPoll { task, .. } => alive.insert(task),
        WorkerAction::CancelPoll { task } => alive.remove(task),
        _ => alive,
    }
}

/// The poll tasks that are alive after a row of actions.
pub open spec fn alive_after_all(alive: Set<u64>, actions: Seq<WorkerAction>) -> Set<u64>
    decreases actions.len(),
{
    if actions.len() == 0 {
        alive
    } else {
        alive_after(alive_after_all(alive, actions.drop_last()), actions.last())
    }
}

/// The poll tasks that the worker holds a handle for: one or none.
pub open spec fn held(view: WorkerView) -> Set<u64> {
    match view.poll {
        Some((task, _)) => set![task],
        None => Set::empty(),
    }
}

/// Whether the worker polls, and how often.
pub open spec fn polling_state(view: WorkerView) -> PollingState {
    match view.poll {
        Some((_, interval_secs)) => PollingState::Polling { interval_secs },
        None => PollingState::Idle,
    }
}

/// The worker: the handle of the poll task that is alive, if one is.
#[derive(Debug)]
pub struct BackgroundWorker {
    poller: Option<PollingHandle>,
    next_task: u64,
}

impl View for BackgroundWorker {
    type V = WorkerView;

    closed spec fn view(&self) -> WorkerView {
        WorkerView {
            poll: match self.poller {
                Some(handle) => Some((handle.task, handle.interval_secs)),
                None => None,
            },
            next_task: self.next_task,
        }
    }
}

impl BackgroundWorker {
    /// A worker that does not poll.
    pub fn new() -> (r: Self)
        ensures
            r@.poll is None,
            r@.next_task == 0,
    {
        BackgroundWorker { poller: None, next_task: 0 }
    }

    /// Whether the worker polls, and how often.
    pub fn state(&self) -> (r: PollingState)
        ensures
            r == polling_state(self@),
    {
        match &self.poller {
            Some(handle) => PollingState::Polling { interval_secs: handle.interval_secs },
            None => PollingState::Idle,
        }
    }

    fn restart(&mut self, secs: u64) -> (r: Vec<WorkerAction>)
        ensures
            (final(self)@, r@) == restart_spec(old(self)@, secs),
    {
        let mut actions: Vec<WorkerAction> = Vec::new();
        if let Some(handle) = self.poller.take() {
            actions.push(handle.stop());
        }
        let task = self.next_task;
        let interval_secs = clamp_interval(secs);
        actions.push(WorkerAction::StartPoll { task, interval_secs });
        self.poller = Some(PollingHandle { task, interval_secs });
        self.next_task = if task == u64::MAX {
            0
        } else {
            task + 1
        };
        actions
    }

    /// Takes one command: changes the worker as the command says and gives
    /// what is to be done for it, in order. A refresh and a reassignment
    /// leave the worker as it is. A command to start or to update polling
    /// cancels the task that is alive, if one is, and starts a new one at
    /// the interval asked for, but not under the shortest. A command to stop
    /// cancels the task that is alive; where none is, nothing is done.
    pub fn handle(&mut self, command: AppCommand) -> (r: Vec<WorkerAction>)
        ensures
            (final(self)@, r@) == step_spec(old(self)@, command),
    {
        match command {
            AppCommand::RefreshDashboard => {
                let mut actions: Vec<WorkerAction> = Vec::new();
                actions.push(WorkerAction::FetchDashboard);
                actions
            },
            AppCommand::SubmitReassignment { fabric_id, endpoint_id, target_supernode } => {
                let mut actions: Vec<WorkerAction> = Vec::new();
                actions.push(WorkerAction::Reassign { fabric_id, endpoint_id, target_supernode });
                actions
            },
            AppCommand::StartPolling { interval_secs } => self.restart(interval_secs),
            AppCommand::UpdatePolling { interval_secs } => self.restart(interval_secs),
            AppCommand::StopPolling => {
                let mut actions: Vec<WorkerAction> = Vec::new();
                if let Some(handle) = self.poller.take() {
                    actions.push(handle.stop());
                }
                actions
            },
        }
    }
}

/// The event that reports how a gathering ended.
pub fn dashboard_event(result: Result<DashboardSnapshot, String>) -> (r: AppEvent)
    ensures
        r == match result {
            Ok(snapshot) => AppEvent::DashboardUpdated(snapshot),
            Err(message) => AppEvent::DashboardFailed(message),
        },
{
    match result {
        Ok(snapshot) => AppEvent::DashboardUpdated(snapshot),
        Err(message) => AppEvent::DashboardFailed(message),
    }
}

/// The event that reports how a reassignment ended.
pub fn reassignment_event(result: Result<FabrexReassignmentResult, String>) -> (r: AppEvent)
    ensures
        r == match result {
            Ok(answer) => AppEvent::ReassignmentCompleted(answer),
            Err(message) => AppEvent::ReassignmentFailed(message),
        },
{
    match result {
        Ok(answer) => AppEvent::ReassignmentCompleted(answer),
        Err(message) => AppEvent::ReassignmentFailed(message),
    }
}

/// Hands an event to the queue that leads to the interface, without waiting,
/// and says whether the queue took it. A queue whose receiving end is gone
/// takes nothing; that is no failure of the worker, which goes on as before.
pub fn emit(events: &crossbeam_channel::Sender<AppEvent>, event: AppEvent) -> (delivered: bool) {
    delivery(send_message(events, event))
}

/// Whether the queue took what was handed to it, given what the queue
/// answered: it did unless the answer is a failure.
pub fn delivery(answer: Result<(), String>) -> (delivered: bool)
    ensures
        delivered == answer is Ok,
{
    match answer {
        Ok(()) => true,
        Err(_) => false,
    }
}

/// What a poll task wakes up to.
#[derive(Debug, Clone, Copy, PartialEq, Eq, Structural)]
pub enum PollSignal {
    /// The timer fired.
    Tick,
    /// The task was cancelled, or its handle is gone.
    Cancelled,
}

/// What a poll task does next.
#[derive(Debug, Clone, Copy, PartialEq, Eq, Structural)]
pub enum PollStep {
    /// Gather a snapshot, report it, and wait again.
    FetchAndReport,
    /// End the task.
    Exit,
}

/// What a poll task does when it wakes up: it gathers on a tick and ends on
/// a cancellation.
pub fn poll_step(signal: PollSignal) -> (r: PollStep)
    ensures
        r == match signal {
            PollSignal::Tick => PollStep::FetchAndReport,
            PollSignal::Cancelled => PollStep::Exit,
        },
{
    match signal {
        PollSignal::Tick => PollStep::FetchAndReport,
        PollSignal::Cancelled => PollStep::Exit,
    }
}

/// An interval under the shortest is polled at the shortest, and any other
/// as asked; a command to start or to update polling leaves the worker
/// polling at that interval.
pub proof fn lemma_interval_is_clamped(view: WorkerView, secs: u64)
    ensures
        clamped(secs) >= MIN_POLL_INTERVAL_SECS,
        secs < MIN_POLL_INTERVAL_SECS ==> clamped(secs) == MIN_POLL_INTERVAL_SECS,
        secs >= MIN_POLL_INTERVAL_SECS ==> clamped(secs) == secs,
        polling_state(step_spec(view, AppCommand::StartPolling { interval_secs: secs }).0) == (
            PollingState::Polling { interval_secs: clamped(secs) }),
        polling_state(step_spec(view, AppCommand::UpdatePolling { interval_secs: secs }).0) == (
            PollingState::Polling { interval_secs: clamped(secs) }),
        step_spec(view, AppCommand::StartPolling { interval_secs: secs }) == step_spec(
            view,
            AppCommand::UpdatePolling { interval_secs: secs },
        ),
{
}

proof fn lemma_alive_after_one(alive: Set<u64>, a: WorkerAction)
    ensures
        alive_after_all(alive, seq![a]) == alive_after(alive, a),
{
    assert(alive_after_all(alive, seq![a].drop_last()) == alive);
}

proof fn lemma_alive_after_two(alive: Set<u64>, a: WorkerAction, b: WorkerAction)
    ensures
        alive_after_all(alive, seq![a, b]) == alive_after(alive_after(alive, a), b),
{
    assert(seq![a, b].drop_last() =~= seq![a]);
    lemma_alive_after_one(alive, a);
}

proof fn lemma_alive_after_concat(alive: Set<u64>, first: Seq<WorkerAction>, then: Seq<WorkerAction>)
    ensures
        alive_after_all(alive, first + then) == alive_after_all(
            alive_after_all(alive, first),
            then,
        ),
    decreases then.len(),
{
    if then.len() > 0 {
        assert((first + then).drop_last() =~= first + then.drop_last());
        lemma_alive_after_concat(alive, first, then.drop_last());
    }
}

/// One command keeps the worker's books: where the tasks alive before it
/// are those that the worker held a handle for, the tasks alive after its
/// actions are those that the worker holds a handle for then. That is one
/// task at most, and exactly one after a command to start or to update
/// polling.
pub proof fn lemma_step_keeps_one_task(view: WorkerView, command: AppCommand)
    ensures
        alive_after_all(held(view), step_spec(view, command).1) == held(
            step_spec(view, command).0,
        ),
        held(step_spec(view, command).0).len() <= 1,
        held(step_spec(view, command).0).finite(),
        (command is StartPolling || command is UpdatePolling) ==> held(
            step_spec(view, command).0,
        ).len() == 1,
        command is StopPolling ==> held(step_spec(view, command).0).len() == 0,
{
    match command {
        AppCommand::RefreshDashboard => {
            lemma_alive_after_one(held(view), WorkerAction::FetchDashboard);
        },
        AppCommand::SubmitReassignment { fabric_id, endpoint_id, target_supernode } => {
            lemma_alive_after_one(
                held(view),
                WorkerAction::Reassign { fabric_id, endpoint_id, target_supernode },
            );
        },
        AppCommand::StartPolling { interval_secs } => {
            lemma_restart_keeps_one_task(view, interval_secs);
        },
        AppCommand::UpdatePolling { interval_secs } => {
            lemma_restart_keeps_one_task(view, interval_secs);
        },
        AppCommand::StopPolling => {
            if let Some((task, _)) = view.poll {
                lemma_alive_after_one(held(view), WorkerAction::CancelPoll { task });
            }
        },
    }
}

proof fn lemma_restart_keeps_one_task(view: WorkerView, secs: u64)
    ensures
        alive_after_all(held(view), restart_spec(view, secs).1) == held(
            restart_spec(view, secs).0,
        ),
{
    let start = WorkerAction::StartPoll { task: view.next_task, interval_secs: clamped(secs) };
    match view.poll {
        Some((task, _)) => {
            lemma_alive_after_two(held(view), WorkerAction::CancelPoll { task }, start);
        },
        None => {
            lemma_alive_after_one(held(view), start);
        },
    }
}

/// Any row of commands keeps the worker's books: starting from a worker
/// whose handle, if it has one, is for the only task alive, the tasks alive
/// after all the actions are those that the worker holds a handle for at the
/// end: one at most. No row of commands leaves two timers running.
pub proof fn lemma_run_keeps_one_task(view: WorkerView, commands: Seq<AppCommand>)
    ensures
        alive_after_all(held(view), run_spec(view, commands).1) == held(
            run_spec(view, commands).0,
        ),
        held(run_spec(view, commands).0).finite(),
        held(run_spec(view, commands).0).len() <= 1,
    decreases commands.len(),
{
    if commands.len() > 0 {
        let (mid, before) = run_spec(view, commands.drop_last());
        let (after, actions) = step_spec(mid, commands.last());
        lemma_run_keeps_one_task(view, commands.drop_last());
        lemma_step_keeps_one_task(mid, commands.last());
        lemma_alive_after_concat(held(view), before, actions);
    }
}

/// Two commands to update polling in a row leave exactly one task alive: the
/// second one's, at the second interval, clamped.
pub proof fn lemma_update_twice_leaves_one_task(view: WorkerView, first: u64, second: u64)
    ensures
        ({
            let commands = seq![
                AppCommand::UpdatePolling { interval_secs: first },
                AppCommand::UpdatePolling { interval_secs: second },
            ];
            let (after, actions) = run_spec(view, commands);
            &&& alive_after_all(held(view), actions) == held(after)
            &&& held(after).len() == 1
            &&& polling_state(after) == (PollingState::Polling { interval_secs: clamped(second) })
        }),
{
    let a = AppCommand::UpdatePolling { interval_secs: first };
    let b = AppCommand::UpdatePolling { interval_secs: second };
    let commands = seq![a, b];
    lemma_run_keeps_one_task(view, commands);
    let (mid, _) = run_spec(view, commands.drop_last());
    lemma_step_keeps_one_task(mid, b);
}

} // verus!
