//! The interface's controller: what it knows of the worker and of the
//! credentials, what it shows, and what it asks of the worker.
//!
//! The controller never waits for the network. It hands commands to the
//! worker's queue and takes events from it. Once a command could not be
//! handed over, the worker counts as failed and nothing more is sent.

use crate::auth::key::{CredentialDomain, CredentialKey};
use crate::auth::manager::CredentialManager;
use crate::auth::secret::CredentialSecret;
use crate::auth::store::CredentialStore;
use crate::channel::send_message;
use crate::clock::now_millis;
use crate::dashboard::{DashboardSnapshot, DashboardState};
use crate::text::{decimal, decimal_text, join2, join3, text_of};
use crate::ui::forms::{
    success_text, with_defaults, without_stale, FormView, ProvisionForm, ReassignmentForm,
};
use crate::ui::log::{log_lines, push_capped, with_line, LogEntry, LogLevel};
use crate::worker::{clamp_interval, clamped, AppCommand, AppEvent};
use vstd::prelude::*;

verus! {

/// The controller as the contracts see it, texts as texts.
pub struct AppView {
    pub missing: Seq<CredentialDomain>,
    pub status: Option<Seq<char>>,
    pub worker_failed: bool,
    pub polling_enabled: bool,
    pub poller_active: bool,
    pub poll_interval_secs: u64,
    pub dark_mode: bool,
    pub log: Seq<(LogLevel, Seq<char>)>,
    pub loading: bool,
    pub failure: Option<Seq<char>>,
    pub shown: DashboardSnapshot,
    pub updated_at: Option<u64>,
    pub form: FormView,
    pub provision: Option<ProvisionForm>,
}

/// What the interface wants of the worker.
#[derive(Debug)]
pub enum Intent {
    /// Gather a snapshot now.
    Refresh,
    /// Begin to poll.
    StartPolling,
    /// End polling.
    StopPolling,
    /// Poll at the interval that is set now.
    UpdatePolling,
    /// Pass a command on as it is.
    Submit(AppCommand),
}

/// The view with one more line in the log.
pub open spec fn logged(v: AppView, level: LogLevel, text: Seq<char>) -> AppView {
    AppView { log: with_line(v.log, level, text), ..v }
}

/// The view with `text` as its status and as one more line in the log.
pub open spec fn noted(v: AppView, level: LogLevel, text: Seq<char>) -> AppView {
    logged(AppView { status: Some(text), ..v }, level, text)
}

/// The view after a command could not be handed to the worker: the worker
/// counts as failed, and the status and the log say what could not be done
/// and why.
pub open spec fn send_failed(v: AppView, what: Seq<char>, cause: Seq<char>) -> AppView {
    noted(AppView { worker_failed: true, ..v }, LogLevel::Error, what + cause)
}

/// What the interface does before anything is sent, and the command that it
/// then sends, if any.
///
/// A refresh is refused, with a warning, while credentials are missing; it
/// is dropped where the worker has failed; else the dashboard shows that it
/// loads. Polling starts only where it is wanted, not yet running, the
/// worker alive and no credentials missing. Polling stops only where it
/// runs; where the worker has failed nothing is sent and polling counts as
/// stopped. An update is dropped where the worker has failed, becomes a
/// stop where polling is not wanted, and waits while credentials are
/// missing. Intervals are sent clamped.
pub open spec fn plan_spec(v: AppView, intent: Intent) -> (AppView, Option<AppCommand>) {
    match intent {
        Intent::Refresh => if v.missing.len() > 0 {
            (
                noted(
                    v,
                    LogLevel::Warn,
                    "Cannot refresh until required credentials are stored."@,
                ),
                None,
            )
        } else if v.worker_failed {
            (v, None)
        } else {
            (
                logged(
                    AppView { loading: true, failure: None, ..v },
                    LogLevel::Info,
                    "Manual refresh requested."@,
                ),
                Some(AppCommand::RefreshDashboard),
            )
        },
        Intent::StartPolling => if v.worker_failed || !v.polling_enabled || v.poller_active
            || v.missing.len() > 0 {
            (v, None)
        } else {
            (v, Some(AppCommand::StartPolling { interval_secs: clamped(v.poll_interval_secs) }))
        },
        Intent::StopPolling => stop_plan_spec(v),
        Intent::UpdatePolling => if v.worker_failed {
            (v, None)
        } else if !v.polling_enabled {
            stop_plan_spec(v)
        } else if v.missing.len() > 0 {
            (v, None)
        } else {
            (v, Some(AppCommand::UpdatePolling { interval_secs: clamped(v.poll_interval_secs) }))
        },
        Intent::Submit(command) => if v.worker_failed {
            (v, None)
        } else {
            (v, Some(command))
        },
    }
}

/// The plan of a stop: see `plan_spec`.
pub open spec fn stop_plan_spec(v: AppView) -> (AppView, Option<AppCommand>) {
    if !v.poller_active {
        (v, None)
    } else if v.worker_failed {
        (AppView { poller_active: false, ..v }, None)
    } else {
        (v, Some(AppCommand::StopPolling))
    }
}

/// The line that reports that polling has started.
pub open spec fn started_text(secs: u64) -> Seq<char> {
    "Auto-refresh started (every "@ + decimal_text(secs as nat) + "s)"@
}

/// The line that reports that polling goes on at a new interval.
pub open spec fn updated_text(secs: u64) -> Seq<char> {
    "Auto-refresh interval set to "@ + decimal_text(secs as nat) + "s"@
}

/// What the interface makes of a command that it sent: `failure` is why the
/// queue did not take it, or nothing where it did.
pub open spec fn conclude_spec(v: AppView, command: AppCommand, failure: Option<Seq<char>>)
    -> AppView {
    match command {
        AppCommand::RefreshDashboard => match failure {
            None => v,
            Some(cause) => send_failed(v, "Unable to schedule refresh: "@, cause),
        },
        AppCommand::StartPolling { interval_secs } => match failure {
            None => logged(
                AppView { poller_active: true, ..v },
                LogLevel::Info,
                started_text(interval_secs),
            ),
            Some(cause) => send_failed(v, "Unable to start auto-refresh: "@, cause),
        },
        AppCommand::StopPolling => match failure {
            None => logged(
                AppView { poller_active: false, ..v },
                LogLevel::Info,
                "Auto-refresh stopped."@,
            ),
            Some(cause) => send_failed(
                AppView { poller_active: false, ..v },
                "Unable to stop auto-refresh: "@,
                cause,
            ),
        },
        AppCommand::UpdatePolling { interval_secs } => match failure {
            None => logged(
                AppView { poller_active: true, ..v },
                LogLevel::Info,
                updated_text(interval_secs),
            ),
            Some(cause) => send_failed(
                AppView { poller_active: false, ..v },
                "Unable to update auto-refresh: "@,
                cause,
            ),
        },
        AppCommand::SubmitReassignment { .. } => match failure {
            None => v,
            Some(cause) => AppView {
                worker_failed: true,
                status: Some("Failed to schedule reassignment: "@ + cause),
                ..v
            },
        },
    }
}

/// What an intent does in all: the plan, and, where the plan sends a
/// command, what is made of the send.
pub open spec fn perform_spec(v: AppView, intent: Intent, failure: Option<Seq<char>>) -> AppView {
    match plan_spec(v, intent).1 {
        Some(command) => conclude_spec(plan_spec(v, intent).0, command, failure),
        None => plan_spec(v, intent).0,
    }
}

/// What an event from the worker does, taken at the time `now`.
pub open spec fn event_spec(v: AppView, event: AppEvent, now: u64) -> AppView {
    match event {
        AppEvent::DashboardUpdated(snapshot) => noted(
            AppView {
                shown: snapshot,
                updated_at: Some(now),
                loading: false,
                failure: None,
                form: with_defaults(without_stale(v.form, snapshot), snapshot),
                ..v
            },
            LogLevel::Info,
            "Telemetry updated successfully."@,
        ),
        AppEvent::DashboardFailed(error) => noted(
            AppView { loading: false, failure: Some(error@), ..v },
            LogLevel::Error,
            "Dashboard refresh failed: "@ + error@,
        ),
        AppEvent::ReassignmentCompleted(result) => noted(
            AppView {
                form: FormView { status: Some(success_text(result)), busy: false, ..v.form },
                ..v
            },
            LogLevel::Info,
            "Reassignment request "@ + result.request_id@ + " "@ + result.status@,
        ),
        AppEvent::ReassignmentFailed(error) => noted(
            AppView {
                form: FormView {
                    status: Some("Reassignment failed: "@ + error@),
                    busy: false,
                    ..v.form
                },
                ..v
            },
            LogLevel::Error,
            "Reassignment failed: "@ + error@,
        ),
    }
}

/// The words for a worker that is gone.
pub open spec fn disconnected_text() -> Seq<char> {
    "Background worker disconnected. Restart application after checking logs."@
}

/// What a check of one domain's credentials found: whether they are there,
/// or why that could not be told.
pub open spec fn verdict_view(verdict: (CredentialDomain, Result<bool, String>)) -> (
    CredentialDomain,
    Result<bool, Seq<char>>,
) {
    (
        verdict.0,
        match verdict.1 {
            Ok(present) => Ok(present),
            Err(cause) => Err(cause@),
        },
    )
}

/// The verdicts of a check as texts.
pub open spec fn verdicts_view(verdicts: Seq<(CredentialDomain, Result<bool, String>)>) -> Seq<
    (CredentialDomain, Result<bool, Seq<char>>),
> {
    verdicts.map_values(|v: (CredentialDomain, Result<bool, String>)| verdict_view(v))
}

/// The status line for a check that could not be made.
pub open spec fn check_failed_text(domain: CredentialDomain, cause: Seq<char>) -> Seq<char> {
    "Failed to check "@ + domain.name_text() + " credentials: "@ + cause
}

/// The view after one verdict was counted: a domain without credentials, or
/// one whose check failed, is missing; a failed check is also the status.
pub open spec fn counted(v: AppView, verdict: (CredentialDomain, Result<bool, Seq<char>>))
    -> AppView {
    match verdict.1 {
        Ok(true) => v,
        Ok(false) => AppView { missing: v.missing.push(verdict.0), ..v },
        Err(cause) => AppView {
            missing: v.missing.push(verdict.0),
            status: Some(check_failed_text(verdict.0, cause)),
            ..v
        },
    }
}

/// The view after all verdicts were counted, in order.
pub open spec fn counted_all(
    v: AppView,
    verdicts: Seq<(CredentialDomain, Result<bool, Seq<char>>)>,
) -> AppView
    decreases verdicts.len(),
{
    if verdicts.len() == 0 {
        v
    } else {
        counted(counted_all(v, verdicts.drop_last()), verdicts.last())
    }
}

/// What follows a check of the credentials: with none missing, polling
/// starts where it is wanted and a refresh is asked for; with some missing,
/// polling that runs is paused, with a warning.
pub open spec fn follow_up_spec(v: AppView, first: Option<Seq<char>>, second: Option<Seq<char>>)
    -> AppView {
    if v.missing.len() == 0 {
        let started = if v.polling_enabled {
            perform_spec(v, Intent::StartPolling, first)
        } else {
            v
        };
        perform_spec(started, Intent::Refresh, second)
    } else if v.poller_active {
        perform_spec(
            logged(v, LogLevel::Warn, "Auto-refresh paused while credentials are missing."@),
            Intent::StopPolling,
            first,
        )
    } else {
        v
    }
}

/// What a check of the credentials does in all: the verdicts are counted
/// from an empty list of missing domains, then comes what follows.
pub open spec fn checked_spec(
    v: AppView,
    verdicts: Seq<(CredentialDomain, Result<bool, Seq<char>>)>,
    first: Option<Seq<char>>,
    second: Option<Seq<char>>,
) -> AppView {
    follow_up_spec(counted_all(AppView { missing: Seq::empty(), ..v }, verdicts), first, second)
}

/// What switching polling on or off does: on, polling is started and a
/// refresh asked for; off, polling is stopped.
pub open spec fn auto_refresh_spec(
    v: AppView,
    enabled: bool,
    first: Option<Seq<char>>,
    second: Option<Seq<char>>,
) -> AppView {
    if enabled {
        perform_spec(
            perform_spec(AppView { polling_enabled: true, ..v }, Intent::StartPolling, first),
            Intent::Refresh,
            second,
        )
    } else {
        perform_spec(AppView { polling_enabled: false, ..v }, Intent::StopPolling, first)
    }
}

/// What setting the interval of polling does: the interval is kept, not
/// under the shortest, and the worker is asked to poll at it.
pub open spec fn interval_set_spec(v: AppView, secs: u64, failure: Option<Seq<char>>) -> AppView {
    perform_spec(AppView { poll_interval_secs: clamped(secs), ..v }, Intent::UpdatePolling, failure)
}

/// What a check of the credentials at the operator's wish does: the check
/// with what follows it, and then, with none missing, one more refresh.
pub open spec fn rechecked_spec(
    v: AppView,
    verdicts: Seq<(CredentialDomain, Result<bool, Seq<char>>)>,
    first: Option<Seq<char>>,
    second: Option<Seq<char>>,
    third: Option<Seq<char>>,
) -> AppView {
    let checked = checked_spec(v, verdicts, first, second);
    if checked.missing.len() == 0 {
        perform_spec(checked, Intent::Refresh, third)
    } else {
        checked
    }
}

/// The state of the interface.
#[derive(Debug)]
pub struct FabreXLensApp {
    pub dashboard_state: DashboardState,
    pub missing_credentials: Vec<CredentialDomain>,
    pub reassignment_form: ReassignmentForm,
    pub provision_form: Option<ProvisionForm>,
    pub status_message: Option<String>,
    pub worker_failed: bool,
    pub polling_enabled: bool,
    pub poller_active: bool,
    pub poll_interval_secs: u64,
    pub dark_mode: bool,
    pub telemetry_log: Vec<LogEntry>,
    pub command_tx: crossbeam_channel::Sender<AppCommand>,
}

impl View for FabreXLensApp {
    type V = AppView;

    open spec fn view(&self) -> AppView {
        AppView {
            missing: self.missing_credentials@,
            status: text_of(self.status_message),
            worker_failed: self.worker_failed,
            polling_enabled: self.polling_enabled,
            poller_active: self.poller_active,
            poll_interval_secs: self.poll_interval_secs,
            dark_mode: self.dark_mode,
            log: log_lines(self.telemetry_log@),
            loading: self.dashboard_state.loading(),
            failure: text_of(self.dashboard_state.failure()),
            shown: self.dashboard_state.shown(),
            updated_at: self.dashboard_state.updated_at(),
            form: self.reassignment_form@,
            provision: self.provision_form,
        }
    }
}

impl FabreXLensApp {
    /// The interface at its start: nothing on show yet, polling wanted but
    /// not running, at the interval given, with commands going to
    /// `command_tx`.
    pub fn new(command_tx: crossbeam_channel::Sender<AppCommand>, poll_interval_secs: u64) -> (r:
        Self)
        ensures
            r@.missing.len() == 0,
            r@.status is None,
            !r@.worker_failed,
            r@.polling_enabled,
            !r@.poller_active,
            r@.poll_interval_secs == poll_interval_secs,
            !r@.dark_mode,
            r@.log.len() == 0,
            r@.loading,
            r@.failure is None,
            r@.shown.is_empty(),
            r@.updated_at is None,
            r@.form == (FormView {
                fabric: None,
                endpoint: None,
                target: None,
                status: None,
                busy: false,
            }),
            r@.provision is None,
    {
        FabreXLensApp {
            dashboard_state: DashboardState::new(),
            missing_credentials: Vec::new(),
            reassignment_form: ReassignmentForm::default(),
            provision_form: None,
            status_message: None,
            worker_failed: false,
            polling_enabled: true,
            poller_active: false,
            poll_interval_secs,
            dark_mode: false,
            telemetry_log: Vec::new(),
            command_tx,
        }
    }

    /// Adds a line to the log, made now; the oldest lines go where there are
    /// too many.
    pub fn push_log(&mut self, level: LogLevel, message: String)
        ensures
            final(self)@ == logged(old(self)@, level, message@),
    {
        let entry = LogEntry::new(level, message);
        push_capped(&mut self.telemetry_log, entry);
    }

    fn note(&mut self, level: LogLevel, message: String)
        ensures
            final(self)@ == noted(old(self)@, level, message@),
    {
        self.status_message = Some(message.clone());
        self.push_log(level, message);
    }

    fn fail_send(&mut self, what: &str, cause: &str)
        ensures
            final(self)@ == send_failed(old(self)@, what@, cause@),
    {
        self.worker_failed = true;
        self.note(LogLevel::Error, join2(what, cause));
    }

    fn plan_stop(&mut self) -> (r: Option<AppCommand>)
        ensures
            (final(self)@, r) == stop_plan_spec(old(self)@),
    {
        if !self.poller_active {
            None
        } else if self.worker_failed {
            self.poller_active = false;
            None
        } else {
            Some(AppCommand::StopPolling)
        }
    }

    /// Does what comes before a send and gives the command to send, if any.
    pub fn plan(&mut self, intent: Intent) -> (r: Option<AppCommand>)
        ensures
            (final(self)@, r) == plan_spec(old(self)@, intent),
    {
        match intent {
            Intent::Refresh => {
                if self.missing_credentials.len() > 0 {
                    self.note(
                        LogLevel::Warn,
                        "Cannot refresh until required credentials are stored.".to_owned(),
                    );
                    None
                } else if self.worker_failed {
                    None
                } else {
                    self.dashboard_state.set_loading();
                    self.push_log(LogLevel::Info, "Manual refresh requested.".to_owned());
                    Some(AppCommand::RefreshDashboard)
                }
            },
            Intent::StartPolling => {
                if self.worker_failed || !self.polling_enabled || self.poller_active
                    || self.missing_credentials.len() > 0 {
                    None
                } else {
                    Some(
                        AppCommand::StartPolling {
                            interval_secs: clamp_interval(self.poll_interval_secs),
                        },
                    )
                }
            },
            Intent::StopPolling => self.plan_stop(),
            Intent::UpdatePolling => {
                if self.worker_failed {
                    None
                } else if !self.polling_enabled {
                    self.plan_stop()
                } else if self.missing_credentials.len() > 0 {
                    None
                } else {
                    Some(
                        AppCommand::UpdatePolling {
                            interval_secs: clamp_interval(self.poll_interval_secs),
                        },
                    )
                }
            },
            Intent::Submit(command) => {
                if self.worker_failed {
                    None
                } else {
                    Some(command)
                }
            },
        }
    }

    /// Takes in what became of the command `command` that was sent:
    /// `failure` is why the queue did not take it, or nothing where it did.
    pub fn conclude(&mut self, command: &AppCommand, failure: Option<String>)
        ensures
            final(self)@ == conclude_spec(old(self)@, *command, text_of(failure)),
    {
        match command {
            AppCommand::RefreshDashboard => {
                if let Some(cause) = failure {
                    self.fail_send("Unable to schedule refresh: ", cause.as_str());
                }
            },
            AppCommand::StartPolling { interval_secs } => {
                match failure {
                    None => {
                        self.poller_active = true;
                        let secs = decimal(*interval_secs);
                        self.push_log(
                            LogLevel::Info,
                            join3("Auto-refresh started (every ", secs.as_str(), "s)"),
                        );
                    },
                    Some(cause) => {
                        self.fail_send("Unable to start auto-refresh: ", cause.as_str());
                    },
                }
            },
            AppCommand::StopPolling => {
                self.poller_active = false;
                match failure {
                    None => {
                        self.push_log(LogLevel::Info, "Auto-refresh stopped.".to_owned());
                    },
                    Some(cause) => {
                        self.fail_send("Unable to stop auto-refresh: ", cause.as_str());
                    },
                }
            },
            AppCommand::UpdatePolling { interval_secs } => {
                match failure {
                    None => {
                        self.poller_active = true;
                        let secs = decimal(*interval_secs);
                        self.push_log(
                            LogLevel::Info,
                            join3("Auto-refresh interval set to ", secs.as_str(), "s"),
                        );
                    },
                    Some(cause) => {
                        self.poller_active = false;
                        self.fail_send("Unable to update auto-refresh: ", cause.as_str());
                    },
                }
            },
            AppCommand::SubmitReassignment { .. } => {
                if let Some(cause) = failure {
                    self.worker_failed = true;
                    self.status_message = Some(
                        join2("Failed to schedule reassignment: ", cause.as_str()),
                    );
                }
            },
        }
    }

    /// Carries an intent out: plans, sends the planned command to the
    /// worker's queue, and takes in whether the queue took it. Whether it
    /// does is the queue's to say; the interface ends up as `perform_spec`
    /// gives it for that outcome.
    pub fn perform(&mut self, intent: Intent)
        ensures
            exists|failure: Option<Seq<char>>|
                final(self)@ == perform_spec(old(self)@, intent, failure),
    {
        match self.plan(intent) {
            Some(command) => {
                let sent = command.clone();
                let failure = match send_message(&self.command_tx, command) {
                    Ok(()) => None,
                    Err(cause) => Some(cause),
                };
                self.conclude(&sent, failure);
                assert(self@ == perform_spec(old(self)@, intent, text_of(failure)));
            },
            None => {},
        }
    }

    /// Asks the worker for a snapshot now.
    pub fn request_refresh(&mut self)
        ensures
            exists|failure: Option<Seq<char>>|
                final(self)@ == perform_spec(old(self)@, Intent::Refresh, failure),
    {
        self.perform(Intent::Refresh);
    }

    /// Asks the worker to begin polling.
    pub fn start_polling(&mut self)
        ensures
            exists|failure: Option<Seq<char>>|
                final(self)@ == perform_spec(old(self)@, Intent::StartPolling, failure),
    {
        self.perform(Intent::StartPolling);
    }

    /// Asks the worker to end polling.
    pub fn stop_polling(&mut self)
        ensures
            exists|failure: Option<Seq<char>>|
                final(self)@ == perform_spec(old(self)@, Intent::StopPolling, failure),
    {
        self.perform(Intent::StopPolling);
    }

    /// Asks the worker to poll at the interval that is set now.
    pub fn update_polling(&mut self)
        ensures
            exists|failure: Option<Seq<char>>|
                final(self)@ == perform_spec(old(self)@, Intent::UpdatePolling, failure),
    {
        self.perform(Intent::UpdatePolling);
    }

    /// Sends a command that a form gave.
    pub fn submit(&mut self, command: AppCommand)
        ensures
            exists|failure: Option<Seq<char>>|
                final(self)@ == perform_spec(old(self)@, Intent::Submit(command), failure),
    {
        self.perform(Intent::Submit(command));
    }

    /// Takes in an event from the worker at the time `now`. A snapshot goes
    /// on show and the reassignment form follows it; a failed refresh is
    /// shown over the last good snapshot; the answer to a reassignment frees
    /// the form. Each is the status and a line in the log.
    pub fn handle_event_at(&mut self, event: AppEvent, now: u64)
        ensures
            final(self)@ == event_spec(old(self)@, event, now),
    {
        match event {
            AppEvent::DashboardUpdated(snapshot) => {
                self.dashboard_state.update_at(snapshot, now);
                self.reassignment_form.on_snapshot(self.dashboard_state.snapshot());
                self.note(LogLevel::Info, "Telemetry updated successfully.".to_owned());
            },
            AppEvent::DashboardFailed(error) => {
                let message = join2("Dashboard refresh failed: ", error.as_str());
                self.dashboard_state.set_error(error);
                self.note(LogLevel::Error, message);
            },
            AppEvent::ReassignmentCompleted(result) => {
                self.reassignment_form.on_success(&result);
                let head = join3("Reassignment request ", result.request_id.as_str(), " ");
                self.note(LogLevel::Info, join2(head.as_str(), result.status.as_str()));
            },
            AppEvent::ReassignmentFailed(error) => {
                self.reassignment_form.on_failure(error.as_str());
                self.note(LogLevel::Error, join2("Reassignment failed: ", error.as_str()));
            },
        }
    }

    /// Takes in an event from the worker now: `handle_event_at` at the
    /// clock's reading.
    pub fn handle_event(&mut self, event: AppEvent)
        ensures
            exists|now: u64| final(self)@ == event_spec(old(self)@, event, now),
    {
        let now = now_millis();
        self.handle_event_at(event, now);
    }

    /// The worker's event queue is closed: the worker counts as failed,
    /// nothing polls, and the status and the log say so.
    pub fn worker_disconnected(&mut self)
        ensures
            final(self)@ == noted(
                AppView { worker_failed: true, poller_active: false, ..old(self)@ },
                LogLevel::Error,
                disconnected_text(),
            ),
    {
        self.worker_failed = true;
        self.poller_active = false;
        self.note(
            LogLevel::Error,
            "Background worker disconnected. Restart application after checking logs.".to_owned(),
        );
    }

    fn count(&mut self, domain: CredentialDomain, verdict: &Result<bool, String>)
        ensures
            final(self)@ == counted(old(self)@, verdict_view((domain, *verdict))),
    {
        match verdict {
            Ok(true) => {},
            Ok(false) => {
                self.missing_credentials.push(domain);
            },
            Err(cause) => {
                let head = join3("Failed to check ", domain.name(), " credentials: ");
                self.status_message = Some(join2(head.as_str(), cause.as_str()));
                self.missing_credentials.push(domain);
            },
        }
    }

    fn follow_up(&mut self)
        ensures
            exists|first: Option<Seq<char>>, second: Option<Seq<char>>|
                final(self)@ == follow_up_spec(old(self)@, first, second),
    {
        if self.missing_credentials.len() == 0 {
            let ghost first: Option<Seq<char>> = None;
            if self.polling_enabled {
                self.perform(Intent::StartPolling);
                proof {
                    first = choose|f: Option<Seq<char>>|
                        self@ == perform_spec(old(self)@, Intent::StartPolling, f);
                }
            }
            let ghost started = self@;
            self.perform(Intent::Refresh);
            proof {
                let second = choose|f: Option<Seq<char>>|
                    self@ == perform_spec(started, Intent::Refresh, f);
                assert(self@ == follow_up_spec(old(self)@, first, second));
            }
        } else if self.poller_active {
            self.push_log(
                LogLevel::Warn,
                "Auto-refresh paused while credentials are missing.".to_owned(),
            );
            let ghost warned = self@;
            self.perform(Intent::StopPolling);
            proof {
                let first = choose|f: Option<Seq<char>>|
                    self@ == perform_spec(warned, Intent::StopPolling, f);
                assert(self@ == follow_up_spec(old(self)@, first, None));
            }
        } else {
            assert(self@ == follow_up_spec(old(self)@, None, None));
        }
    }

    /// Takes in the verdicts of a check of the credentials and does what
    /// follows: the list of missing domains is made anew from the verdicts;
    /// then polling and a refresh are asked for, or polling is paused.
    pub fn apply_credentials_check(&mut self, verdicts: &Vec<(CredentialDomain, Result<bool, String>)>)
        ensures
            exists|first: Option<Seq<char>>, second: Option<Seq<char>>|
                final(self)@ == checked_spec(old(self)@, verdicts_view(verdicts@), first, second),
    {
        self.missing_credentials = Vec::new();
        let ghost start = self@;
        let mut i: usize = 0;
        while i < verdicts.len()
            invariant
                i <= verdicts.len(),
                self@ == counted_all(start, verdicts_view(verdicts@).subrange(0, i as int)),
            decreases verdicts.len() - i,
        {
            proof {
                let next = verdicts_view(verdicts@).subrange(0, i as int + 1);
                assert(next.drop_last() =~= verdicts_view(verdicts@).subrange(0, i as int));
            }
            self.count(verdicts[i].0, &verdicts[i].1);
            i += 1;
        }
        assert(verdicts_view(verdicts@).subrange(0, i as int) =~= verdicts_view(verdicts@));
        let ghost counted = self@;
        self.follow_up();
        proof {
            let (first, second) = choose|first: Option<Seq<char>>, second: Option<Seq<char>>|
                self@ == follow_up_spec(counted, first, second);
            assert(self@ == checked_spec(old(self)@, verdicts_view(verdicts@), first, second));
        }
    }

    /// Checks whether each domain has credentials and does what follows.
    /// Where the manager's store is itself the whole of what it keeps, the
    /// verdicts are what the store holds under each domain's default key.
    pub fn refresh_missing_credentials<S: CredentialStore>(
        &mut self,
        manager: &CredentialManager<S>,
    )
        ensures
            exists|
                verdicts: Seq<(CredentialDomain, Result<bool, Seq<char>>)>,
                first: Option<Seq<char>>,
                second: Option<Seq<char>>,
            |
                {
                    &&& verdicts.len() == 4
                    &&& forall|i: int|
                        0 <= i < 4 ==> (#[trigger] verdicts[i]).0
                            == CredentialDomain::all_spec()[i]
                    &&& manager.stored() matches Some(secrets) ==> forall|i: int|
                        0 <= i < 4 ==> (#[trigger] verdicts[i]).1 == Ok::<bool, Seq<char>>(
                            secrets.contains_key((CredentialDomain::all_spec()[i], "default"@)),
                        )
                    &&& final(self)@ == checked_spec(old(self)@, verdicts, first, second)
                },
    {
        let verdicts = probe_credentials(manager);
        self.apply_credentials_check(&verdicts);
        proof {
            let (first, second) = choose|first: Option<Seq<char>>, second: Option<Seq<char>>|
                self@ == checked_spec(old(self)@, verdicts_view(verdicts@), first, second);
            let views = verdicts_view(verdicts@);
            assert forall|i: int| 0 <= i < 4 implies (#[trigger] views[i]).0
                == CredentialDomain::all_spec()[i] by {
            }
            if let Some(secrets) = manager.stored() {
                assert forall|i: int| 0 <= i < 4 implies (#[trigger] views[i]).1 == Ok::<
                    bool,
                    Seq<char>,
                >(secrets.contains_key((CredentialDomain::all_spec()[i], "default"@))) by {
                }
            }
        }
    }

    /// Checks the credentials again at the operator's wish, and asks for a
    /// refresh where none are missing.
    pub fn recheck_credentials<S: CredentialStore>(&mut self, manager: &CredentialManager<S>)
        ensures
            exists|
                verdicts: Seq<(CredentialDomain, Result<bool, Seq<char>>)>,
                first: Option<Seq<char>>,
                second: Option<Seq<char>>,
                third: Option<Seq<char>>,
            |
                {
                    &&& verdicts.len() == 4
                    &&& forall|i: int|
                        0 <= i < 4 ==> (#[trigger] verdicts[i]).0
                            == CredentialDomain::all_spec()[i]
                    &&& manager.stored() matches Some(secrets) ==> forall|i: int|
                        0 <= i < 4 ==> (#[trigger] verdicts[i]).1 == Ok::<bool, Seq<char>>(
                            secrets.contains_key((CredentialDomain::all_spec()[i], "default"@)),
                        )
                    &&& final(self)@ == rechecked_spec(old(self)@, verdicts, first, second, third)
                },
    {
        self.refresh_missing_credentials(manager);
        let ghost checked = self@;
        let ghost (verdicts, first, second) = choose|
            verdicts: Seq<(CredentialDomain, Result<bool, Seq<char>>)>,
            first: Option<Seq<char>>,
            second: Option<Seq<char>>,
        |
            {
                &&& verdicts.len() == 4
                &&& forall|i: int|
                    0 <= i < 4 ==> (#[trigger] verdicts[i]).0 == CredentialDomain::all_spec()[i]
                &&& manager.stored() matches Some(secrets) ==> forall|i: int|
                    0 <= i < 4 ==> (#[trigger] verdicts[i]).1 == Ok::<bool, Seq<char>>(
                        secrets.contains_key((CredentialDomain::all_spec()[i], "default"@)),
                    )
                &&& checked == checked_spec(old(self)@, verdicts, first, second)
            };
        if self.missing_credentials.len() == 0 {
            self.perform(Intent::Refresh);
            proof {
                let third = choose|f: Option<Seq<char>>|
                    self@ == perform_spec(checked, Intent::Refresh, f);
                assert(self@ == rechecked_spec(old(self)@, verdicts, first, second, third));
            }
        } else {
            assert(self@ == rechecked_spec(old(self)@, verdicts, first, second, None));
        }
    }

    /// Switches polling on or off at the operator's wish: on, polling is
    /// started and a refresh asked for; off, polling is stopped.
    pub fn set_auto_refresh(&mut self, enabled: bool)
        ensures
            exists|first: Option<Seq<char>>, second: Option<Seq<char>>|
                final(self)@ == auto_refresh_spec(old(self)@, enabled, first, second),
    {
        self.polling_enabled = enabled;
        let ghost set = self@;
        if enabled {
            self.perform(Intent::StartPolling);
            let ghost started = self@;
            self.perform(Intent::Refresh);
            proof {
                let first = choose|f: Option<Seq<char>>|
                    started == perform_spec(set, Intent::StartPolling, f);
                let second = choose|f: Option<Seq<char>>|
                    self@ == perform_spec(started, Intent::Refresh, f);
                assert(self@ == auto_refresh_spec(old(self)@, enabled, first, second));
            }
        } else {
            self.perform(Intent::StopPolling);
            proof {
                let first = choose|f: Option<Seq<char>>|
                    self@ == perform_spec(set, Intent::StopPolling, f);
                assert(self@ == auto_refresh_spec(old(self)@, enabled, first, None));
            }
        }
    }

    /// Sets the interval of polling at the operator's wish, not under the
    /// shortest, and asks the worker to poll at it.
    pub fn set_poll_interval(&mut self, secs: u64)
        ensures
            exists|failure: Option<Seq<char>>|
                final(self)@ == interval_set_spec(old(self)@, secs, failure),
    {
        self.poll_interval_secs = clamp_interval(secs);
        let ghost set = self@;
        self.perform(Intent::UpdatePolling);
        proof {
            let failure = choose|f: Option<Seq<char>>|
                self@ == perform_spec(set, Intent::UpdatePolling, f);
            assert(self@ == interval_set_spec(old(self)@, secs, failure));
        }
    }

    /// Switches between the dark and the light theme and logs it.
    pub fn set_dark_mode(&mut self, dark_mode: bool)
        ensures
            final(self)@ == logged(
                AppView { dark_mode, ..old(self)@ },
                LogLevel::Info,
                if dark_mode {
                    "Switched to dark theme"@
                } else {
                    "Switched to light theme"@
                },
            ),
    {
        self.dark_mode = dark_mode;
        let text = if dark_mode {
            "Switched to dark theme"
        } else {
            "Switched to light theme"
        };
        self.push_log(LogLevel::Info, text.to_owned());
    }

    /// Logs that a reassignment is about to be sent; other commands leave no
    /// line.
    pub fn note_submission(&mut self, command: &AppCommand)
        ensures
            final(self)@ == match *command {
                AppCommand::SubmitReassignment { endpoint_id, target_supernode, .. } => logged(
                    old(self)@,
                    LogLevel::Info,
                    "Submitting reassignment for endpoint "@ + endpoint_id@
                        + " toward supernode "@ + target_supernode@,
                ),
                _ => old(self)@,
            },
    {
        if let AppCommand::SubmitReassignment { endpoint_id, target_supernode, .. } = command {
            let head = join3(
                "Submitting reassignment for endpoint ",
                endpoint_id.as_str(),
                " toward supernode ",
            );
            self.push_log(LogLevel::Info, join2(head.as_str(), target_supernode.as_str()));
        }
    }

    /// Opens the form that takes the credentials of `domain`.
    pub fn open_provision(&mut self, domain: CredentialDomain)
        ensures
            final(self)@.provision matches Some(form) && form.domain == domain
                && form.username@.len() == 0 && form.password@.len() == 0
                && form.api_token@.len() == 0 && form.error is None,
            final(self)@ == (AppView { provision: final(self)@.provision, ..old(self)@ }),
    {
        self.provision_form = Some(ProvisionForm::new(domain));
    }

    /// Closes the credentials form without storing anything.
    pub fn cancel_provision(&mut self)
        ensures
            final(self)@ == (AppView { provision: None, ..old(self)@ }),
    {
        self.provision_form = None;
    }

    /// Stores the secret that the credentials form gave for `domain`. Stored,
    /// the form closes, the status and the log say so, and the credentials
    /// are checked again. Not stored, the log says why and the form opens
    /// again with the secret's fields and the error. A store that is itself
    /// the whole of what it keeps always stores.
    pub fn provision_submitted<S: CredentialStore>(
        &mut self,
        manager: &mut CredentialManager<S>,
        domain: CredentialDomain,
        secret: CredentialSecret,
    )
        ensures
            final(manager).tokens() == old(manager).tokens(),
            final(manager).interactive() == old(manager).interactive(),
            old(manager).stored() is None ==> final(manager).stored() is None,
            old(manager).stored() matches Some(before) ==> final(manager).stored() == Some(
                before.insert((domain, "default"@), secret),
            ) && final(self)@.provision is None,
            final(self)@.provision is None ==> exists|
                verdicts: Seq<(CredentialDomain, Result<bool, Seq<char>>)>,
                first: Option<Seq<char>>,
                second: Option<Seq<char>>,
            |
                final(self)@ == checked_spec(
                    stored_spec(old(self)@, domain),
                    verdicts,
                    first,
                    second,
                ),
            final(self)@.provision matches Some(form) ==> exists|cause: Seq<char>|
                {
                    &&& final(self)@ == (AppView {
                        provision: Some(form),
                        ..not_stored_spec(old(self)@, domain, cause)
                    })
                    &&& form.domain == domain
                    &&& form.username == secret.username
                    &&& form.password == secret.password
                    &&& text_of(form.error) == Some("Unable to store credentials: "@ + cause)
                },
    {
        self.provision_form = None;
        let key = CredentialKey::default(domain);
        match manager.set_credentials(&key, &secret) {
            Ok(()) => {
                self.note(LogLevel::Info, join2("Stored credentials for ", domain.name()));
                let ghost stored = self@;
                self.refresh_missing_credentials(manager);
                proof {
                    let (verdicts, first, second) = choose|
                        verdicts: Seq<(CredentialDomain, Result<bool, Seq<char>>)>,
                        first: Option<Seq<char>>,
                        second: Option<Seq<char>>,
                    |
                        self@ == checked_spec(stored, verdicts, first, second);
                    lemma_check_keeps_form(stored, verdicts, first, second);
                }
            },
            Err(err) => {
                let cause = err.to_string();
                let head = join3("Failed to store ", domain.name(), " credentials: ");
                self.push_log(LogLevel::Error, join2(head.as_str(), cause.as_str()));
                self.provision_form = Some(ProvisionForm::retry(domain, &secret, cause.as_str()));
            },
        }
    }
}

/// The view after a secret was stored for `domain`: the credentials form is
/// closed, and the status and the log say what was stored.
pub open spec fn stored_spec(v: AppView, domain: CredentialDomain) -> AppView {
    noted(
        AppView { provision: None, ..v },
        LogLevel::Info,
        "Stored credentials for "@ + domain.name_text(),
    )
}

/// The view after a secret could not be stored for `domain`, before the
/// credentials form opens again: the log says why.
pub open spec fn not_stored_spec(v: AppView, domain: CredentialDomain, cause: Seq<char>) -> AppView {
    logged(
        AppView { provision: None, ..v },
        LogLevel::Error,
        "Failed to store "@ + domain.name_text() + " credentials: "@ + cause,
    )
}

/// Once the worker counts as failed, no intent sends anything, and the
/// worker stays failed whatever is asked of it.
pub proof fn lemma_failed_worker_gets_nothing(
    v: AppView,
    intent: Intent,
    failure: Option<Seq<char>>,
)
    requires
        v.worker_failed,
    ensures
        plan_spec(v, intent).1 is None,
        perform_spec(v, intent, failure).worker_failed,
{
}

/// A command that the queue did not take marks the worker as failed.
pub proof fn lemma_failed_send_marks_worker(v: AppView, command: AppCommand, cause: Seq<char>)
    ensures
        conclude_spec(v, command, Some(cause)).worker_failed,
{
}

/// While credentials are missing, no refresh is sent and nothing that would
/// make the worker poll: the most that an intent to poll sends is a stop.
pub proof fn lemma_missing_credentials_block(v: AppView)
    requires
        v.missing.len() > 0,
    ensures
        plan_spec(v, Intent::Refresh).1 is None,
        plan_spec(v, Intent::StartPolling).1 is None,
        plan_spec(v, Intent::UpdatePolling).1 is None || plan_spec(v, Intent::UpdatePolling).1
            == Some(AppCommand::StopPolling),
{
}

/// Only a new snapshot takes the place of the snapshot on show: a failed
/// refresh and the answers to a reassignment leave it, and its time, as they
/// are.
pub proof fn lemma_failure_keeps_snapshot(v: AppView, event: AppEvent, now: u64)
    requires
        !(event is DashboardUpdated),
    ensures
        event_spec(v, event, now).shown == v.shown,
        event_spec(v, event, now).updated_at == v.updated_at,
{
}

proof fn lemma_perform_keeps_form(v: AppView, intent: Intent, failure: Option<Seq<char>>)
    ensures
        perform_spec(v, intent, failure).provision == v.provision,
        perform_spec(v, intent, failure).missing == v.missing,
{
}

proof fn lemma_count_keeps_form(
    v: AppView,
    verdicts: Seq<(CredentialDomain, Result<bool, Seq<char>>)>,
)
    ensures
        counted_all(v, verdicts).provision == v.provision,
    decreases verdicts.len(),
{
    if verdicts.len() > 0 {
        lemma_count_keeps_form(v, verdicts.drop_last());
    }
}

/// A check of the credentials leaves the credentials form as it is.
pub proof fn lemma_check_keeps_form(
    v: AppView,
    verdicts: Seq<(CredentialDomain, Result<bool, Seq<char>>)>,
    first: Option<Seq<char>>,
    second: Option<Seq<char>>,
)
    ensures
        checked_spec(v, verdicts, first, second).provision == v.provision,
{
    let start = AppView { missing: Seq::empty(), ..v };
    lemma_count_keeps_form(start, verdicts);
    let counted = counted_all(start, verdicts);
    if counted.missing.len() == 0 {
        let started = if counted.polling_enabled {
            perform_spec(counted, Intent::StartPolling, first)
        } else {
            counted
        };
        lemma_perform_keeps_form(counted, Intent::StartPolling, first);
        lemma_perform_keeps_form(started, Intent::Refresh, second);
    } else if counted.poller_active {
        let warned = logged(
            counted,
            LogLevel::Warn,
            "Auto-refresh paused while credentials are missing."@,
        );
        lemma_perform_keeps_form(warned, Intent::StopPolling, first);
    }
}

/// Asks the manager, for each domain in turn, whether a secret is stored
/// under the domain's default key. A check that fails gives the error's
/// message.
pub fn probe_credentials<S: CredentialStore>(manager: &CredentialManager<S>) -> (r: Vec<
    (CredentialDomain, Result<bool, String>),
>)
    ensures
        r@.len() == 4,
        forall|i: int| 0 <= i < 4 ==> (#[trigger] r@[i]).0 == CredentialDomain::all_spec()[i],
        manager.stored() matches Some(secrets) ==> forall|i: int|
            0 <= i < 4 ==> (#[trigger] r@[i]).1 == Ok::<bool, String>(
                secrets.contains_key((CredentialDomain::all_spec()[i], "default"@)),
            ),
{
    let domains = CredentialDomain::all();
    let mut out: Vec<(CredentialDomain, Result<bool, String>)> = Vec::new();
    let mut i: usize = 0;
    while i < domains.len()
        invariant
            i <= domains.len(),
            domains@ == CredentialDomain::all_spec(),
            out@.len() == i,
            forall|j: int| 0 <= j < i ==> (#[trigger] out@[j]).0 == domains@[j],
            manager.stored() matches Some(secrets) ==> forall|j: int|
                0 <= j < i ==> (#[trigger] out@[j]).1 == Ok::<bool, String>(
                    secrets.contains_key((domains@[j], "default"@)),
                ),
        decreases domains.len() - i,
    {
        let domain = domains[i];
        let key = CredentialKey::default(domain);
        let verdict = match manager.has_credentials(&key) {
            Ok(present) => Ok(present),
            Err(err) => Err(err.to_string()),
        };
        out.push((domain, verdict));
        i += 1;
    }
    out
}

} // verus!
