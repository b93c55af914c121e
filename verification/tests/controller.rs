use fabrexlens::api::{FabrexEndpoint, FabrexFabric, FabrexReassignmentResult, SupernodeNode};
use fabrexlens::auth::{
    CredentialDomain, CredentialKey, CredentialManager, CredentialSecret, MemoryCredentialStore,
};
use fabrexlens::dashboard::DashboardSnapshot;
use fabrexlens::ui::controller::{probe_credentials, FabreXLensApp, Intent};
use fabrexlens::ui::log::LogLevel;
use fabrexlens::worker::{AppCommand, AppEvent};

fn app(interval: u64) -> (FabreXLensApp, crossbeam_channel::Receiver<AppCommand>) {
    let (tx, rx) = crossbeam_channel::unbounded();
    (FabreXLensApp::new(tx, interval), rx)
}

fn manager_with(domains: &[CredentialDomain]) -> CredentialManager<MemoryCredentialStore> {
    let mut manager = CredentialManager::new(MemoryCredentialStore::new());
    for d in domains {
        let secret = CredentialSecret {
            username: "u".into(),
            password: "p".into(),
            api_token: None,
        };
        manager.set_credentials(&CredentialKey::default(*d), &secret).unwrap();
    }
    manager
}

fn all_domains() -> Vec<CredentialDomain> {
    CredentialDomain::all()
}

fn last_log(app: &FabreXLensApp) -> (LogLevel, String) {
    let entry = app.telemetry_log.last().expect("a log entry");
    (entry.level, entry.message.clone())
}

fn drain(rx: &crossbeam_channel::Receiver<AppCommand>) -> Vec<AppCommand> {
    rx.try_iter().collect()
}

#[test]
fn new_app_starts_loading_and_idle() {
    let (app, rx) = app(15);
    assert!(app.dashboard_state.is_loading());
    assert!(app.polling_enabled);
    assert!(!app.poller_active);
    assert!(!app.worker_failed);
    assert_eq!(app.poll_interval_secs, 15);
    assert!(app.missing_credentials.is_empty());
    assert!(app.telemetry_log.is_empty());
    assert!(app.status_message.is_none());
    assert!(drain(&rx).is_empty());
}

#[test]
fn refresh_is_refused_while_credentials_are_missing() {
    let (mut app, rx) = app(15);
    app.missing_credentials.push(CredentialDomain::Gryf);
    app.dashboard_state.set_error("old".into());
    app.request_refresh();
    assert!(drain(&rx).is_empty());
    assert_eq!(
        app.status_message.as_deref(),
        Some("Cannot refresh until required credentials are stored.")
    );
    assert_eq!(
        last_log(&app),
        (LogLevel::Warn, "Cannot refresh until required credentials are stored.".to_string())
    );
    assert!(!app.dashboard_state.is_loading());
    assert_eq!(app.dashboard_state.error(), Some("old"));
}

#[test]
fn refresh_sends_the_command_and_shows_loading() {
    let (mut app, rx) = app(15);
    app.dashboard_state.set_error("old".into());
    app.request_refresh();
    assert_eq!(drain(&rx), vec![AppCommand::RefreshDashboard]);
    assert!(app.dashboard_state.is_loading());
    assert_eq!(app.dashboard_state.error(), None);
    assert_eq!(last_log(&app), (LogLevel::Info, "Manual refresh requested.".to_string()));
    assert!(!app.worker_failed);
    assert!(app.status_message.is_none());
}

#[test]
fn a_dropped_worker_is_noticed_and_nothing_more_is_sent() {
    let (mut app, rx) = app(15);
    drop(rx);
    app.request_refresh();
    assert!(app.worker_failed);
    let status = app.status_message.clone().unwrap();
    assert_eq!(status, "Unable to schedule refresh: sending on a disconnected channel");
    assert_eq!(last_log(&app), (LogLevel::Error, status.clone()));
    let lines = app.telemetry_log.len();

    app.request_refresh();
    app.start_polling();
    app.update_polling();
    app.submit(AppCommand::RefreshDashboard);
    assert_eq!(app.telemetry_log.len(), lines);
    assert_eq!(app.status_message, Some(status));
    assert!(!app.poller_active);
}

#[test]
fn start_polling_clamps_and_logs() {
    let (mut app, rx) = app(2);
    app.start_polling();
    assert_eq!(drain(&rx), vec![AppCommand::StartPolling { interval_secs: 5 }]);
    assert!(app.poller_active);
    assert_eq!(last_log(&app), (LogLevel::Info, "Auto-refresh started (every 5s)".to_string()));
    // already running: nothing more is sent
    app.start_polling();
    assert!(drain(&rx).is_empty());
    assert_eq!(app.telemetry_log.len(), 1);
}

#[test]
fn start_polling_needs_everything_in_place() {
    let (mut app, rx) = app(30);
    app.polling_enabled = false;
    app.start_polling();
    app.polling_enabled = true;
    app.missing_credentials.push(CredentialDomain::FabreX);
    app.start_polling();
    assert!(drain(&rx).is_empty());
    assert!(!app.poller_active);
    assert!(app.telemetry_log.is_empty());
    app.missing_credentials.clear();
    app.start_polling();
    assert_eq!(drain(&rx), vec![AppCommand::StartPolling { interval_secs: 30 }]);
    assert_eq!(last_log(&app).1, "Auto-refresh started (every 30s)");
}

#[test]
fn start_polling_failure_marks_the_worker() {
    let (mut app, rx) = app(30);
    drop(rx);
    app.start_polling();
    assert!(app.worker_failed);
    assert!(!app.poller_active);
    assert_eq!(
        app.status_message.as_deref(),
        Some("Unable to start auto-refresh: sending on a disconnected channel")
    );
    assert_eq!(last_log(&app).0, LogLevel::Error);
}

#[test]
fn stop_polling_only_when_running() {
    let (mut app, rx) = app(30);
    app.stop_polling();
    assert!(drain(&rx).is_empty());
    app.start_polling();
    app.stop_polling();
    assert_eq!(
        drain(&rx),
        vec![AppCommand::StartPolling { interval_secs: 30 }, AppCommand::StopPolling]
    );
    assert!(!app.poller_active);
    assert_eq!(last_log(&app), (LogLevel::Info, "Auto-refresh stopped.".to_string()));
}

#[test]
fn stop_polling_failure() {
    let (mut app, rx) = app(30);
    app.start_polling();
    drop(rx);
    app.stop_polling();
    assert!(app.worker_failed);
    assert!(!app.poller_active);
    assert_eq!(
        app.status_message.as_deref(),
        Some("Unable to stop auto-refresh: sending on a disconnected channel")
    );
}

#[test]
fn stop_after_worker_failure_sends_nothing() {
    let (mut app, rx) = app(30);
    app.start_polling();
    app.worker_failed = true;
    let lines = app.telemetry_log.len();
    app.stop_polling();
    assert_eq!(drain(&rx), vec![AppCommand::StartPolling { interval_secs: 30 }]);
    assert!(!app.poller_active);
    assert_eq!(app.telemetry_log.len(), lines);
}

#[test]
fn update_polling_sends_the_clamped_interval() {
    let (mut app, rx) = app(3);
    app.update_polling();
    assert_eq!(drain(&rx), vec![AppCommand::UpdatePolling { interval_secs: 5 }]);
    assert!(app.poller_active);
    assert_eq!(last_log(&app).1, "Auto-refresh interval set to 5s");
    app.set_poll_interval(600);
    assert_eq!(app.poll_interval_secs, 600);
    assert_eq!(drain(&rx), vec![AppCommand::UpdatePolling { interval_secs: 600 }]);
    assert_eq!(last_log(&app).1, "Auto-refresh interval set to 600s");
    app.set_poll_interval(1);
    assert_eq!(app.poll_interval_secs, 5);
    assert_eq!(drain(&rx), vec![AppCommand::UpdatePolling { interval_secs: 5 }]);
}

#[test]
fn update_polling_stops_when_polling_is_off() {
    let (mut app, rx) = app(30);
    app.start_polling();
    app.polling_enabled = false;
    app.update_polling();
    assert_eq!(
        drain(&rx),
        vec![AppCommand::StartPolling { interval_secs: 30 }, AppCommand::StopPolling]
    );
    assert!(!app.poller_active);
}

#[test]
fn update_polling_waits_while_credentials_are_missing() {
    let (mut app, rx) = app(30);
    app.missing_credentials.push(CredentialDomain::Supernode);
    app.set_poll_interval(45);
    assert_eq!(app.poll_interval_secs, 45);
    assert!(drain(&rx).is_empty());
    assert!(!app.poller_active);
    assert!(app.telemetry_log.is_empty());
    app.missing_credentials.clear();
    app.start_polling();
    assert_eq!(drain(&rx), vec![AppCommand::StartPolling { interval_secs: 45 }]);
}

#[test]
fn update_polling_failure() {
    let (mut app, rx) = app(30);
    app.poller_active = true;
    drop(rx);
    app.update_polling();
    assert!(app.worker_failed);
    assert!(!app.poller_active);
    assert_eq!(
        app.status_message.as_deref(),
        Some("Unable to update auto-refresh: sending on a disconnected channel")
    );
}

#[test]
fn auto_refresh_toggle() {
    let (mut app, rx) = app(10);
    app.set_auto_refresh(false);
    assert!(!app.polling_enabled);
    assert!(drain(&rx).is_empty());
    app.set_auto_refresh(true);
    assert!(app.polling_enabled);
    assert_eq!(
        drain(&rx),
        vec![AppCommand::StartPolling { interval_secs: 10 }, AppCommand::RefreshDashboard]
    );
    app.set_auto_refresh(false);
    assert_eq!(drain(&rx), vec![AppCommand::StopPolling]);
    assert!(!app.poller_active);
}

#[test]
fn submit_passes_the_command_on() {
    let (mut app, rx) = app(10);
    let command = AppCommand::SubmitReassignment {
        fabric_id: "fab-1".into(),
        endpoint_id: "ep-9".into(),
        target_supernode: "sn-42".into(),
    };
    app.note_submission(&command);
    assert_eq!(
        last_log(&app),
        (
            LogLevel::Info,
            "Submitting reassignment for endpoint ep-9 toward supernode sn-42".to_string()
        )
    );
    app.submit(command.clone());
    assert_eq!(drain(&rx), vec![command.clone()]);
    drop(rx);
    app.submit(command);
    assert!(app.worker_failed);
    assert_eq!(
        app.status_message.as_deref(),
        Some("Failed to schedule reassignment: sending on a disconnected channel")
    );
    app.note_submission(&AppCommand::StopPolling);
    assert_eq!(app.telemetry_log.len(), 1);
}

#[test]
fn plan_and_conclude_match_perform() {
    let (mut app, rx) = app(8);
    let command = app.plan(Intent::StartPolling).unwrap();
    assert_eq!(command, AppCommand::StartPolling { interval_secs: 8 });
    assert!(!app.poller_active);
    app.conclude(&command, None);
    assert!(app.poller_active);
    assert_eq!(last_log(&app).1, "Auto-refresh started (every 8s)");
    app.conclude(&AppCommand::RefreshDashboard, Some("queue closed".into()));
    assert!(app.worker_failed);
    assert_eq!(app.status_message.as_deref(), Some("Unable to schedule refresh: queue closed"));
    assert!(app.plan(Intent::Refresh).is_none());
    assert!(drain(&rx).is_empty());
}

#[test]
fn missing_credentials_are_listed_in_order() {
    let (mut app, rx) = app(15);
    let manager = manager_with(&[CredentialDomain::Gryf]);
    app.refresh_missing_credentials(&manager);
    assert_eq!(
        app.missing_credentials,
        vec![CredentialDomain::FabreX, CredentialDomain::Supernode, CredentialDomain::Redfish]
    );
    assert!(drain(&rx).is_empty());
    assert!(!app.poller_active);
    assert!(app.telemetry_log.is_empty());
}

#[test]
fn complete_credentials_start_polling_and_refresh() {
    let (mut app, rx) = app(15);
    let manager = manager_with(&all_domains());
    app.refresh_missing_credentials(&manager);
    assert!(app.missing_credentials.is_empty());
    assert_eq!(
        drain(&rx),
        vec![AppCommand::StartPolling { interval_secs: 15 }, AppCommand::RefreshDashboard]
    );
    assert!(app.poller_active);
    assert!(app.dashboard_state.is_loading());
}

#[test]
fn losing_credentials_pauses_polling() {
    let (mut app, rx) = app(15);
    let mut manager = manager_with(&all_domains());
    app.refresh_missing_credentials(&manager);
    drain(&rx);
    manager.delete_credentials(&CredentialKey::default(CredentialDomain::Redfish)).unwrap();
    app.refresh_missing_credentials(&manager);
    assert_eq!(app.missing_credentials, vec![CredentialDomain::Redfish]);
    assert_eq!(drain(&rx), vec![AppCommand::StopPolling]);
    assert!(!app.poller_active);
    let texts: Vec<&str> = app.telemetry_log.iter().map(|e| e.message.as_str()).collect();
    assert!(texts.contains(&"Auto-refresh paused while credentials are missing."));
    assert_eq!(*texts.last().unwrap(), "Auto-refresh stopped.");
}

#[test]
fn recheck_asks_for_a_second_refresh() {
    let (mut app, rx) = app(15);
    let manager = manager_with(&all_domains());
    app.recheck_credentials(&manager);
    assert_eq!(
        drain(&rx),
        vec![
            AppCommand::StartPolling { interval_secs: 15 },
            AppCommand::RefreshDashboard,
            AppCommand::RefreshDashboard
        ]
    );
}

#[test]
fn probe_reports_each_domain() {
    let manager = manager_with(&[CredentialDomain::FabreX, CredentialDomain::Redfish]);
    assert_eq!(
        probe_credentials(&manager),
        vec![
            (CredentialDomain::FabreX, Ok(true)),
            (CredentialDomain::Gryf, Ok(false)),
            (CredentialDomain::Supernode, Ok(false)),
            (CredentialDomain::Redfish, Ok(true)),
        ]
    );
}

#[test]
fn failed_checks_count_as_missing() {
    let (mut app, rx) = app(15);
    app.apply_credentials_check(&vec![
        (CredentialDomain::FabreX, Ok(true)),
        (CredentialDomain::Gryf, Err("keyring error: locked".to_string())),
        (CredentialDomain::Supernode, Ok(false)),
        (CredentialDomain::Redfish, Ok(true)),
    ]);
    assert_eq!(app.missing_credentials, vec![CredentialDomain::Gryf, CredentialDomain::Supernode]);
    assert_eq!(
        app.status_message.as_deref(),
        Some("Failed to check Gryf credentials: keyring error: locked")
    );
    assert!(drain(&rx).is_empty());
}

fn snapshot() -> DashboardSnapshot {
    DashboardSnapshot {
        fabrics: vec![FabrexFabric {
            id: "fab-1".into(),
            name: "Prod".into(),
            status: "Healthy".into(),
            description: None,
        }],
        fabric_usage: vec![],
        workloads: vec![],
        supernodes: vec![SupernodeNode {
            id: "sn-42".into(),
            name: "Node".into(),
            role: "compute".into(),
            status: "online".into(),
        }],
        endpoints: vec![FabrexEndpoint {
            id: "ep-9".into(),
            name: "E".into(),
            fabric_id: Some("fab-1".into()),
            attached_supernode_id: None,
            status: "assigned".into(),
        }],
        alerts: vec![],
    }
}

#[test]
fn dashboard_events_update_the_state() {
    let (mut app, _rx) = app(15);
    app.handle_event_at(AppEvent::DashboardUpdated(snapshot()), 1234);
    assert!(!app.dashboard_state.is_loading());
    assert_eq!(app.dashboard_state.last_updated(), Some(1234));
    assert_eq!(*app.dashboard_state.snapshot(), snapshot());
    assert_eq!(app.status_message.as_deref(), Some("Telemetry updated successfully."));
    assert_eq!(last_log(&app), (LogLevel::Info, "Telemetry updated successfully.".to_string()));
    assert_eq!(app.reassignment_form.selected_fabric.as_deref(), Some("fab-1"));
    assert_eq!(app.reassignment_form.selected_endpoint.as_deref(), Some("ep-9"));
    assert_eq!(app.reassignment_form.target_supernode.as_deref(), Some("sn-42"));

    app.handle_event(AppEvent::DashboardFailed("Fetching usage for fabric fab-2: boom".into()));
    assert_eq!(*app.dashboard_state.snapshot(), snapshot());
    assert_eq!(app.dashboard_state.last_updated(), Some(1234));
    assert_eq!(app.dashboard_state.error(), Some("Fetching usage for fabric fab-2: boom"));
    assert_eq!(
        app.status_message.as_deref(),
        Some("Dashboard refresh failed: Fetching usage for fabric fab-2: boom")
    );
    assert_eq!(last_log(&app).0, LogLevel::Error);
}

#[test]
fn reassignment_events_free_the_form() {
    let (mut app, _rx) = app(15);
    app.handle_event_at(AppEvent::DashboardUpdated(snapshot()), 1);
    assert!(app.reassignment_form.submit().is_some());
    assert!(app.reassignment_form.busy);
    app.handle_event(AppEvent::ReassignmentCompleted(FabrexReassignmentResult {
        request_id: "req-100".into(),
        status: "accepted".into(),
        message: Some("Reassignment in progress".into()),
    }));
    assert!(!app.reassignment_form.busy);
    assert_eq!(app.reassignment_form.status.as_deref(), Some("Reassignment in progress"));
    assert_eq!(app.status_message.as_deref(), Some("Reassignment request req-100 accepted"));
    assert_eq!(
        last_log(&app),
        (LogLevel::Info, "Reassignment request req-100 accepted".to_string())
    );

    app.reassignment_form.busy = true;
    app.handle_event(AppEvent::ReassignmentFailed("HTTP 409: busy".into()));
    assert!(!app.reassignment_form.busy);
    assert_eq!(
        app.reassignment_form.status.as_deref(),
        Some("Reassignment failed: HTTP 409: busy")
    );
    assert_eq!(app.status_message.as_deref(), Some("Reassignment failed: HTTP 409: busy"));
}

#[test]
fn worker_disconnect_is_fatal() {
    let (mut app, _rx) = app(15);
    app.poller_active = true;
    app.worker_disconnected();
    assert!(app.worker_failed);
    assert!(!app.poller_active);
    let text = "Background worker disconnected. Restart application after checking logs.";
    assert_eq!(app.status_message.as_deref(), Some(text));
    assert_eq!(last_log(&app), (LogLevel::Error, text.to_string()));
}

#[test]
fn dark_mode_is_logged() {
    let (mut app, _rx) = app(15);
    app.set_dark_mode(true);
    assert!(app.dark_mode);
    assert_eq!(last_log(&app).1, "Switched to dark theme");
    app.set_dark_mode(false);
    assert!(!app.dark_mode);
    assert_eq!(last_log(&app).1, "Switched to light theme");
}

#[test]
fn log_keeps_the_newest_two_hundred() {
    let (mut app, _rx) = app(15);
    for i in 0..250 {
        app.push_log(LogLevel::Info, format!("line {i}"));
    }
    assert_eq!(app.telemetry_log.len(), 200);
    assert_eq!(app.telemetry_log[0].message, "line 50");
    assert_eq!(app.telemetry_log[199].message, "line 249");
}

#[test]
fn provisioning_stores_and_rechecks() {
    let (mut app, rx) = app(15);
    let mut manager = manager_with(&[
        CredentialDomain::FabreX,
        CredentialDomain::Gryf,
        CredentialDomain::Supernode,
    ]);
    app.refresh_missing_credentials(&manager);
    assert_eq!(app.missing_credentials, vec![CredentialDomain::Redfish]);
    app.open_provision(CredentialDomain::Redfish);
    assert_eq!(app.provision_form.as_ref().unwrap().domain, CredentialDomain::Redfish);
    let secret = CredentialSecret {
        username: "root".into(),
        password: "pw".into(),
        api_token: None,
    };
    app.provision_submitted(&mut manager, CredentialDomain::Redfish, secret.clone());
    assert!(app.provision_form.is_none());
    assert_eq!(
        manager.get_credentials(&CredentialKey::default(CredentialDomain::Redfish)).unwrap(),
        Some(secret)
    );
    assert!(app.missing_credentials.is_empty());
    let texts: Vec<&str> = app.telemetry_log.iter().map(|e| e.message.as_str()).collect();
    assert!(texts.contains(&"Stored credentials for Redfish"));
    assert_eq!(
        drain(&rx),
        vec![AppCommand::StartPolling { interval_secs: 15 }, AppCommand::RefreshDashboard]
    );
    app.open_provision(CredentialDomain::Gryf);
    app.cancel_provision();
    assert!(app.provision_form.is_none());
}
