use fabrexlens::api::fabrex::{
    endpoints_path, fabrics_path, reassign_endpoint_body, reassign_endpoint_path, usage_path,
};
use fabrexlens::api::gryf::{
    reassign_workload_body, reassign_workload_path, workload_path, workloads_path,
};
use fabrexlens::api::http::{check_status, DEFAULT_TIMEOUT_SECS};
use fabrexlens::api::redfish::{session_body, session_from_response, sessions_path, token_header};
use fabrexlens::api::supernode::{node_action_path, node_health_path, nodes_path};
use fabrexlens::api::{ApiClientConfig, ApiError, Paginated, Pagination};
use fabrexlens::auth::{
    AuthError, CachedToken, CredentialDomain, CredentialKey, CredentialManager, CredentialSecret,
    MemoryCredentialStore,
};
use fabrexlens::cli::{handle_command, stored_line, Cli, Command, CredentialDomainArg};
use fabrexlens::clock::{millis_from_reading, now_millis};
use fabrexlens::config::{AppConfig, AppConfigError, ConfigSource};
use fabrexlens::dashboard::{DashboardSnapshot, DashboardState};
use fabrexlens::services::{context_or_message, ServiceContext};
use fabrexlens::text::{decimal, join2, join3};
use fabrexlens::ui::log::{age_band, push_capped, AgeBand, LogEntry, LogLevel, MAX_LOG_ENTRIES};

#[test]
fn request_paths() {
    assert_eq!(fabrics_path(), "/fabrics");
    assert_eq!(endpoints_path("fab-1"), "/fabrics/fab-1/endpoints");
    assert_eq!(usage_path("fab-1"), "/fabrics/fab-1/usage");
    assert_eq!(reassign_endpoint_path("fab-1", "ep-9"), "/fabrics/fab-1/endpoints/ep-9/reassign");
    assert_eq!(
        reassign_endpoint_body("sn-42"),
        ("targetSupernodeId".to_string(), "sn-42".to_string())
    );
    assert_eq!(workloads_path(), "/workloads");
    assert_eq!(workload_path("wrk-42"), "/workloads/wrk-42");
    assert_eq!(reassign_workload_path("wrk-1"), "/workloads/wrk-1/reassign");
    assert_eq!(
        reassign_workload_body("fab-2", Some("balancing")),
        vec![
            ("targetFabricId".to_string(), Some("fab-2".to_string())),
            ("reason".to_string(), Some("balancing".to_string())),
        ]
    );
    assert_eq!(reassign_workload_body("fab-2", None)[1], ("reason".to_string(), None));
    assert_eq!(nodes_path(), "/nodes");
    assert_eq!(node_health_path("node-1"), "/nodes/node-1/health");
    assert_eq!(node_action_path("node-1", "restart"), "/nodes/node-1/actions/restart");
    assert_eq!(sessions_path(), "/redfish/v1/Sessions");
    assert_eq!(token_header(), "X-Auth-Token");
    assert_eq!(
        session_body("admin", "secret"),
        vec![
            ("UserName".to_string(), "admin".to_string()),
            ("Password".to_string(), "secret".to_string()),
        ]
    );
}

#[test]
fn session_needs_its_token() {
    let session = session_from_response("session-1".into(), Some("token123".into())).unwrap();
    assert_eq!(session.session_id, "session-1");
    assert_eq!(session.auth_token, "token123");
    assert_eq!(session.expires_at, None);
    assert!(session_from_response("session-1".into(), None).is_none());
}

#[test]
fn pagination_query_pairs() {
    assert!(Pagination::default().query_pairs().is_empty());
    let p = Pagination { limit: Some(50), cursor: Some("next-cursor".into()) };
    assert_eq!(
        p.query_pairs(),
        vec![
            ("limit".to_string(), "50".to_string()),
            ("cursor".to_string(), "next-cursor".to_string()),
        ]
    );
    let p = Pagination { limit: None, cursor: Some("wrk-10".into()) };
    assert_eq!(p.query_pairs(), vec![("cursor".to_string(), "wrk-10".to_string())]);
    let p = Pagination { limit: Some(0), cursor: None };
    assert_eq!(p.query_pairs(), vec![("limit".to_string(), "0".to_string())]);
    let p = Pagination { limit: Some(u32::MAX), cursor: None };
    assert_eq!(p.query_pairs()[0].1, "4294967295");
}

#[test]
fn paginated_has_more() {
    let page = Paginated { items: vec![1, 2], next: Some("c".to_string()) };
    assert!(page.has_more());
    let page: Paginated<u8> = Paginated { items: vec![], next: None };
    assert!(!page.has_more());
}

#[test]
fn status_decides_success() {
    assert_eq!(check_status(200, "ok".into()).unwrap(), "ok");
    assert_eq!(check_status(202, "{}".into()).unwrap(), "{}");
    assert_eq!(check_status(299, "".into()).unwrap(), "");
    for status in [100u16, 199, 300, 404, 500] {
        match check_status(status, "body".into()) {
            Err(ApiError::HttpStatus { status: s, body }) => {
                assert_eq!(s, status);
                assert_eq!(body, "body");
            }
            other => panic!("unexpected {other:?}"),
        }
    }
}

#[test]
fn api_error_messages() {
    let err = ApiError::HttpStatus { status: 404, body: "not here".into() };
    assert_eq!(err.to_string(), "HTTP 404: not here");
    assert_eq!(
        ApiError::MissingAuthToken.to_string(),
        "missing expected authentication token in response headers"
    );
    let err = ApiClientConfig::try_from_url("no url at all").unwrap_err();
    assert!(matches!(err, ApiError::Url(_)));
    assert_eq!(err.to_string(), "invalid URL: relative URL without a base");
}

#[test]
fn client_config_from_url() {
    let config = ApiClientConfig::try_from_url("HTTPS://API.GigaIO.com").unwrap();
    assert_eq!(config.base_url, "https://api.gigaio.com/");
    assert_eq!(config.timeout_secs, 15);
    assert_eq!(DEFAULT_TIMEOUT_SECS, 15);
    assert_eq!(config.user_agent, "FabreXLens/0.1.0");
    let config = config.with_timeout(3).with_user_agent("probe".into());
    assert_eq!(config.timeout_secs, 3);
    assert_eq!(config.user_agent, "probe");
    assert_eq!(config.base_url, "https://api.gigaio.com/");
    assert!(ApiClientConfig::try_from_url("").is_err());
}

#[test]
fn default_settings() {
    let config = AppConfig::default();
    assert_eq!(config.application_name, "FabreXLens");
    assert_eq!(config.fabrex_base_url, "https://api.gigaio.com/fabrexfleet");
    assert_eq!(config.gryf_base_url, "https://api.gigaio.com/gryf");
    assert_eq!(config.supernode_base_url, "https://api.gigaio.com/supernodes");
    assert_eq!(config.poll_interval_secs, 15);
}

#[test]
fn settings_sources_in_order() {
    let env = ConfigSource::Environment { prefix: "FABREXLENS".into(), separator: "__".into() };
    assert_eq!(
        AppConfig::sources(None, None),
        vec![ConfigSource::DirectoryFile { file_name: "fabrexlens.toml".into() }, env.clone()]
    );
    assert_eq!(
        AppConfig::sources(Some("dev"), None),
        vec![
            ConfigSource::DirectoryFile { file_name: "fabrexlens.dev.toml".into() },
            ConfigSource::DirectoryFile { file_name: "fabrexlens.toml".into() },
            env.clone()
        ]
    );
    assert_eq!(
        AppConfig::sources(Some("prod"), Some("/etc/lens.toml")),
        vec![
            ConfigSource::DirectoryFile { file_name: "fabrexlens.prod.toml".into() },
            ConfigSource::ExplicitFile { path: "/etc/lens.toml".into() },
            env
        ]
    );
}

#[test]
fn load_hands_the_sources_to_the_reader() {
    let cli = Cli {
        config: Some("/etc/lens.toml".into()),
        profile: Some("dev".into()),
        headless: false,
        command: None,
    };
    let loaded = AppConfig::load(&cli, |sources| {
        assert_eq!(sources, AppConfig::sources(Some("dev"), Some("/etc/lens.toml")));
        let mut config = AppConfig::default();
        config.poll_interval_secs = 42;
        Ok(config)
    })
    .unwrap();
    assert_eq!(loaded.poll_interval_secs, 42);

    let plain = Cli { config: None, profile: None, headless: true, command: None };
    let err = AppConfig::load(&plain, |sources| {
        assert_eq!(sources.len(), 2);
        Err(AppConfigError::Config(config::ConfigError::NotFound("poll_interval_secs".into())))
    })
    .unwrap_err();
    assert_eq!(
        err.to_string(),
        "configuration error: configuration property \"poll_interval_secs\" not found"
    );
}

#[test]
fn outside_errors_keep_their_words() {
    let source = serde_json::from_str::<u8>("x").unwrap_err();
    let words = source.to_string();
    let err = ApiError::Deserialize { source, body: "x".into() };
    assert_eq!(err.to_string(), format!("failed to deserialize response: {words}"));

    let io = std::io::Error::new(std::io::ErrorKind::Other, "not a terminal");
    let err = AuthError::Prompt(dialoguer::Error::IO(io));
    assert_eq!(err.to_string(), "prompt error: IO error: not a terminal");

    let err = AuthError::Serialization(serde_json::from_str::<u8>("").unwrap_err());
    assert!(err.to_string().starts_with("serialization error: EOF"));
}

#[test]
fn domain_arguments_convert() {
    assert_eq!(CredentialDomain::from(CredentialDomainArg::FabreX), CredentialDomain::FabreX);
    assert_eq!(CredentialDomain::from(CredentialDomainArg::Gryf), CredentialDomain::Gryf);
    assert_eq!(CredentialDomain::from(CredentialDomainArg::Supernode), CredentialDomain::Supernode);
    assert_eq!(CredentialDomain::from(CredentialDomainArg::Redfish), CredentialDomain::Redfish);
}

#[test]
fn auth_init_reports_what_is_stored() {
    let mut manager = CredentialManager::new(MemoryCredentialStore::new());
    let command = Command::AuthInit { domain: CredentialDomainArg::Gryf, scope: "default".into() };
    let line = handle_command(&mut manager, command.clone(), |_| {
        Ok(CredentialSecret { username: "ops".into(), password: "pw".into(), api_token: None })
    })
    .unwrap();
    assert_eq!(line, "Credentials stored for Gryf [default] (ops / no API token)");
    let line =
        handle_command(&mut manager, command.clone(), |_| panic!("already stored")).unwrap();
    assert_eq!(line, "Credentials stored for Gryf [default] (ops / no API token)");

    let mut silent = CredentialManager::new(MemoryCredentialStore::new()).with_interactive(false);
    let err = handle_command(&mut silent, command, |_| panic!("asking is off")).unwrap_err();
    assert!(matches!(err, AuthError::InteractiveDisabled(_)));

    let key = CredentialKey::new(CredentialDomain::FabreX, "lab");
    let secret =
        CredentialSecret { username: "u".into(), password: "p".into(), api_token: Some("t".into()) };
    assert_eq!(
        stored_line(&key, &secret),
        "Credentials stored for FabreX [lab] (u / \u{2022}\u{2022}\u{2022}\u{2022} API token)"
    );
}

#[test]
fn service_context_resolves_each_domain() {
    let services = ServiceContext::new(AppConfig::default());
    let mut manager = CredentialManager::new(MemoryCredentialStore::new());
    let err = services.fabrex_client(&mut manager).unwrap_err();
    assert_eq!(err, "Missing credentials for FabreX");
    assert_eq!(services.gryf_client(&mut manager).unwrap_err(), "Missing credentials for Gryf");
    assert_eq!(
        services.supernode_client(&mut manager).unwrap_err(),
        "Missing credentials for Supernode"
    );
    let secret =
        CredentialSecret { username: "u".into(), password: "p".into(), api_token: None };
    manager.set_credentials(&CredentialKey::default(CredentialDomain::FabreX), &secret).unwrap();
    manager.cache_token(
        CredentialKey::default(CredentialDomain::Gryf),
        CachedToken::new("session", None),
    );
    let setup = services.fabrex_client(&mut manager).unwrap();
    assert_eq!(setup.auth.basic, Some(("u".to_string(), "p".to_string())));
    assert_eq!(setup.config.base_url, "https://api.gigaio.com/fabrexfleet");
    assert_eq!(setup.config.timeout_secs, 15);
    let setup = services.gryf_client(&mut manager).unwrap();
    assert_eq!(setup.auth.bearer_token.as_deref(), Some("session"));
    assert_eq!(setup.config.base_url, "https://api.gigaio.com/gryf");
    let auth = services.auth_context(&mut manager, CredentialDomain::FabreX).unwrap();
    assert!(auth.bearer_token.is_none());
}

#[test]
fn service_context_refuses_a_bad_address() {
    let mut config = AppConfig::default();
    config.supernode_base_url = "::nonsense::".into();
    let services = ServiceContext::new(config);
    let mut manager = CredentialManager::new(MemoryCredentialStore::new());
    manager.cache_token(
        CredentialKey::default(CredentialDomain::Supernode),
        CachedToken::new("t", None),
    );
    let err = services.supernode_client(&mut manager).unwrap_err();
    assert!(err.starts_with("Supernode base URL: invalid URL: "), "{err}");
}

#[test]
fn context_or_message_cases() {
    let err = context_or_message(
        CredentialDomain::Redfish,
        Err(AuthError::InteractiveDisabled("k".into())),
    )
    .unwrap_err();
    assert_eq!(
        err,
        "Redfish credentials: interactive prompts disabled; cannot create credentials for k"
    );
    let err = context_or_message(
        CredentialDomain::Gryf,
        Err(AuthError::Keyring(keyring::Error::NoEntry)),
    )
    .unwrap_err();
    assert_eq!(
        err,
        "Gryf credentials: keyring error: No matching entry found in secure storage"
    );
    assert_eq!(
        context_or_message(CredentialDomain::Redfish, Ok(None)).unwrap_err(),
        "Missing credentials for Redfish"
    );
}

#[test]
fn dashboard_state_transitions() {
    let mut state = DashboardState::new();
    assert!(state.is_loading());
    assert_eq!(state.error(), None);
    assert_eq!(state.last_updated(), None);
    assert_eq!(*state.snapshot(), DashboardSnapshot::default());

    let mut snapshot = DashboardSnapshot::default();
    snapshot.alerts.push("INFO: ok".into());
    state.update_at(snapshot.clone(), 77);
    assert!(!state.is_loading());
    assert_eq!(state.last_updated(), Some(77));
    assert_eq!(*state.snapshot(), snapshot);

    state.set_error("boom".into());
    assert!(!state.is_loading());
    assert_eq!(state.error(), Some("boom"));
    assert_eq!(*state.snapshot(), snapshot);
    assert_eq!(state.last_updated(), Some(77));

    state.set_loading();
    assert!(state.is_loading());
    assert_eq!(state.error(), None);
    assert_eq!(*state.snapshot(), snapshot);

    let before = now_millis();
    state.update(DashboardSnapshot::default());
    assert!(state.last_updated().unwrap() >= before);
    assert!(!state.is_loading());
}

#[test]
fn log_entries_and_ages() {
    let entry = LogEntry::at(LogLevel::Warn, "w".into(), 1_000);
    assert_eq!(entry.age_at(1_000), Some(0));
    assert_eq!(entry.age_at(61_000), Some(60_000));
    assert_eq!(entry.age_at(999), None);
    assert_eq!(age_band(0), AgeBand::Seconds);
    assert_eq!(age_band(59_999), AgeBand::Seconds);
    assert_eq!(age_band(60_000), AgeBand::Minutes);
    assert_eq!(age_band(3_599_999), AgeBand::Minutes);
    assert_eq!(age_band(3_600_000), AgeBand::Hours);
    let made = LogEntry::new(LogLevel::Error, "e".into());
    assert_eq!(made.level, LogLevel::Error);
    assert_eq!(made.message, "e");
    assert!(made.timestamp > 1_600_000_000_000);
}

#[test]
fn log_is_capped() {
    assert_eq!(MAX_LOG_ENTRIES, 200);
    let mut log = Vec::new();
    for i in 0..200u64 {
        push_capped(&mut log, LogEntry::at(LogLevel::Info, format!("{i}"), i));
    }
    assert_eq!(log.len(), 200);
    assert_eq!(log[0].message, "0");
    push_capped(&mut log, LogEntry::at(LogLevel::Info, "200".into(), 200));
    assert_eq!(log.len(), 200);
    assert_eq!(log[0].message, "1");
    assert_eq!(log[199].message, "200");
    let mut long: Vec<LogEntry> =
        (0..300u64).map(|i| LogEntry::at(LogLevel::Info, format!("{i}"), i)).collect();
    push_capped(&mut long, LogEntry::at(LogLevel::Info, "300".into(), 300));
    assert_eq!(long.len(), 200);
    assert_eq!(long[0].message, "101");
}

#[test]
fn clock_readings_become_milliseconds() {
    assert_eq!(millis_from_reading(None), 0);
    assert_eq!(millis_from_reading(Some(0)), 0);
    assert_eq!(millis_from_reading(Some(999_999)), 0);
    assert_eq!(millis_from_reading(Some(1_000_000)), 1);
    assert_eq!(millis_from_reading(Some(1_761_000_000_123_456_789)), 1_761_000_000_123);
    assert_eq!(millis_from_reading(Some(u128::MAX)), u64::MAX);
    let a = now_millis();
    assert!(a > 1_600_000_000_000 && a < 100_000_000_000_000);
}

#[test]
fn text_helpers() {
    assert_eq!(join2("a", "b"), "ab");
    assert_eq!(join3("a", "", "c"), "ac");
    assert_eq!(decimal(0), "0");
    assert_eq!(decimal(9), "9");
    assert_eq!(decimal(10), "10");
    assert_eq!(decimal(1234567890), "1234567890");
    assert_eq!(decimal(u64::MAX), "18446744073709551615");
}
