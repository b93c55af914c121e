use fabrexlens::api::{FabrexEndpoint, FabrexFabric, FabrexReassignmentResult, SupernodeNode};
use fabrexlens::auth::{CredentialDomain, CredentialSecret};
use fabrexlens::dashboard::DashboardSnapshot;
use fabrexlens::ui::forms::{ProvisionForm, ReassignmentForm};
use fabrexlens::worker::AppCommand;

fn fabric(id: &str, name: &str) -> FabrexFabric {
    FabrexFabric { id: id.into(), name: name.into(), status: "Healthy".into(), description: None }
}

fn node(id: &str, name: &str) -> SupernodeNode {
    SupernodeNode { id: id.into(), name: name.into(), role: "compute".into(), status: "online".into() }
}

fn endpoint(id: &str, name: &str, fabric: Option<&str>) -> FabrexEndpoint {
    FabrexEndpoint {
        id: id.into(),
        name: name.into(),
        fabric_id: fabric.map(|f| f.to_string()),
        attached_supernode_id: None,
        status: "assigned".into(),
    }
}

fn snapshot() -> DashboardSnapshot {
    DashboardSnapshot {
        fabrics: vec![fabric("fab-1", "Prod"), fabric("fab-2", "Lab")],
        fabric_usage: vec![],
        workloads: vec![],
        supernodes: vec![node("sn-1", "One"), node("sn-2", "Two")],
        endpoints: vec![
            endpoint("ep-0", "Stray", None),
            endpoint("ep-1", "A", Some("fab-2")),
            endpoint("ep-2", "B", Some("fab-1")),
            endpoint("ep-3", "C", Some("fab-1")),
        ],
        alerts: vec![],
    }
}

#[test]
fn defaults_pick_the_first_of_each() {
    let mut form = ReassignmentForm::default();
    form.ensure_defaults(&snapshot());
    assert_eq!(form.selected_fabric.as_deref(), Some("fab-1"));
    assert_eq!(form.target_supernode.as_deref(), Some("sn-1"));
    assert_eq!(form.selected_endpoint.as_deref(), Some("ep-2"));
    assert!(!form.busy);
    assert!(form.status.is_none());
}

#[test]
fn defaults_keep_what_is_chosen() {
    let mut form = ReassignmentForm::default();
    form.selected_fabric = Some("fab-2".into());
    form.target_supernode = Some("sn-2".into());
    form.ensure_defaults(&snapshot());
    assert_eq!(form.selected_fabric.as_deref(), Some("fab-2"));
    assert_eq!(form.target_supernode.as_deref(), Some("sn-2"));
    assert_eq!(form.selected_endpoint.as_deref(), Some("ep-1"));
}

#[test]
fn defaults_on_an_empty_snapshot_choose_nothing() {
    let mut form = ReassignmentForm::default();
    form.ensure_defaults(&DashboardSnapshot::default());
    assert_eq!(form, ReassignmentForm::default());
}

#[test]
fn stale_choices_are_dropped_on_a_new_snapshot() {
    let mut form = ReassignmentForm::default();
    form.selected_fabric = Some("fab-gone".into());
    form.selected_endpoint = Some("ep-3".into());
    form.target_supernode = Some("sn-gone".into());
    form.status = Some("kept".into());
    form.on_snapshot(&snapshot());
    // the fabric is gone, and it took the endpoint with it; defaults fill in
    assert_eq!(form.selected_fabric.as_deref(), Some("fab-1"));
    assert_eq!(form.selected_endpoint.as_deref(), Some("ep-2"));
    assert_eq!(form.target_supernode.as_deref(), Some("sn-1"));
    assert_eq!(form.status.as_deref(), Some("kept"));

    let mut form = ReassignmentForm::default();
    form.selected_fabric = Some("fab-1".into());
    form.selected_endpoint = Some("ep-gone".into());
    form.target_supernode = Some("sn-2".into());
    form.on_snapshot(&snapshot());
    assert_eq!(form.selected_fabric.as_deref(), Some("fab-1"));
    assert_eq!(form.selected_endpoint.as_deref(), Some("ep-2"));
    assert_eq!(form.target_supernode.as_deref(), Some("sn-2"));

    let mut form = ReassignmentForm::default();
    form.selected_fabric = Some("fab-1".into());
    form.selected_endpoint = Some("ep-3".into());
    form.on_snapshot(&snapshot());
    assert_eq!(form.selected_endpoint.as_deref(), Some("ep-3"));
}

#[test]
fn labels() {
    let s = snapshot();
    let mut form = ReassignmentForm::default();
    assert_eq!(form.fabric_label(&s), "Select a fabric");
    assert_eq!(form.endpoint_label(&s.endpoints), "Select an endpoint");
    assert_eq!(form.supernode_label(&s), "Select a supernode");
    form.selected_fabric = Some("fab-2".into());
    form.selected_endpoint = Some("ep-3".into());
    form.target_supernode = Some("sn-2".into());
    assert_eq!(form.fabric_label(&s), "Lab");
    assert_eq!(form.endpoint_label(&s.endpoints), "C");
    assert_eq!(form.supernode_label(&s), "Two");
    form.selected_fabric = Some("nope".into());
    assert_eq!(form.fabric_label(&s), "Select a fabric");
    assert_eq!(form.endpoint_label(&vec![]), "Select an endpoint");
}

#[test]
fn endpoints_for_selected_filters_by_fabric() {
    let s = snapshot();
    let mut form = ReassignmentForm::default();
    assert!(form.endpoints_for_selected(&s).is_empty());
    form.selected_fabric = Some("fab-1".into());
    let ids: Vec<String> = form.endpoints_for_selected(&s).into_iter().map(|e| e.id).collect();
    assert_eq!(ids, vec!["ep-2", "ep-3"]);
    form.select_fabric("fab-2".into());
    assert_eq!(form.selected_endpoint, None);
    let ids: Vec<String> = form.endpoints_for_selected(&s).into_iter().map(|e| e.id).collect();
    assert_eq!(ids, vec!["ep-1"]);
    form.select_fabric("fab-3".into());
    assert!(form.endpoints_for_selected(&s).is_empty());
}

#[test]
fn submit_needs_all_three_choices() {
    let mut form = ReassignmentForm::default();
    assert!(!form.can_submit());
    assert_eq!(form.submit(), None);
    form.ensure_defaults(&snapshot());
    assert!(form.can_submit());
    let command = form.submit().unwrap();
    assert_eq!(
        command,
        AppCommand::SubmitReassignment {
            fabric_id: "fab-1".into(),
            endpoint_id: "ep-2".into(),
            target_supernode: "sn-1".into(),
        }
    );
    assert!(form.busy);
    assert_eq!(form.status.as_deref(), Some("Submitting reassignment request..."));
    assert!(!form.can_submit());
    assert_eq!(form.submit(), None);
    assert_eq!(form.status.as_deref(), Some("Submitting reassignment request..."));
}

#[test]
fn success_and_failure_free_the_form() {
    let mut form = ReassignmentForm::default();
    form.busy = true;
    form.on_success(&FabrexReassignmentResult {
        request_id: "req-100".into(),
        status: "accepted".into(),
        message: None,
    });
    assert!(!form.busy);
    assert_eq!(form.status.as_deref(), Some("Reassignment status: accepted"));
    form.busy = true;
    form.on_success(&FabrexReassignmentResult {
        request_id: "req-100".into(),
        status: "accepted".into(),
        message: Some("Reassignment in progress".into()),
    });
    assert_eq!(form.status.as_deref(), Some("Reassignment in progress"));
    form.busy = true;
    form.on_failure("HTTP 500: oops");
    assert!(!form.busy);
    assert_eq!(form.status.as_deref(), Some("Reassignment failed: HTTP 500: oops"));
}

#[test]
fn provision_form_starts_empty() {
    let form = ProvisionForm::new(CredentialDomain::Gryf);
    assert_eq!(form.domain, CredentialDomain::Gryf);
    assert!(form.username.is_empty() && form.password.is_empty() && form.api_token.is_empty());
    assert!(!form.show_password && !form.show_token);
    assert!(form.error.is_none());
    assert!(!form.can_submit());
}

#[test]
fn provision_form_needs_a_name_and_a_secret() {
    let mut form = ProvisionForm::new(CredentialDomain::Gryf);
    form.username = "  ".into();
    form.password = "pw".into();
    assert!(!form.can_submit());
    assert_eq!(form.submit(), None);
    assert_eq!(
        form.error.as_deref(),
        Some("Username and either a password or API token are required.")
    );
    form.username = " ops ".into();
    form.password = " ".into();
    form.api_token = "\t".into();
    assert!(!form.can_submit());
    form.api_token = " tok ".into();
    assert!(form.can_submit());
    let secret = form.submit().unwrap();
    assert_eq!(
        secret,
        CredentialSecret { username: "ops".into(), password: " ".into(), api_token: Some("tok".into()) }
    );
    assert!(form.error.is_none());
    assert_eq!(form.username, " ops ");

    form.password = " pw ".into();
    form.api_token = "".into();
    let secret = form.submit().unwrap();
    assert_eq!(
        secret,
        CredentialSecret { username: "ops".into(), password: " pw ".into(), api_token: None }
    );
}

#[test]
fn provision_retry_carries_the_secret_and_the_error() {
    let secret =
        CredentialSecret { username: "ops".into(), password: "pw".into(), api_token: None };
    let form = ProvisionForm::retry(CredentialDomain::FabreX, &secret, "keyring error: locked");
    assert_eq!(form.domain, CredentialDomain::FabreX);
    assert_eq!(form.username, "ops");
    assert_eq!(form.password, "pw");
    assert_eq!(form.api_token, "");
    assert_eq!(form.error.as_deref(), Some("Unable to store credentials: keyring error: locked"));
    let with_token = CredentialSecret { api_token: Some("t".into()), ..secret };
    assert_eq!(ProvisionForm::retry(CredentialDomain::FabreX, &with_token, "x").api_token, "t");
}
