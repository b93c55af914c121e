//! The two forms of the interface: the one that asks for a reassignment and
//! the one that takes a domain's credentials.

use crate::api::fabrex::{FabrexEndpoint, FabrexFabric, FabrexReassignmentResult};
use crate::api::supernode::SupernodeNode;
use crate::assoc::{as_map, has_key, is_first, lemma_absent_is_unmapped, lemma_first_is_mapped};
use crate::auth::key::CredentialDomain;
use crate::auth::secret::CredentialSecret;
use crate::dashboard::DashboardSnapshot;
use crate::text::{clone_text, is_blank, join2, text_of, trim, trimmed};
use crate::worker::AppCommand;
use vstd::prelude::*;

verus! {

/// The fabrics of a listing by identifier: each identifier with its name.
pub open spec fn fabric_names(fabrics: Seq<FabrexFabric>) -> Seq<(Seq<char>, Seq<char>)> {
    fabrics.map_values(|f: FabrexFabric| (f.id@, f.name@))
}

/// The nodes of a listing by identifier: each identifier with its name.
pub open spec fn node_names(nodes: Seq<SupernodeNode>) -> Seq<(Seq<char>, Seq<char>)> {
    nodes.map_values(|n: SupernodeNode| (n.id@, n.name@))
}

/// The endpoints of a listing by identifier: each identifier with its name.
pub open spec fn endpoint_names(endpoints: Seq<FabrexEndpoint>) -> Seq<(Seq<char>, Seq<char>)> {
    endpoints.map_values(|e: FabrexEndpoint| (e.id@, e.name@))
}

/// The endpoints of a listing by fabric: the fabric that each names, with the
/// endpoint's identifier.
pub open spec fn endpoints_by_fabric(endpoints: Seq<FabrexEndpoint>) -> Seq<
    (Option<Seq<char>>, Seq<char>),
> {
    endpoints.map_values(|e: FabrexEndpoint| (text_of(e.fabric_id), e.id@))
}

/// The name filed under `id` in a listing, or `fallback` where the listing
/// has no such identifier or none is chosen.
pub open spec fn label_of(
    names: Seq<(Seq<char>, Seq<char>)>,
    id: Option<Seq<char>>,
    fallback: Seq<char>,
) -> Seq<char> {
    match id {
        Some(id) => if as_map(names).contains_key(id) {
            as_map(names)[id]
        } else {
            fallback
        },
        None => fallback,
    }
}

/// The identifier of the first entry of a listing, if it has one.
pub open spec fn first_id(names: Seq<(Seq<char>, Seq<char>)>) -> Option<Seq<char>> {
    if names.len() > 0 {
        Some(names[0].0)
    } else {
        None
    }
}

/// The identifier of the first endpoint that names the fabric `fabric`.
pub open spec fn first_endpoint_of(endpoints: Seq<FabrexEndpoint>, fabric: Seq<char>) -> Option<
    Seq<char>,
> {
    if as_map(endpoints_by_fabric(endpoints)).contains_key(Some(fabric)) {
        Some(as_map(endpoints_by_fabric(endpoints))[Some(fabric)])
    } else {
        None
    }
}

/// The endpoints that name the fabric `fabric`, in their order.
pub open spec fn endpoints_of(endpoints: Seq<FabrexEndpoint>, fabric: Seq<char>) -> Seq<
    FabrexEndpoint,
>
    decreases endpoints.len(),
{
    if endpoints.len() == 0 {
        Seq::empty()
    } else if text_of(endpoints.last().fabric_id) == Some(fabric) {
        endpoints_of(endpoints.drop_last(), fabric).push(endpoints.last())
    } else {
        endpoints_of(endpoints.drop_last(), fabric)
    }
}

fn find_fabric(fabrics: &Vec<FabrexFabric>, id: &String) -> (r: Option<usize>)
    ensures
        match r {
            Some(i) => is_first(fabric_names(fabrics@), id@, i as int),
            None => !has_key(fabric_names(fabrics@), id@),
        },
{
    let mut i: usize = 0;
    while i < fabrics.len()
        invariant
            i <= fabrics.len(),
            forall|j: int| 0 <= j < i ==> (#[trigger] fabric_names(fabrics@)[j]).0 != id@,
        decreases fabrics.len() - i,
    {
        if fabrics[i].id == *id {
            return Some(i);
        }
        i += 1;
    }
    None
}

fn find_node(nodes: &Vec<SupernodeNode>, id: &String) -> (r: Option<usize>)
    ensures
        match r {
            Some(i) => is_first(node_names(nodes@), id@, i as int),
            None => !has_key(node_names(nodes@), id@),
        },
{
    let mut i: usize = 0;
    while i < nodes.len()
        invariant
            i <= nodes.len(),
            forall|j: int| 0 <= j < i ==> (#[trigger] node_names(nodes@)[j]).0 != id@,
        decreases nodes.len() - i,
    {
        if nodes[i].id == *id {
            return Some(i);
        }
        i += 1;
    }
    None
}

fn find_endpoint(endpoints: &Vec<FabrexEndpoint>, id: &String) -> (r: Option<usize>)
    ensures
        match r {
            Some(i) => is_first(endpoint_names(endpoints@), id@, i as int),
            None => !has_key(endpoint_names(endpoints@), id@),
        },
{
    let mut i: usize = 0;
    while i < endpoints.len()
        invariant
            i <= endpoints.len(),
            forall|j: int| 0 <= j < i ==> (#[trigger] endpoint_names(endpoints@)[j]).0 != id@,
        decreases endpoints.len() - i,
    {
        if endpoints[i].id == *id {
            return Some(i);
        }
        i += 1;
    }
    None
}

fn names_fabric(endpoint: &FabrexEndpoint, fabric: &String) -> (r: bool)
    ensures
        r == (text_of(endpoint.fabric_id) == Some(fabric@)),
{
    match &endpoint.fabric_id {
        Some(named) => *named == *fabric,
        None => false,
    }
}

fn find_endpoint_of(endpoints: &Vec<FabrexEndpoint>, fabric: &String) -> (r: Option<usize>)
    ensures
        match r {
            Some(i) => is_first(endpoints_by_fabric(endpoints@), Some(fabric@), i as int),
            None => !has_key(endpoints_by_fabric(endpoints@), Some(fabric@)),
        },
{
    let mut i: usize = 0;
    while i < endpoints.len()
        invariant
            i <= endpoints.len(),
            forall|j: int|
                0 <= j < i ==> (#[trigger] endpoints_by_fabric(endpoints@)[j]).0 != Some(fabric@),
        decreases endpoints.len() - i,
    {
        if names_fabric(&endpoints[i], fabric) {
            return Some(i);
        }
        i += 1;
    }
    None
}

/// The form that asks for a reassignment: the fabric, the endpoint and the
/// target node that are chosen, what the form reports, and whether a request
/// is under way.
#[derive(Debug, Clone, PartialEq, Eq)]
pub struct ReassignmentForm {
    pub selected_fabric: Option<String>,
    pub selected_endpoint: Option<String>,
    pub target_supernode: Option<String>,
    pub status: Option<String>,
    pub busy: bool,
}

/// The reassignment form as texts.
pub struct FormView {
    pub fabric: Option<Seq<char>>,
    pub endpoint: Option<Seq<char>>,
    pub target: Option<Seq<char>>,
    pub status: Option<Seq<char>>,
    pub busy: bool,
}

impl View for ReassignmentForm {
    type V = FormView;

    open spec fn view(&self) -> FormView {
        FormView {
            fabric: text_of(self.selected_fabric),
            endpoint: text_of(self.selected_endpoint),
            target: text_of(self.target_supernode),
            status: text_of(self.status),
            busy: self.busy,
        }
    }
}

impl Default for ReassignmentForm {
    fn default() -> (r: Self)
        ensures
            r@ == (FormView { fabric: None, endpoint: None, target: None, status: None, busy: false }),
    {
        ReassignmentForm {
            selected_fabric: None,
            selected_endpoint: None,
            target_supernode: None,
            status: None,
            busy: false,
        }
    }
}

/// The form after what is missing was filled in from the snapshot: the
/// first fabric and the first node where none is chosen, and, where no
/// endpoint is chosen, the first endpoint of the chosen fabric.
pub open spec fn with_defaults(form: FormView, snapshot: DashboardSnapshot) -> FormView {
    let fabric = if form.fabric is None {
        first_id(fabric_names(snapshot.fabrics@))
    } else {
        form.fabric
    };
    let target = if form.target is None {
        first_id(node_names(snapshot.supernodes@))
    } else {
        form.target
    };
    let endpoint = if form.endpoint is None {
        match fabric {
            Some(f) => first_endpoint_of(snapshot.endpoints@, f),
            None => None,
        }
    } else {
        form.endpoint
    };
    FormView { fabric, endpoint, target, status: form.status, busy: form.busy }
}

/// The form after the choices that the snapshot no longer has were dropped:
/// a fabric that is gone takes the endpoint with it.
pub open spec fn without_stale(form: FormView, snapshot: DashboardSnapshot) -> FormView {
    let fabric_gone = form.fabric matches Some(f) && !has_key(fabric_names(snapshot.fabrics@), f);
    let fabric = if fabric_gone {
        None
    } else {
        form.fabric
    };
    let kept_endpoint = if fabric_gone {
        None
    } else {
        form.endpoint
    };
    let endpoint = if kept_endpoint matches Some(e) && !has_key(
        endpoint_names(snapshot.endpoints@),
        e,
    ) {
        None
    } else {
        kept_endpoint
    };
    let target = if form.target matches Some(t) && !has_key(node_names(snapshot.supernodes@), t) {
        None
    } else {
        form.target
    };
    FormView { fabric, endpoint, target, status: form.status, busy: form.busy }
}

/// What the form reports after the service answered a reassignment: the
/// answer's message, or its status where it has no message.
pub open spec fn success_text(result: FabrexReassignmentResult) -> Seq<char> {
    match result.message {
        Some(m) => m@,
        None => "Reassignment status: "@ + result.status@,
    }
}

/// Whether a form with these choices may be submitted.
pub open spec fn may_submit(form: FormView) -> bool {
    !form.busy && form.fabric is Some && form.endpoint is Some && form.target is Some
}

impl ReassignmentForm {
    /// A new snapshot is on show: choices that it no longer has are dropped,
    /// then what is missing is filled in from it.
    pub fn on_snapshot(&mut self, snapshot: &DashboardSnapshot)
        ensures
            final(self)@ == with_defaults(without_stale(old(self)@, *snapshot), *snapshot),
    {
        let fabric_gone = match &self.selected_fabric {
            Some(id) => find_fabric(&snapshot.fabrics, id).is_none(),
            None => false,
        };
        if fabric_gone {
            self.selected_fabric = None;
            self.selected_endpoint = None;
        }
        let endpoint_gone = match &self.selected_endpoint {
            Some(id) => find_endpoint(&snapshot.endpoints, id).is_none(),
            None => false,
        };
        if endpoint_gone {
            self.selected_endpoint = None;
        }
        let target_gone = match &self.target_supernode {
            Some(id) => find_node(&snapshot.supernodes, id).is_none(),
            None => false,
        };
        if target_gone {
            self.target_supernode = None;
        }
        self.ensure_defaults(snapshot);
    }

    /// The service answered the reassignment: the form is free again and
    /// reports the answer.
    pub fn on_success(&mut self, result: &FabrexReassignmentResult)
        ensures
            final(self)@ == (FormView {
                status: Some(success_text(*result)),
                busy: false,
                ..old(self)@
            }),
    {
        self.busy = false;
        let text = match &result.message {
            Some(m) => m.clone(),
            None => join2("Reassignment status: ", result.status.as_str()),
        };
        self.status = Some(text);
    }

    /// The reassignment failed: the form is free again and reports the
    /// error.
    pub fn on_failure(&mut self, error: &str)
        ensures
            final(self)@ == (FormView {
                status: Some("Reassignment failed: "@ + error@),
                busy: false,
                ..old(self)@
            }),
    {
        self.busy = false;
        self.status = Some(join2("Reassignment failed: ", error));
    }

    /// Fills in what is missing from the snapshot.
    pub fn ensure_defaults(&mut self, snapshot: &DashboardSnapshot)
        ensures
            final(self)@ == with_defaults(old(self)@, *snapshot),
    {
        if self.selected_fabric.is_none() {
            if snapshot.fabrics.len() > 0 {
                self.selected_fabric = Some(snapshot.fabrics[0].id.clone());
            }
        }
        if self.target_supernode.is_none() {
            if snapshot.supernodes.len() > 0 {
                self.target_supernode = Some(snapshot.supernodes[0].id.clone());
            }
        }
        if self.selected_endpoint.is_none() {
            let found = match &self.selected_fabric {
                Some(fabric) => {
                    let place = find_endpoint_of(&snapshot.endpoints, fabric);
                    proof {
                        let pairs = endpoints_by_fabric(snapshot.endpoints@);
                        match place {
                            Some(i) => {
                                lemma_first_is_mapped(pairs, Some(fabric@), i as int);
                            },
                            None => {
                                lemma_absent_is_unmapped(pairs, Some(fabric@));
                            },
                        }
                    }
                    match place {
                        Some(i) => Some(snapshot.endpoints[i].id.clone()),
                        None => None,
                    }
                },
                None => None,
            };
            self.selected_endpoint = found;
        }
    }

    /// Chooses the fabric `id`; the endpoint has to be chosen anew.
    pub fn select_fabric(&mut self, id: String)
        ensures
            final(self)@ == (FormView { fabric: Some(id@), endpoint: None, ..old(self)@ }),
    {
        self.selected_fabric = Some(id);
        self.selected_endpoint = None;
    }

    /// The name of the chosen fabric, or an invitation to choose one.
    pub fn fabric_label(&self, snapshot: &DashboardSnapshot) -> (r: String)
        ensures
            r@ == label_of(fabric_names(snapshot.fabrics@), self@.fabric, "Select a fabric"@),
    {
        let found = match &self.selected_fabric {
            Some(id) => {
                let place = find_fabric(&snapshot.fabrics, id);
                proof {
                    let names = fabric_names(snapshot.fabrics@);
                    match place {
                        Some(i) => {
                            lemma_first_is_mapped(names, id@, i as int);
                        },
                        None => {
                            lemma_absent_is_unmapped(names, id@);
                        },
                    }
                }
                match place {
                    Some(i) => Some(snapshot.fabrics[i].name.clone()),
                    None => None,
                }
            },
            None => None,
        };
        match found {
            Some(name) => name,
            None => "Select a fabric".to_owned(),
        }
    }

    /// The name of the chosen endpoint among `endpoints`, or an invitation to
    /// choose one.
    pub fn endpoint_label(&self, endpoints: &Vec<FabrexEndpoint>) -> (r: String)
        ensures
            r@ == label_of(endpoint_names(endpoints@), self@.endpoint, "Select an endpoint"@),
    {
        let found = match &self.selected_endpoint {
            Some(id) => {
                let place = find_endpoint(endpoints, id);
                proof {
                    let names = endpoint_names(endpoints@);
                    match place {
                        Some(i) => {
                            lemma_first_is_mapped(names, id@, i as int);
                        },
                        None => {
                            lemma_absent_is_unmapped(names, id@);
                        },
                    }
                }
                match place {
                    Some(i) => Some(endpoints[i].name.clone()),
                    None => None,
                }
            },
            None => None,
        };
        match found {
            Some(name) => name,
            None => "Select an endpoint".to_owned(),
        }
    }

    /// The name of the chosen target node, or an invitation to choose one.
    pub fn supernode_label(&self, snapshot: &DashboardSnapshot) -> (r: String)
        ensures
            r@ == label_of(node_names(snapshot.supernodes@), self@.target, "Select a supernode"@),
    {
        let found = match &self.target_supernode {
            Some(id) => {
                let place = find_node(&snapshot.supernodes, id);
                proof {
                    let names = node_names(snapshot.supernodes@);
                    match place {
                        Some(i) => {
                            lemma_first_is_mapped(names, id@, i as int);
                        },
                        None => {
                            lemma_absent_is_unmapped(names, id@);
                        },
                    }
                }
                match place {
                    Some(i) => Some(snapshot.supernodes[i].name.clone()),
                    None => None,
                }
            },
            None => None,
        };
        match found {
            Some(name) => name,
            None => "Select a supernode".to_owned(),
        }
    }

    /// The endpoints of the snapshot that name the chosen fabric, in their
    /// order; none where no fabric is chosen.
    pub fn endpoints_for_selected(&self, snapshot: &DashboardSnapshot) -> (r: Vec<FabrexEndpoint>)
        ensures
            r@ == match self@.fabric {
                Some(fabric) => endpoints_of(snapshot.endpoints@, fabric),
                None => Seq::<FabrexEndpoint>::empty(),
            },
    {
        let mut out: Vec<FabrexEndpoint> = Vec::new();
        if let Some(fabric) = &self.selected_fabric {
            let mut i: usize = 0;
            while i < snapshot.endpoints.len()
                invariant
                    i <= snapshot.endpoints.len(),
                    out@ == endpoints_of(snapshot.endpoints@.subrange(0, i as int), fabric@),
                decreases snapshot.endpoints.len() - i,
            {
                let endpoint = &snapshot.endpoints[i];
                proof {
                    let next = snapshot.endpoints@.subrange(0, i as int + 1);
                    assert(next.drop_last() =~= snapshot.endpoints@.subrange(0, i as int));
                }
                if names_fabric(endpoint, fabric) {
                    out.push(
                        FabrexEndpoint {
                            id: endpoint.id.clone(),
                            name: endpoint.name.clone(),
                            fabric_id: clone_text(&endpoint.fabric_id),
                            attached_supernode_id: clone_text(&endpoint.attached_supernode_id),
                            status: endpoint.status.clone(),
                        },
                    );
                }
                i += 1;
            }
            assert(snapshot.endpoints@.subrange(0, i as int) =~= snapshot.endpoints@);
        }
        out
    }

    /// Whether the form may be submitted: nothing is under way and a fabric,
    /// an endpoint and a target are chosen.
    pub fn can_submit(&self) -> (r: bool)
        ensures
            r == may_submit(self@),
    {
        !self.busy && self.selected_fabric.is_some() && self.selected_endpoint.is_some()
            && self.target_supernode.is_some()
    }

    /// Submits the form where it may be: the form is busy from then on, says
    /// so, and the command for the worker is given. Nothing happens where it
    /// may not be submitted.
    pub fn submit(&mut self) -> (r: Option<AppCommand>)
        ensures
            may_submit(old(self)@) ==> r == Some(
                AppCommand::SubmitReassignment {
                    fabric_id: old(self).selected_fabric->0,
                    endpoint_id: old(self).selected_endpoint->0,
                    target_supernode: old(self).target_supernode->0,
                },
            ) && final(self)@ == (FormView {
                status: Some("Submitting reassignment request..."@),
                busy: true,
                ..old(self)@
            }),
            !may_submit(old(self)@) ==> r is None && *final(self) == *old(self),
    {
        if self.busy {
            return None;
        }
        let fabric_id = match &self.selected_fabric {
            Some(id) => id.clone(),
            None => { return None; },
        };
        let endpoint_id = match &self.selected_endpoint {
            Some(id) => id.clone(),
            None => { return None; },
        };
        let target_supernode = match &self.target_supernode {
            Some(id) => id.clone(),
            None => { return None; },
        };
        self.busy = true;
        self.status = Some("Submitting reassignment request...".to_owned());
        Some(AppCommand::SubmitReassignment { fabric_id, endpoint_id, target_supernode })
    }
}

/// The form that takes the credentials of one domain.
#[derive(Debug, Clone, PartialEq, Eq)]
pub struct ProvisionForm {
    pub domain: CredentialDomain,
    pub username: String,
    pub password: String,
    pub api_token: String,
    pub show_password: bool,
    pub show_token: bool,
    pub error: Option<String>,
}

/// The message of a form that was submitted without what it needs.
pub open spec fn incomplete_text() -> Seq<char> {
    "Username and either a password or API token are required."@
}

impl ProvisionForm {
    /// Whether the form holds what a secret needs: a user name, and a
    /// password or an API token, none of them blank.
    pub open spec fn complete(self) -> bool {
        !is_blank(self.username@) && (!is_blank(self.password@) || !is_blank(self.api_token@))
    }

    /// Whether `secret` is what the form holds: the user name and the API
    /// token without the white space round them, the password as typed, and
    /// no API token where the field is blank.
    pub open spec fn describes(self, secret: CredentialSecret) -> bool {
        &&& secret.username@ == trimmed(self.username@)
        &&& secret.password == self.password
        &&& if is_blank(self.api_token@) {
            secret.api_token is None
        } else {
            secret.api_token matches Some(t) && t@ == trimmed(self.api_token@)
        }
    }

    /// The empty form for `domain`.
    pub fn new(domain: CredentialDomain) -> (r: Self)
        ensures
            r.domain == domain,
            r.username@.len() == 0,
            r.password@.len() == 0,
            r.api_token@.len() == 0,
            !r.show_password,
            !r.show_token,
            r.error is None,
    {
        ProvisionForm {
            domain,
            username: String::new(),
            password: String::new(),
            api_token: String::new(),
            show_password: false,
            show_token: false,
            error: None,
        }
    }

    /// Whether the form holds what a secret needs.
    pub fn can_submit(&self) -> (r: bool)
        ensures
            r == self.complete(),
    {
        let has_username = !trim(self.username.as_str()).as_str().is_empty();
        let has_password = !trim(self.password.as_str()).as_str().is_empty();
        let has_token = !trim(self.api_token.as_str()).as_str().is_empty();
        has_username && (has_password || has_token)
    }

    /// Takes the form's contents as a secret. A complete form gives its
    /// secret and loses its error; an incomplete one gives none and says
    /// what it needs. The fields stay as typed.
    pub fn submit(&mut self) -> (r: Option<CredentialSecret>)
        ensures
            final(self).domain == old(self).domain,
            final(self).username == old(self).username,
            final(self).password == old(self).password,
            final(self).api_token == old(self).api_token,
            final(self).show_password == old(self).show_password,
            final(self).show_token == old(self).show_token,
            match r {
                Some(secret) => old(self).complete() && old(self).describes(secret)
                    && secret.usable() && secret.username@.len() > 0 && final(self).error is None,
                None => !old(self).complete() && text_of(final(self).error) == Some(
                    incomplete_text(),
                ),
            },
    {
        if self.can_submit() {
            self.error = None;
            let token = trim(self.api_token.as_str());
            let api_token = if token.as_str().is_empty() {
                None
            } else {
                Some(token)
            };
            Some(
                CredentialSecret {
                    username: trim(self.username.as_str()),
                    password: self.password.clone(),
                    api_token,
                },
            )
        } else {
            self.error = Some(
                "Username and either a password or API token are required.".to_owned(),
            );
            None
        }
    }

    /// The form to try again with after `secret` could not be stored: the
    /// secret's fields, and the error with its cause.
    pub fn retry(domain: CredentialDomain, secret: &CredentialSecret, cause: &str) -> (r: Self)
        ensures
            r.domain == domain,
            r.username == secret.username,
            r.password == secret.password,
            r.api_token@ == match secret.api_token {
                Some(t) => t@,
                None => Seq::<char>::empty(),
            },
            !r.show_password,
            !r.show_token,
            text_of(r.error) == Some("Unable to store credentials: "@ + cause@),
    {
        let api_token = match &secret.api_token {
            Some(t) => t.clone(),
            None => String::new(),
        };
        ProvisionForm {
            domain,
            username: secret.username.clone(),
            password: secret.password.clone(),
            api_token,
            show_password: false,
            show_token: false,
            error: Some(join2("Unable to store credentials: ", cause)),
        }
    }
}

} // verus!
