//! How one snapshot is put together: three listings first, then the usage
//! and the endpoints of each fabric in turn. The first failure ends it;
//! there is no snapshot with parts missing.
//!
//! The requests themselves are made elsewhere. Each stage says which answer
//! it waits for and takes that answer to give the next stage.

use crate::api::fabrex::{FabrexEndpoint, FabrexFabric, FabrexUsage, UsageAlert};
use crate::api::gryf::GryfWorkload;
use crate::api::supernode::SupernodeNode;
use crate::dashboard::DashboardSnapshot;
use crate::text::{clone_text, join3, texts, uppercase, uppercase_of};
use vstd::prelude::*;

verus! {

/// The endpoint with `fabric_id` filled in where the service left its fabric
/// out.
pub open spec fn backfilled(endpoint: FabrexEndpoint, fabric_id: String) -> FabrexEndpoint {
    if endpoint.fabric_id is None {
        FabrexEndpoint { fabric_id: Some(fabric_id), ..endpoint }
    } else {
        endpoint
    }
}

/// A page of endpoints, each with `fabric_id` filled in where its fabric was
/// left out.
pub open spec fn backfill_page(page: Seq<FabrexEndpoint>, fabric_id: String) -> Seq<
    FabrexEndpoint,
> {
    page.map_values(|e: FabrexEndpoint| backfilled(e, fabric_id))
}

/// Every endpoint names its fabric.
pub open spec fn all_assigned(endpoints: Seq<FabrexEndpoint>) -> bool {
    forall|i: int| 0 <= i < endpoints.len() ==> (#[trigger] endpoints[i]).fabric_id is Some
}

/// Fills `fabric_id` in where an endpoint of the page names no fabric.
pub fn backfill(page: Vec<FabrexEndpoint>, fabric_id: &String) -> (r: Vec<FabrexEndpoint>)
    ensures
        r@ == backfill_page(page@, *fabric_id),
        all_assigned(r@),
{
    let mut out = page;
    let ghost before = out@;
    let mut i: usize = 0;
    while i < out.len()
        invariant
            i <= out.len(),
            out@.len() == before.len(),
            forall|j: int| 0 <= j < i ==> #[trigger] out@[j] == backfilled(before[j], *fabric_id),
            forall|j: int| i <= j < out@.len() ==> #[trigger] out@[j] == before[j],
        decreases out.len() - i,
    {
        if out[i].fabric_id.is_none() {
            let fixed = FabrexEndpoint {
                id: out[i].id.clone(),
                name: out[i].name.clone(),
                fabric_id: Some(fabric_id.clone()),
                attached_supernode_id: clone_text(&out[i].attached_supernode_id),
                status: out[i].status.clone(),
            };
            out.set(i, fixed);
        }
        i += 1;
    }
    out
}

/// The line that shows an alert whose severity in upper case is `severity`.
pub fn alert_line_from(severity: &str, message: &str) -> (r: String)
    ensures
        r@ == severity@ + ": "@ + message@,
{
    join3(severity, ": ", message)
}

/// The line that shows an alert: its severity in upper case, a colon and a
/// space, its message.
pub open spec fn alert_line_text(alert: UsageAlert) -> Seq<char> {
    uppercase_of(alert.severity@) + ": "@ + alert.message@
}

/// The line that shows an alert.
pub fn alert_line(alert: &UsageAlert) -> (r: String)
    ensures
        r@ == alert_line_text(*alert),
{
    let severity = uppercase(alert.severity.as_str());
    alert_line_from(severity.as_str(), alert.message.as_str())
}

/// The lines of the alerts of one usage report, in its order.
pub open spec fn usage_alert_lines(usage: FabrexUsage) -> Seq<Seq<char>> {
    usage.alerts@.map_values(|a: UsageAlert| alert_line_text(a))
}

/// The lines of all alerts of the usage reports: report by report, and in
/// each report's own order.
pub open spec fn alert_lines(usage: Seq<FabrexUsage>) -> Seq<Seq<char>>
    decreases usage.len(),
{
    if usage.len() == 0 {
        Seq::empty()
    } else {
        alert_lines(usage.drop_last()) + usage_alert_lines(usage.last())
    }
}

/// The lines of all alerts of the usage reports.
pub fn derive_alerts(usage: &Vec<FabrexUsage>) -> (r: Vec<String>)
    ensures
        texts(r@) == alert_lines(usage@),
{
    let mut out: Vec<String> = Vec::new();
    let mut i: usize = 0;
    while i < usage.len()
        invariant
            i <= usage.len(),
            texts(out@) == alert_lines(usage@.subrange(0, i as int)),
        decreases usage.len() - i,
    {
        let report = &usage[i];
        let ghost head = alert_lines(usage@.subrange(0, i as int));
        let mut j: usize = 0;
        while j < report.alerts.len()
            invariant
                j <= report.alerts.len(),
                texts(out@) == head + usage_alert_lines(*report).subrange(0, j as int),
            decreases report.alerts.len() - j,
        {
            let line = alert_line(&report.alerts[j]);
            let ghost before = out@;
            out.push(line);
            assert(texts(out@) =~= texts(before).push(line@));
            j += 1;
        }
        proof {
            let next = usage@.subrange(0, i as int + 1);
            assert(next.drop_last() =~= usage@.subrange(0, i as int));
        }
        i += 1;
    }
    assert(usage@.subrange(0, i as int) =~= usage@);
    out
}

/// What has been gathered so far.
#[derive(Debug)]
pub struct Collected {
    pub fabrics: Vec<FabrexFabric>,
    pub workloads: Vec<GryfWorkload>,
    pub supernodes: Vec<SupernodeNode>,
    pub usage: Vec<FabrexUsage>,
    pub endpoints: Vec<FabrexEndpoint>,
}

impl Collected {
    /// The three listings are those of `other`.
    pub open spec fn same_listings(self, other: Collected) -> bool {
        &&& self.fabrics == other.fabrics
        &&& self.workloads == other.workloads
        &&& self.supernodes == other.supernodes
    }

    /// Whether `snapshot` is what has been gathered, with the alerts of its
    /// usage reports.
    pub open spec fn is_shown_by(self, snapshot: DashboardSnapshot) -> bool {
        &&& snapshot.fabrics == self.fabrics
        &&& snapshot.workloads == self.workloads
        &&& snapshot.supernodes == self.supernodes
        &&& snapshot.fabric_usage == self.usage
        &&& snapshot.endpoints == self.endpoints
        &&& texts(snapshot.alerts@) == alert_lines(self.usage@)
    }

    fn into_snapshot(self) -> (r: DashboardSnapshot)
        ensures
            self.is_shown_by(r),
    {
        let alerts = derive_alerts(&self.usage);
        DashboardSnapshot {
            fabrics: self.fabrics,
            fabric_usage: self.usage,
            workloads: self.workloads,
            supernodes: self.supernodes,
            endpoints: self.endpoints,
            alerts,
        }
    }
}

/// The message of a failed usage request for the fabric `fabric_id`.
pub open spec fn usage_failure_text(fabric_id: Seq<char>, cause: Seq<char>) -> Seq<char> {
    "Fetching usage for fabric "@ + fabric_id + ": "@ + cause
}

/// The message of a failed endpoints request for the fabric `fabric_id`.
pub open spec fn endpoints_failure_text(fabric_id: Seq<char>, cause: Seq<char>) -> Seq<char> {
    "Fetching endpoints for fabric "@ + fabric_id + ": "@ + cause
}

/// Where the gathering stands after the three listings, or after the
/// endpoints of a fabric.
#[derive(Debug)]
pub enum FetchStage {
    /// The usage of the next fabric is wanted.
    NeedUsage(UsageStage),
    /// Every fabric is done: the snapshot.
    Complete(DashboardSnapshot),
}

/// The stage that waits for the usage report of one fabric.
#[derive(Debug)]
pub struct UsageStage {
    collected: Collected,
    index: usize,
}

/// The stage that waits for the endpoints of one fabric, whose usage has
/// come.
#[derive(Debug)]
pub struct EndpointsStage {
    collected: Collected,
    index: usize,
}

/// The first stage after the three listings: the first failure among them,
/// in the order fabrics, workloads, nodes, if there is one; the finished
/// snapshot where there is no fabric; else the wait for the usage of the
/// first fabric.
pub fn begin(
    fabrics: Result<Vec<FabrexFabric>, String>,
    workloads: Result<Vec<GryfWorkload>, String>,
    supernodes: Result<Vec<SupernodeNode>, String>,
) -> (r: Result<FetchStage, String>)
    ensures
        match (fabrics, workloads, supernodes) {
            (Err(e), _, _) => r == Err::<FetchStage, String>(e),
            (Ok(_), Err(e), _) => r == Err::<FetchStage, String>(e),
            (Ok(_), Ok(_), Err(e)) => r == Err::<FetchStage, String>(e),
            (Ok(f), Ok(w), Ok(n)) => match r {
                Ok(FetchStage::NeedUsage(stage)) => {
                    &&& f@.len() > 0
                    &&& stage.index() == 0
                    &&& stage.collected().fabrics == f
                    &&& stage.collected().workloads == w
                    &&& stage.collected().supernodes == n
                    &&& stage.collected().usage@.len() == 0
                    &&& stage.collected().endpoints@.len() == 0
                },
                Ok(FetchStage::Complete(snapshot)) => {
                    &&& f@.len() == 0
                    &&& snapshot.fabrics == f
                    &&& snapshot.workloads == w
                    &&& snapshot.supernodes == n
                    &&& snapshot.fabric_usage@.len() == 0
                    &&& snapshot.endpoints@.len() == 0
                    &&& snapshot.alerts@.len() == 0
                },
                Err(_) => false,
            },
        },
{
    let fabrics = match fabrics {
        Ok(list) => list,
        Err(e) => { return Err(e); },
    };
    let workloads = match workloads {
        Ok(list) => list,
        Err(e) => { return Err(e); },
    };
    let supernodes = match supernodes {
        Ok(list) => list,
        Err(e) => { return Err(e); },
    };
    let collected = Collected {
        fabrics,
        workloads,
        supernodes,
        usage: Vec::new(),
        endpoints: Vec::new(),
    };
    Ok(next_stage(collected, 0))
}

fn next_stage(collected: Collected, index: usize) -> (r: FetchStage)
    requires
        index <= collected.fabrics@.len(),
        collected.usage@.len() == index,
        all_assigned(collected.endpoints@),
    ensures
        match r {
            FetchStage::NeedUsage(stage) => index < collected.fabrics@.len() && stage.index()
                == index && stage.collected() == collected,
            FetchStage::Complete(snapshot) => index == collected.fabrics@.len()
                && collected.is_shown_by(snapshot) && all_assigned(snapshot.endpoints@) && (
            collected.usage@.len() == 0 ==> snapshot.alerts@.len() == 0),
        },
{
    if index < collected.fabrics.len() {
        FetchStage::NeedUsage(UsageStage { collected, index })
    } else {
        let snapshot = collected.into_snapshot();
        proof {
            if collected.usage@.len() == 0 {
                assert(texts(snapshot.alerts@).len() == 0);
            }
        }
        FetchStage::Complete(snapshot)
    }
}

impl UsageStage {
    #[verifier::type_invariant]
    spec fn inv(self) -> bool {
        &&& self.index < self.collected.fabrics@.len()
        &&& self.collected.usage@.len() == self.index
        &&& all_assigned(self.collected.endpoints@)
    }

    /// What has been gathered so far.
    pub closed spec fn collected(self) -> Collected {
        self.collected
    }

    /// Which fabric's usage is waited for, counted from 0.
    pub closed spec fn index(self) -> int {
        self.index as int
    }

    /// The identifier of the fabric whose usage is waited for.
    pub closed spec fn fabric(self) -> String {
        self.collected.fabrics@[self.index as int].id
    }

    /// The identifier of the fabric whose usage is waited for. It is a
    /// fabric of the listing, and one usage report has come for each fabric
    /// before it.
    pub fn fabric_id(&self) -> (r: &str)
        ensures
            r@ == self.fabric()@,
            0 <= self.index() < self.collected().fabrics@.len(),
            self.fabric() == self.collected().fabrics@[self.index()].id,
            self.collected().usage@.len() == self.index(),
            all_assigned(self.collected().endpoints@),
    {
        proof {
            use_type_invariant(self);
        }
        self.collected.fabrics[self.index].id.as_str()
    }

    /// The identifier of the fabric whose usage is waited for, as it stands
    /// in the listing.
    pub fn fabric_ref(&self) -> (r: &String)
        ensures
            *r == self.fabric(),
            0 <= self.index() < self.collected().fabrics@.len(),
            self.fabric() == self.collected().fabrics@[self.index()].id,
            self.collected().usage@.len() == self.index(),
            all_assigned(self.collected().endpoints@),
    {
        proof {
            use_type_invariant(self);
        }
        &self.collected.fabrics[self.index].id
    }

    /// Takes the answer to the usage request. A report is added to what has
    /// been gathered, and the endpoints of the same fabric are waited for
    /// next. A failure ends the gathering with a message that names the
    /// fabric and gives the cause.
    pub fn supply(self, result: Result<FabrexUsage, String>) -> (r: Result<
        EndpointsStage,
        String,
    >)
        ensures
            match result {
                Ok(report) => r matches Ok(next) && {
                    &&& next.index() == self.index()
                    &&& next.fabric() == self.fabric()
                    &&& next.collected().same_listings(self.collected())
                    &&& next.collected().usage@ == self.collected().usage@.push(report)
                    &&& next.collected().endpoints == self.collected().endpoints
                },
                Err(cause) => r matches Err(message) && message@ == usage_failure_text(
                    self.fabric()@,
                    cause@,
                ),
            },
    {
        proof {
            use_type_invariant(&self);
        }
        match result {
            Ok(report) => {
                let UsageStage { collected, index } = self;
                let Collected { fabrics, workloads, supernodes, usage, endpoints } = collected;
                let mut usage = usage;
                usage.push(report);
                Ok(
                    EndpointsStage {
                        collected: Collected { fabrics, workloads, supernodes, usage, endpoints },
                        index,
                    },
                )
            },
            Err(cause) => {
                let head = join3("Fetching usage for fabric ", self.fabric_id(), ": ");
                let mut message = head;
                message.append(cause.as_str());
                Err(message)
            },
        }
    }
}

impl EndpointsStage {
    #[verifier::type_invariant]
    spec fn inv(self) -> bool {
        &&& self.index < self.collected.fabrics@.len()
        &&& self.collected.usage@.len() == self.index + 1
        &&& all_assigned(self.collected.endpoints@)
    }

    /// What has been gathered so far.
    pub closed spec fn collected(self) -> Collected {
        self.collected
    }

    /// Which fabric's endpoints are waited for, counted from 0.
    pub closed spec fn index(self) -> int {
        self.index as int
    }

    /// The identifier of the fabric whose endpoints are waited for.
    pub closed spec fn fabric(self) -> String {
        self.collected.fabrics@[self.index as int].id
    }

    /// The identifier of the fabric whose endpoints are waited for. It is a
    /// fabric of the listing, and one usage report has come for each fabric
    /// up to it.
    pub fn fabric_id(&self) -> (r: &str)
        ensures
            r@ == self.fabric()@,
            0 <= self.index() < self.collected().fabrics@.len(),
            self.fabric() == self.collected().fabrics@[self.index()].id,
            self.collected().usage@.len() == self.index() + 1,
            all_assigned(self.collected().endpoints@),
    {
        proof {
            use_type_invariant(self);
        }
        self.collected.fabrics[self.index].id.as_str()
    }

    /// The identifier of the fabric whose endpoints are waited for, as it
    /// stands in the listing.
    pub fn fabric_ref(&self) -> (r: &String)
        ensures
            *r == self.fabric(),
            0 <= self.index() < self.collected().fabrics@.len(),
            self.fabric() == self.collected().fabrics@[self.index()].id,
            self.collected().usage@.len() == self.index() + 1,
            all_assigned(self.collected().endpoints@),
    {
        proof {
            use_type_invariant(self);
        }
        &self.collected.fabrics[self.index].id
    }

    /// Takes the answer to the endpoints request. The page is added to what
    /// has been gathered, each endpoint that names no fabric getting the one
    /// it was asked for; then the next fabric's usage is waited for, or,
    /// after the last fabric, the snapshot is made, with the alerts of all
    /// usage reports. A failure ends the gathering with a message that names
    /// the fabric and gives the cause.
    pub fn supply(self, result: Result<Vec<FabrexEndpoint>, String>) -> (r: Result<
        FetchStage,
        String,
    >)
        ensures
            match result {
                Ok(page) => match r {
                    Ok(FetchStage::NeedUsage(next)) => {
                        &&& self.index() + 1 < self.collected().fabrics@.len()
                        &&& next.index() == self.index() + 1
                        &&& next.collected().same_listings(self.collected())
                        &&& next.collected().usage == self.collected().usage
                        &&& next.collected().endpoints@ == self.collected().endpoints@
                            + backfill_page(page@, self.fabric())
                    },
                    Ok(FetchStage::Complete(snapshot)) => {
                        &&& self.index() + 1 == self.collected().fabrics@.len()
                        &&& snapshot.fabrics == self.collected().fabrics
                        &&& snapshot.workloads == self.collected().workloads
                        &&& snapshot.supernodes == self.collected().supernodes
                        &&& snapshot.fabric_usage == self.collected().usage
                        &&& snapshot.endpoints@ == self.collected().endpoints@ + backfill_page(
                            page@,
                            self.fabric(),
                        )
                        &&& texts(snapshot.alerts@) == alert_lines(self.collected().usage@)
                        &&& all_assigned(snapshot.endpoints@)
                    },
                    Err(_) => false,
                },
                Err(cause) => r matches Err(message) && message@ == endpoints_failure_text(
                    self.fabric()@,
                    cause@,
                ),
            },
    {
        proof {
            use_type_invariant(&self);
        }
        match result {
            Ok(page) => {
                let EndpointsStage { collected, index } = self;
                let Collected { fabrics, workloads, supernodes, usage, endpoints } = collected;
                let count = fabrics.len();
                let mut page = backfill(page, &fabrics[index].id);
                let mut endpoints = endpoints;
                endpoints.append(&mut page);
                Ok(
                    next_stage(
                        Collected { fabrics, workloads, supernodes, usage, endpoints },
                        index + 1,
                    ),
                )
            },
            Err(cause) => {
                let head = join3("Fetching endpoints for fabric ", self.fabric_id(), ": ");
                let mut message = head;
                message.append(cause.as_str());
                Err(message)
            },
        }
    }
}

/// The endpoints of the first fabrics, one page for each: page by page, each
/// page backfilled with the fabric that it was asked for.
pub open spec fn merged(pages: Seq<Vec<FabrexEndpoint>>, fabrics: Seq<FabrexFabric>) -> Seq<
    FabrexEndpoint,
>
    decreases pages.len(),
{
    if pages.len() == 0 {
        Seq::empty()
    } else {
        merged(pages.drop_last(), fabrics) + backfill_page(
            pages.last()@,
            fabrics[pages.len() - 1].id,
        )
    }
}

/// For each of the first `upto` fabrics, `usage` holds a report that the
/// usage request may have given for it and `pages` a page that the endpoints
/// request may have given for it.
pub open spec fn answered<U, E>(
    fabrics: Seq<FabrexFabric>,
    usage: Seq<FabrexUsage>,
    pages: Seq<Vec<FabrexEndpoint>>,
    fetch_usage: U,
    fetch_endpoints: E,
    upto: int,
) -> bool where
    U: Fn(&String) -> Result<FabrexUsage, String>,
    E: Fn(&String) -> Result<Vec<FabrexEndpoint>, String>,
 {
    &&& 0 <= upto <= fabrics.len()
    &&& upto <= usage.len()
    &&& upto <= pages.len()
    &&& forall|i: int|
        0 <= i < upto ==> call_ensures(
            fetch_usage,
            (&fabrics[i].id,),
            Ok::<FabrexUsage, String>(#[trigger] usage[i]),
        )
    &&& forall|i: int|
        0 <= i < upto ==> call_ensures(
            fetch_endpoints,
            (&fabrics[i].id,),
            Ok::<Vec<FabrexEndpoint>, String>(#[trigger] pages[i]),
        )
}

/// Whether `r` is the snapshot that a gathering makes of the three listings
/// when every request about a fabric succeeds, `pages` being the pages that
/// came.
pub open spec fn complete_run<U, E>(
    listed: Result<Vec<FabrexFabric>, String>,
    working: Result<Vec<GryfWorkload>, String>,
    nodes: Result<Vec<SupernodeNode>, String>,
    fetch_usage: U,
    fetch_endpoints: E,
    r: Result<DashboardSnapshot, String>,
    pages: Seq<Vec<FabrexEndpoint>>,
) -> bool where
    U: Fn(&String) -> Result<FabrexUsage, String>,
    E: Fn(&String) -> Result<Vec<FabrexEndpoint>, String>,
 {
    &&& listed matches Ok(fabrics)
    &&& working matches Ok(workloads)
    &&& nodes matches Ok(supernodes)
    &&& r matches Ok(snapshot)
    &&& snapshot.fabrics == fabrics
    &&& snapshot.workloads == workloads
    &&& snapshot.supernodes == supernodes
    &&& snapshot.fabric_usage@.len() == fabrics@.len()
    &&& pages.len() == fabrics@.len()
    &&& answered(
        fabrics@,
        snapshot.fabric_usage@,
        pages,
        fetch_usage,
        fetch_endpoints,
        fabrics@.len() as int,
    )
    &&& snapshot.endpoints@ == merged(pages, fabrics@)
    &&& texts(snapshot.alerts@) == alert_lines(snapshot.fabric_usage@)
    &&& all_assigned(snapshot.endpoints@)
}

/// Whether `r` is the failure that a gathering ends with when a request
/// about a fabric fails: the requests about the fabrics before it succeeded,
/// with the reports `usage` and the pages `pages`; then the usage request
/// failed, or it gave the last report of `usage` and the endpoints request
/// failed; and the message names that fabric and gives the cause.
pub open spec fn failed_run<U, E>(
    listed: Result<Vec<FabrexFabric>, String>,
    fetch_usage: U,
    fetch_endpoints: E,
    r: Result<DashboardSnapshot, String>,
    usage: Seq<FabrexUsage>,
    pages: Seq<Vec<FabrexEndpoint>>,
    cause: String,
) -> bool where
    U: Fn(&String) -> Result<FabrexUsage, String>,
    E: Fn(&String) -> Result<Vec<FabrexEndpoint>, String>,
 {
    let at = pages.len() as int;
    &&& listed matches Ok(fabrics)
    &&& r matches Err(message)
    &&& at < fabrics@.len()
    &&& answered(fabrics@, usage, pages, fetch_usage, fetch_endpoints, at)
    &&& {
        ||| {
            &&& usage.len() == at
            &&& call_ensures(
                fetch_usage,
                (&fabrics@[at].id,),
                Err::<FabrexUsage, String>(cause),
            )
            &&& message@ == usage_failure_text(fabrics@[at].id@, cause@)
        }
        ||| {
            &&& usage.len() == at + 1
            &&& call_ensures(
                fetch_usage,
                (&fabrics@[at].id,),
                Ok::<FabrexUsage, String>(usage[at]),
            )
            &&& call_ensures(
                fetch_endpoints,
                (&fabrics@[at].id,),
                Err::<Vec<FabrexEndpoint>, String>(cause),
            )
            &&& message@ == endpoints_failure_text(fabrics@[at].id@, cause@)
        }
    }
}

/// Whether `r` is how a gathering may end: with the first failure among the
/// three listings, in the order fabrics, workloads, nodes, where one failed;
/// else with the snapshot of a complete run, or with the failure of a run
/// that a request about a fabric ended.
pub open spec fn gathered<U, E>(
    fabrics: Result<Vec<FabrexFabric>, String>,
    workloads: Result<Vec<GryfWorkload>, String>,
    supernodes: Result<Vec<SupernodeNode>, String>,
    fetch_usage: U,
    fetch_endpoints: E,
    r: Result<DashboardSnapshot, String>,
) -> bool where
    U: Fn(&String) -> Result<FabrexUsage, String>,
    E: Fn(&String) -> Result<Vec<FabrexEndpoint>, String>,
 {
    match (fabrics, workloads, supernodes) {
        (Err(e), _, _) => r == Err::<DashboardSnapshot, String>(e),
        (Ok(_), Err(e), _) => r == Err::<DashboardSnapshot, String>(e),
        (Ok(_), Ok(_), Err(e)) => r == Err::<DashboardSnapshot, String>(e),
        (Ok(_), Ok(_), Ok(_)) => {
            ||| exists|pages: Seq<Vec<FabrexEndpoint>>|
                complete_run(
                    fabrics,
                    workloads,
                    supernodes,
                    fetch_usage,
                    fetch_endpoints,
                    r,
                    pages,
                )
            ||| exists|usage: Seq<FabrexUsage>, pages: Seq<Vec<FabrexEndpoint>>, cause: String|
                failed_run(fabrics, fetch_usage, fetch_endpoints, r, usage, pages, cause)
        },
    }
}

/// Gathers one snapshot from the three listings and, for each fabric in
/// turn, what `fetch_usage` and `fetch_endpoints` give for it. The first
/// failure ends the gathering: a failed listing with its own error, in the
/// order fabrics, workloads, nodes; a failed request about a fabric with a
/// message that names the fabric. After a failure no further request is
/// made.
pub fn fetch_dashboard_snapshot<U, E>(
    fabrics: Result<Vec<FabrexFabric>, String>,
    workloads: Result<Vec<GryfWorkload>, String>,
    supernodes: Result<Vec<SupernodeNode>, String>,
    fetch_usage: U,
    fetch_endpoints: E,
) -> (r: Result<DashboardSnapshot, String>) where
    U: Fn(&String) -> Result<FabrexUsage, String>,
    E: Fn(&String) -> Result<Vec<FabrexEndpoint>, String>,

    requires
        forall|id: &String| call_requires(fetch_usage, (id,)),
        forall|id: &String| call_requires(fetch_endpoints, (id,)),
    ensures
        gathered(fabrics, workloads, supernodes, fetch_usage, fetch_endpoints, r),
{
    let mut stage = match begin(fabrics, workloads, supernodes) {
        Ok(stage) => stage,
        Err(e) => { return Err(e); },
    };
    let ghost f = fabrics->Ok_0;
    let ghost w = workloads->Ok_0;
    let ghost n = supernodes->Ok_0;
    let ghost mut usage: Seq<FabrexUsage> = Seq::empty();
    let ghost mut pages: Seq<Vec<FabrexEndpoint>> = Seq::empty();
    let ghost first = stage;
    proof {
        if first is Complete {
            let snapshot = first->Complete_0;
            assert(texts(snapshot.alerts@) =~= alert_lines(snapshot.fabric_usage@));
            assert(snapshot.endpoints@ =~= merged(pages, f@));
        }
    }
    loop
        invariant
            forall|id: &String| call_requires(fetch_usage, (id,)),
            forall|id: &String| call_requires(fetch_endpoints, (id,)),
            fabrics == Ok::<Vec<FabrexFabric>, String>(f),
            workloads == Ok::<Vec<GryfWorkload>, String>(w),
            supernodes == Ok::<Vec<SupernodeNode>, String>(n),
            pages.len() == usage.len(),
            answered(f@, usage, pages, fetch_usage, fetch_endpoints, pages.len() as int),
            match stage {
                FetchStage::NeedUsage(waiting) => {
                    &&& waiting.index() == pages.len()
                    &&& waiting.collected().fabrics == f
                    &&& waiting.collected().workloads == w
                    &&& waiting.collected().supernodes == n
                    &&& waiting.collected().usage@ == usage
                    &&& waiting.collected().endpoints@ == merged(pages, f@)
                },
                FetchStage::Complete(snapshot) => complete_run(
                    fabrics,
                    workloads,
                    supernodes,
                    fetch_usage,
                    fetch_endpoints,
                    Ok::<DashboardSnapshot, String>(snapshot),
                    pages,
                ),
            },
        decreases f@.len() - pages.len(),
    {
        let waiting = match stage {
            FetchStage::NeedUsage(waiting) => waiting,
            FetchStage::Complete(snapshot) => { return Ok(snapshot); },
        };
        let report = fetch_usage(waiting.fabric_ref());
        let ghost reported = report;
        let waiting = match waiting.supply(report) {
            Ok(next) => next,
            Err(message) => {
                proof {
                    assert(failed_run(
                        fabrics,
                        fetch_usage,
                        fetch_endpoints,
                        Err::<DashboardSnapshot, String>(message),
                        usage,
                        pages,
                        reported->Err_0,
                    ));
                }
                return Err(message);
            },
        };
        let page = fetch_endpoints(waiting.fabric_ref());
        let ghost paged = page;
        stage = match waiting.supply(page) {
            Ok(next) => next,
            Err(message) => {
                proof {
                    assert(failed_run(
                        fabrics,
                        fetch_usage,
                        fetch_endpoints,
                        Err::<DashboardSnapshot, String>(message),
                        usage.push(reported->Ok_0),
                        pages,
                        paged->Err_0,
                    ));
                }
                return Err(message);
            },
        };
        proof {
            let before = pages;
            usage = usage.push(reported->Ok_0);
            pages = pages.push(paged->Ok_0);
            assert(pages.drop_last() =~= before);
        }
    }
}

} // verus!
