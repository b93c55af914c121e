//! What the dashboard shows: one snapshot of the telemetry, and the state
//! round it.

use crate::api::fabrex::{FabrexEndpoint, FabrexFabric, FabrexUsage};
use crate::api::gryf::GryfWorkload;
use crate::api::supernode::SupernodeNode;
use crate::clock::now_millis;
use vstd::prelude::*;

verus! {

/// All the telemetry of one refresh. Once made it is not changed; a newer
/// one takes its place as a whole.
#[derive(Debug, Clone, PartialEq, Eq)]
pub struct DashboardSnapshot {
    pub fabrics: Vec<FabrexFabric>,
    pub fabric_usage: Vec<FabrexUsage>,
    pub workloads: Vec<GryfWorkload>,
    pub supernodes: Vec<SupernodeNode>,
    pub endpoints: Vec<FabrexEndpoint>,
    pub alerts: Vec<String>,
}

impl DashboardSnapshot {
    /// Nothing is in the snapshot.
    pub open spec fn is_empty(self) -> bool {
        &&& self.fabrics@.len() == 0
        &&& self.fabric_usage@.len() == 0
        &&& self.workloads@.len() == 0
        &&& self.supernodes@.len() == 0
        &&& self.endpoints@.len() == 0
        &&& self.alerts@.len() == 0
    }
}

impl Default for DashboardSnapshot {
    fn default() -> (r: Self)
        ensures
            r.is_empty(),
    {
        DashboardSnapshot {
            fabrics: Vec::new(),
            fabric_usage: Vec::new(),
            workloads: Vec::new(),
            supernodes: Vec::new(),
            endpoints: Vec::new(),
            alerts: Vec::new(),
        }
    }
}

/// The snapshot on show, whether a refresh is under way, the error of the
/// last refresh if it failed, and the time of the last one that succeeded.
/// An error never takes the snapshot away: it is shown over it.
#[derive(Debug)]
pub struct DashboardState {
    snapshot: DashboardSnapshot,
    last_updated: Option<u64>,
    loading: bool,
    error: Option<String>,
}

impl DashboardState {
    /// The snapshot on show.
    pub closed spec fn shown(&self) -> DashboardSnapshot {
        self.snapshot
    }

    /// The time of the last refresh that succeeded.
    pub closed spec fn updated_at(&self) -> Option<u64> {
        self.last_updated
    }

    /// Whether a refresh is under way.
    pub closed spec fn loading(&self) -> bool {
        self.loading
    }

    /// The error of the last refresh, if it failed.
    pub closed spec fn failure(&self) -> Option<String> {
        self.error
    }

    /// The state at the start: an empty snapshot, loading, no error, never
    /// updated.
    pub fn new() -> (r: Self)
        ensures
            r.shown().is_empty(),
            r.updated_at() is None,
            r.loading(),
            r.failure() is None,
    {
        DashboardState {
            snapshot: DashboardSnapshot::default(),
            last_updated: None,
            loading: true,
            error: None,
        }
    }

    /// A refresh begins: loading, and the old error is gone. The snapshot
    /// stays.
    pub fn set_loading(&mut self)
        ensures
            final(self).loading(),
            final(self).failure() is None,
            final(self).shown() == old(self).shown(),
            final(self).updated_at() == old(self).updated_at(),
    {
        self.loading = true;
        self.error = None;
    }

    /// A refresh succeeded at the time `now`: `snapshot` takes the place of
    /// the old one.
    pub fn update_at(&mut self, snapshot: DashboardSnapshot, now: u64)
        ensures
            final(self).shown() == snapshot,
            final(self).updated_at() == Some(now),
            !final(self).loading(),
            final(self).failure() is None,
    {
        self.snapshot = snapshot;
        self.last_updated = Some(now);
        self.loading = false;
        self.error = None;
    }

    /// A refresh succeeded now: `update_at` at the clock's reading.
    pub fn update(&mut self, snapshot: DashboardSnapshot)
        ensures
            final(self).shown() == snapshot,
            final(self).updated_at() is Some,
            !final(self).loading(),
            final(self).failure() is None,
    {
        let now = now_millis();
        self.update_at(snapshot, now);
    }

    /// A refresh failed: the error is kept, and the last good snapshot with
    /// its time stays on show.
    pub fn set_error(&mut self, error: String)
        ensures
            final(self).failure() == Some(error),
            !final(self).loading(),
            final(self).shown() == old(self).shown(),
            final(self).updated_at() == old(self).updated_at(),
    {
        self.loading = false;
        self.error = Some(error);
    }

    /// The snapshot on show.
    pub fn snapshot(&self) -> (r: &DashboardSnapshot)
        ensures
            *r == self.shown(),
    {
        &self.snapshot
    }

    /// The time of the last refresh that succeeded.
    pub fn last_updated(&self) -> (r: Option<u64>)
        ensures
            r == self.updated_at(),
    {
        self.last_updated
    }

    /// Whether a refresh is under way.
    pub fn is_loading(&self) -> (r: bool)
        ensures
            r == self.loading(),
    {
        self.loading
    }

    /// The error of the last refresh, if it failed.
    pub fn error(&self) -> (r: Option<&str>)
        ensures
            match r {
                Some(text) => self.failure() matches Some(e) && text@ == e@,
                None => self.failure() is None,
            },
    {
        match &self.error {
            Some(e) => Some(e.as_str()),
            None => None,
        }
    }
}

} // verus!
