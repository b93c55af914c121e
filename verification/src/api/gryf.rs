//! The workload service: its records and the paths of its requests.

use crate::text::{join2, join3};
use vstd::prelude::*;

verus! {

/// A workload as the service lists it.
#[derive(Debug, Clone, PartialEq, Eq)]
pub struct GryfWorkload {
    pub id: String,
    pub name: String,
    pub state: String,
    pub owner: Option<String>,
}

/// A workload with its tasks and metrics.
#[derive(Debug, Clone, PartialEq, Eq)]
pub struct GryfWorkloadDetail {
    pub workload: GryfWorkload,
    pub tasks: Vec<GryfTask>,
    pub metrics: Vec<GryfMetric>,
}

/// One task of a workload.
#[derive(Debug, Clone, PartialEq, Eq)]
pub struct GryfTask {
    pub id: String,
    pub node: String,
    pub status: String,
}

/// One measurement of a workload. The value is carried as the bit pattern
/// of its 64-bit floating-point value, untouched.
#[derive(Debug, Clone, PartialEq, Eq)]
pub struct GryfMetric {
    pub key: String,
    pub value_bits: u64,
    pub unit: Option<String>,
}

/// What the service answers to a reassignment.
#[derive(Debug, Clone, PartialEq, Eq)]
pub struct GryfReassignmentResult {
    pub request_id: String,
    pub status: String,
    pub details: Option<String>,
}

/// The path of the listing of all workloads.
pub fn workloads_path() -> (r: &'static str)
    ensures
        r@ == "/workloads"@,
{
    "/workloads"
}

/// The path of the workload `workload_id`.
pub fn workload_path(workload_id: &str) -> (r: String)
    ensures
        r@ == "/workloads/"@ + workload_id@,
{
    join2("/workloads/", workload_id)
}

/// The path that reassigns the workload `workload_id`.
pub fn reassign_workload_path(workload_id: &str) -> (r: String)
    ensures
        r@ == "/workloads/"@ + workload_id@ + "/reassign"@,
{
    join3("/workloads/", workload_id, "/reassign")
}

/// The members of a workload reassignment's body, in order: the target
/// fabric, then the reason, which has no text where none was given.
pub fn reassign_workload_body(target_fabric: &str, reason: Option<&str>) -> (r: Vec<
    (String, Option<String>),
>)
    ensures
        r@.len() == 2,
        r@[0].0@ == "targetFabricId"@,
        r@[0].1 matches Some(t) && t@ == target_fabric@,
        r@[1].0@ == "reason"@,
        match reason {
            Some(text) => r@[1].1 matches Some(t) && t@ == text@,
            None => r@[1].1 is None,
        },
{
    let mut out: Vec<(String, Option<String>)> = Vec::new();
    out.push(("targetFabricId".to_owned(), Some(target_fabric.to_owned())));
    let reason_text = match reason {
        Some(text) => Some(text.to_owned()),
        None => None,
    };
    out.push(("reason".to_owned(), reason_text));
    out
}

} // verus!
