//! The compute-node service: its records and the paths of its requests.

use crate::text::{join2, join3};
use vstd::prelude::*;

verus! {

/// A node as the service lists it.
#[derive(Debug, Clone, PartialEq, Eq)]
pub struct SupernodeNode {
    pub id: String,
    pub name: String,
    pub role: String,
    pub status: String,
}

/// The health of a node. The two percentages are carried as the bit patterns
/// of their 64-bit floating-point values, untouched.
#[derive(Debug, Clone, PartialEq, Eq)]
pub struct SupernodeHealth {
    pub node_id: String,
    pub cpu_percent_bits: u64,
    pub memory_percent_bits: u64,
    pub issues: Vec<SupernodeIssue>,
}

/// One issue in a health report.
#[derive(Debug, Clone, PartialEq, Eq)]
pub struct SupernodeIssue {
    pub severity: String,
    pub description: String,
}

/// What the service answers to an action on a node.
#[derive(Debug, Clone, PartialEq, Eq)]
pub struct SupernodeActionResponse {
    pub request_id: String,
    pub status: String,
}

/// The path of the listing of all nodes.
pub fn nodes_path() -> (r: &'static str)
    ensures
        r@ == "/nodes"@,
{
    "/nodes"
}

/// The path of the health report of the node `node_id`.
pub fn node_health_path(node_id: &str) -> (r: String)
    ensures
        r@ == "/nodes/"@ + node_id@ + "/health"@,
{
    join3("/nodes/", node_id, "/health")
}

/// The path that invokes `action` on the node `node_id`.
pub fn node_action_path(node_id: &str, action: &str) -> (r: String)
    ensures
        r@ == "/nodes/"@ + node_id@ + "/actions/"@ + action@,
{
    let head = join3("/nodes/", node_id, "/actions/");
    join2(head.as_str(), action)
}

} // verus!
