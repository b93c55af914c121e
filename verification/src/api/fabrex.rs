//! The fabric service: its records and the paths of its requests.

use crate::text::join3;
use vstd::prelude::*;

verus! {

/// A fabric as the service lists it.
#[derive(Debug, Clone, PartialEq, Eq)]
pub struct FabrexFabric {
    pub id: String,
    pub name: String,
    pub status: String,
    pub description: Option<String>,
}

/// An endpoint of a fabric. The service may leave out which fabric it
/// belongs to.
#[derive(Debug, Clone, PartialEq, Eq)]
pub struct FabrexEndpoint {
    pub id: String,
    pub name: String,
    pub fabric_id: Option<String>,
    pub attached_supernode_id: Option<String>,
    pub status: String,
}

/// How much of a fabric is in use. The percentage is carried as the bit
/// pattern of its 64-bit floating-point value, untouched.
#[derive(Debug, Clone, PartialEq, Eq)]
pub struct FabrexUsage {
    pub fabric_id: String,
    pub utilization_percent_bits: u64,
    pub total_endpoints: u32,
    pub assigned_endpoints: u32,
    pub alerts: Vec<UsageAlert>,
}

/// One alert in a usage report.
#[derive(Debug, Clone, PartialEq, Eq)]
pub struct UsageAlert {
    pub severity: String,
    pub message: String,
}

/// What the service answers to a reassignment.
#[derive(Debug, Clone, PartialEq, Eq)]
pub struct FabrexReassignmentResult {
    pub request_id: String,
    pub status: String,
    pub message: Option<String>,
}

/// The path of the listing of all fabrics.
pub fn fabrics_path() -> (r: &'static str)
    ensures
        r@ == "/fabrics"@,
{
    "/fabrics"
}

/// The path of the endpoints of the fabric `fabric_id`.
pub fn endpoints_path(fabric_id: &str) -> (r: String)
    ensures
        r@ == "/fabrics/"@ + fabric_id@ + "/endpoints"@,
{
    join3("/fabrics/", fabric_id, "/endpoints")
}

/// The path of the usage report of the fabric `fabric_id`.
pub fn usage_path(fabric_id: &str) -> (r: String)
    ensures
        r@ == "/fabrics/"@ + fabric_id@ + "/usage"@,
{
    join3("/fabrics/", fabric_id, "/usage")
}

/// The path that reassigns the endpoint `endpoint_id` of the fabric
/// `fabric_id`.
pub fn reassign_endpoint_path(fabric_id: &str, endpoint_id: &str) -> (r: String)
    ensures
        r@ == "/fabrics/"@ + fabric_id@ + "/endpoints/"@ + endpoint_id@ + "/reassign"@,
{
    let head = join3("/fabrics/", fabric_id, "/endpoints/");
    let path = join3(head.as_str(), endpoint_id, "/reassign");
    path
}

/// The one member of a reassignment's body: the name under which the target
/// goes, and the target.
pub fn reassign_endpoint_body(target_supernode: &str) -> (r: (String, String))
    ensures
        r.0@ == "targetSupernodeId"@,
        r.1@ == target_supernode@,
{
    ("targetSupernodeId".to_owned(), target_supernode.to_owned())
}

} // verus!
