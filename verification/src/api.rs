//! What travels to and from the backend services: the authentication
//! material of a request, its paths and pages, and the records that come
//! back.

pub mod fabrex;
pub mod gryf;
pub mod http;
pub mod redfish;
pub mod supernode;

pub use fabrex::{
    FabrexEndpoint, FabrexFabric, FabrexReassignmentResult, FabrexUsage, UsageAlert,
};
pub use gryf::{GryfMetric, GryfReassignmentResult, GryfTask, GryfWorkload, GryfWorkloadDetail};
pub use http::{ApiClientConfig, ApiError, AuthContext, AuthHeader, Paginated, Pagination};
pub use supernode::{SupernodeActionResponse, SupernodeHealth, SupernodeIssue, SupernodeNode};
