//! A small host-monitoring library: an in-memory model of the daemon's
//! storage (CPU samples and URL probe targets), the request routing and
//! response construction of its HTTP API, and the decision logic of its
//! periodic retention and health-check jobs, all with verified contracts.

pub mod bodies;
pub mod digits;
pub mod host;
pub mod jsonio;
pub mod laws;
pub mod metrics;
pub mod probe;
pub mod request;
pub mod response;
pub mod routes;
pub mod store;
pub mod strutil;
pub mod urlparse;
