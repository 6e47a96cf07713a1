//! A typed client library for a versioned game REST API.
//!
//! The crate verifies the decision logic of the client: how request paths
//! are assembled from endpoint templates and encoded parameters, and how a
//! completed HTTP response is classified into a typed success or a typed
//! error according to the status sets each endpoint declares.

pub mod digits;
pub mod dispatch;
pub mod endpoint;
pub mod error;
pub mod params;
pub mod request;
pub mod status;
