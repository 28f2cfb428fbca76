//! The service's endpoints, by version of its API.

pub mod v2;
