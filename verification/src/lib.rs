//! Typed bindings for a remote trading service's HTTP API: how a request value
//! becomes a path, a query and a body, and how a status code and a response
//! body become a typed result or one of several kinds of error.
//!
//! - [`endpoint`] holds what all endpoints share: the error types, the status
//!   tables of an endpoint with the two entries that every endpoint has, and
//!   the evaluation of a response against them.
//! - [`api::v2::orders`] defines one endpoint, the listing of orders, with
//!   the request's form as query parameters.
//! - [`api_info`] holds what a client needs to know to reach the service.
//! - [`util`] and [`decimal`] hold the conversions between values and the
//!   text that stands for them on the wire.
//!
//! The library makes no call to the network and holds no state. The
//! transport that performs a call builds the request with the endpoint's
//! functions, and hands the status code and the body of the response back.

pub mod api;
pub mod api_info;
pub mod decimal;
pub mod endpoint;
pub mod std_specs;
pub mod util;
