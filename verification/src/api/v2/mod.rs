//! Version 2 of the service's API.

pub mod orders;
