//! A single-tenant blog service: a bearer-token guard in front of the
//! mutating operations, the post entity with its projections, a reference
//! model of the post store, and the policy that turns store outcomes into
//! HTTP responses.

pub mod authentication;
pub mod model;
pub mod response;
pub mod repository;
pub mod blog;
pub mod service;
