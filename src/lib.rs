//! An API gateway core: a catalog of API and origin definitions, a matcher
//! that classifies requests, a per-origin rate-limit engine and the decision
//! logic of the request dispatch pipeline.
pub mod config_store;
pub mod definitions;
pub mod dispatch;
pub mod rate_limit;
pub mod responses;
pub mod text;
pub mod tls_keys;
