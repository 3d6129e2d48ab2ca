//! Verified core of a link shortening service.
//!
//! The service mints short identifiers that redirect to target URLs, counts
//! the hits of each link by referer and user agent, and sweeps expired links
//! away on a schedule. This library holds its rules, each with a contract
//! that Verus proves:
//!
//! - [`utils`]: validation of targets and generation of identifiers;
//! - [`routes`]: the decisions of creation with bounded retry, update,
//!   redirection with best-effort statistics, and the statistics read;
//! - [`scheduler`]: when a sweep may start and what its end means;
//! - [`auth`]: the shared-secret key test;
//! - [`dao`]: an in-memory link table that says what each statement of the
//!   store interface means;
//! - [`laws`]: what holds of these taken together.
//!
//! Calls to the store, deadlines, the schedule and the HTTP surface are the
//! caller's: the library takes their outcomes as plain values.

pub mod auth;
pub mod dao;
pub mod error;
pub mod laws;
pub mod model;
pub mod routes;
pub mod scheduler;
pub mod utils;
