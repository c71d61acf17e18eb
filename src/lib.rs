//! Public-address resolution and dyndns2-style update core.
//!
//! The library picks a lookup service without repeating the previous one,
//! decides whether the resolved address changed, builds authenticated update
//! requests and turns raw HTTP responses into structured snapshots.
use vstd::prelude::*;

pub mod ip_services;
pub mod requests;
pub mod types;
