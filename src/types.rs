//! Data exchanged between a resolution cycle and its callers.
use vstd::prelude::*;

verus! {

/// How a lookup service reports the caller's address.
#[derive(Clone, Copy, Debug, PartialEq, Eq, Structural)]
pub enum ResponseKind {
    /// The response body is the address as plain text.
    AddressAsBody,
}

/// A "what is my IP" service.
#[derive(Clone, Debug)]
pub struct ServiceEndpoint {
    pub url: String,
    pub response_kind: ResponseKind,
}

impl ServiceEndpoint {
    /// A field-for-field copy.
    pub fn duplicate(&self) -> (r: ServiceEndpoint)
        ensures
            r == *self,
    {
        ServiceEndpoint { url: self.url.clone(), response_kind: self.response_kind }
    }
}

/// Credentials of one DNS record to keep up to date.
#[derive(Clone, Debug)]
pub struct DomainCredential {
    pub hostname: String,
    pub username: String,
    pub password: String,
}

/// The part of the configuration this library reads.
#[derive(Clone, Debug)]
pub struct Config {
    /// Lookup services, in configuration order.
    pub ip_services: Vec<ServiceEndpoint>,
    /// Host of the dyndns2 update service.
    pub service_domain: String,
    /// Records to update when the address changes.
    pub domains: Vec<DomainCredential>,
}

/// Outcome of one address lookup cycle.
#[derive(Clone, Debug)]
pub struct IpServiceResult {
    pub service: Option<String>,
    pub address: Option<String>,
    pub prev_address: Option<String>,
    pub address_changed: bool,
    pub errors: Vec<String>,
}

impl IpServiceResult {
    /// An empty result: nothing resolved, nothing changed, no errors.
    pub fn new() -> (r: IpServiceResult)
        ensures
            r.service is None,
            r.address is None,
            r.prev_address is None,
            !r.address_changed,
            r.errors@.len() == 0,
    {
        IpServiceResult {
            service: None,
            address: None,
            prev_address: None,
            address_changed: false,
            errors: Vec::new(),
        }
    }
}

/// A response captured as plain values.
#[derive(Clone, Debug)]
pub struct ResponseJson {
    pub status_code: u16,
    pub body: String,
    pub headers: Vec<(String, String)>,
    pub timestamp: u128,
}

/// Outcome of updating one DNS record.
#[derive(Clone, Debug)]
pub struct DomainResult {
    pub hostname: String,
    pub response: Option<ResponseJson>,
    pub errors: Vec<String>,
}

/// What the previous cycle left behind.
#[derive(Clone, Debug)]
pub struct UpdateIpResults {
    pub ip_service_result: IpServiceResult,
    pub domains: Vec<DomainResult>,
}

/// A copy of an optional string that is equal to it.
pub fn copy_text(o: &Option<String>) -> (r: Option<String>)
    ensures
        r == *o,
{
    match o {
        Some(s) => Some(s.clone()),
        None => None,
    }
}

} // verus!
