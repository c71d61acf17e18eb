//! Choosing a lookup service and deciding what a lookup changed.
use vstd::prelude::*;

use rand::Rng;

use crate::requests::{trim_of, trim_text};
use crate::types::{copy_text, Config, IpServiceResult, ServiceEndpoint, UpdateIpResults};

verus! {

/// `i` is the first position of `endpoints` whose url is `url`.
pub open spec fn is_first_match(endpoints: Seq<ServiceEndpoint>, url: Seq<char>, i: int) -> bool {
    &&& 0 <= i < endpoints.len()
    &&& endpoints[i].url@ == url
    &&& forall|j: int| 0 <= j < i ==> endpoints[j].url@ != url
}

/// Position of the endpoint used by the previous cycle, if it is still configured.
pub open spec fn prior_index(endpoints: Seq<ServiceEndpoint>, prior: Option<String>) -> Option<int> {
    match prior {
        Some(s) => if exists|i: int| is_first_match(endpoints, s@, i) {
            Some(choose|i: int| is_first_match(endpoints, s@, i))
        } else {
            None
        },
        None => None,
    }
}

/// How many endpoints a random draw chooses among: all but the previous one.
pub open spec fn candidate_count(endpoints: Seq<ServiceEndpoint>, prior: Option<String>) -> int {
    match prior_index(endpoints, prior) {
        Some(_) => endpoints.len() - 1,
        None => endpoints.len() as int,
    }
}

/// Maps a draw over the candidates to a position, stepping over the previous one.
pub open spec fn remap(prior: Option<int>, draw: int) -> int {
    match prior {
        Some(p) => if draw >= p { draw + 1 } else { draw },
        None => draw,
    }
}

/// The position chosen by `draw` when two or more endpoints are configured.
pub open spec fn selected_index(endpoints: Seq<ServiceEndpoint>, prior: Option<String>, draw: int) -> int {
    remap(prior_index(endpoints, prior), draw)
}

/// `e` is an endpoint that selection may return for this configuration and history.
pub open spec fn admissible(endpoints: Seq<ServiceEndpoint>, prior: Option<String>, e: ServiceEndpoint) -> bool {
    &&& endpoints.len() == 1 ==> e == endpoints[0]
    &&& endpoints.len() >= 2 ==> exists|draw: int|
        0 <= draw < candidate_count(endpoints, prior)
            && #[trigger] endpoints[selected_index(endpoints, prior, draw)] == e
}

/// Whether a lookup that gave `new` counts as a change from `prior`.
pub open spec fn changed(prior: Option<String>, new: Option<String>) -> bool {
    match (prior, new) {
        (Some(p), Some(c)) => p@ != c@,
        (None, Some(_)) => true,
        _ => false,
    }
}

/// The address a new cycle records as the previous one.
pub open spec fn carried_address(last: IpServiceResult) -> Option<String> {
    match last.address {
        Some(a) => Some(a),
        None => last.prev_address,
    }
}

/// No two endpoints share a url.
pub open spec fn urls_distinct(endpoints: Seq<ServiceEndpoint>) -> bool {
    forall|i: int, j: int|
        0 <= i < endpoints.len() && 0 <= j < endpoints.len() && i != j
            ==> endpoints[i].url@ != endpoints[j].url@
}

/// Message recorded when no lookup service is configured.
pub open spec fn no_service_message() -> Seq<char> {
    "failed to find ip service"@
}

/// What opening a cycle yields: a fresh result that carries the last address
/// forward, and the service to query, or the error when none is configured.
pub open spec fn begins(results: UpdateIpResults, config: Config, r: (IpServiceResult, Option<ServiceEndpoint>)) -> bool {
    &&& r.0.prev_address == carried_address(results.ip_service_result)
    &&& r.0.address is None
    &&& !r.0.address_changed
    &&& (r.1 is None <==> config.ip_services@.len() == 0)
    &&& r.1 is None ==> r.0.service is None && r.0.errors@.len() == 1 && r.0.errors@[0]@
        == no_service_message()
    &&& r.1 matches Some(e) ==> r.0.service == Some(e.url) && r.0.errors@.len() == 0
        && admissible(config.ip_services@, results.ip_service_result.service, e)
}

/// What closing a cycle yields from the lookup's outcome: the trimmed body as
/// the address, or the error appended and no address; the change is decided
/// against the last cycle.
pub open spec fn finishes(
    results: UpdateIpResults,
    pending: IpServiceResult,
    lookup: Result<String, String>,
    r: IpServiceResult,
) -> bool {
    &&& r.service == pending.service
    &&& r.prev_address == pending.prev_address
    &&& match lookup {
        Ok(body) => r.address matches Some(a) && a@ == trim_of(body@) && r.errors@ == pending.errors@,
        Err(e) => r.address is None && r.errors@ == pending.errors@.push(e),
    }
    &&& r.address_changed == changed(results.ip_service_result.address, r.address)
}

proof fn lemma_first_match_unique(endpoints: Seq<ServiceEndpoint>, url: Seq<char>, i: int, k: int)
    requires
        is_first_match(endpoints, url, i),
        is_first_match(endpoints, url, k),
    ensures
        i == k,
{
    if i < k {
        assert(endpoints[i].url@ != url);
    } else if k < i {
        assert(endpoints[k].url@ != url);
    }
}

/// Relies on rand's `thread_rng().gen_range(0..n)`: a value below `n`.
/// `gen_range` panics on an empty range, which `requires` leaves out.
#[verifier::external_body]
fn random_below(n: usize) -> (r: usize)
    requires
        n > 0,
    ensures
        r < n,
{
    rand::thread_rng().gen_range(0..n)
}

/// Position of the first endpoint whose url is the previous cycle's service.
pub fn find_prior_index(results: &UpdateIpResults, config: &Config) -> (r: Option<usize>)
    ensures
        match r {
            Some(i) => prior_index(config.ip_services@, results.ip_service_result.service)
                == Some(i as int),
            None => prior_index(config.ip_services@, results.ip_service_result.service) is None,
        },
{
    let endpoints = &config.ip_services;
    match &results.ip_service_result.service {
        None => None,
        Some(service) => {
            let mut index: usize = 0;
            while index < endpoints.len()
                invariant
                    0 <= index <= endpoints@.len(),
                    results.ip_service_result.service == Some(*service),
                    endpoints@ == config.ip_services@,
                    forall|j: int| 0 <= j < index ==> endpoints@[j].url@ != service@,
                decreases endpoints@.len() - index,
            {
                if endpoints[index].url == *service {
                    proof {
                        assert(is_first_match(endpoints@, service@, index as int));
                        let k = choose|k: int| is_first_match(endpoints@, service@, k);
                        lemma_first_match_unique(endpoints@, service@, index as int, k);
                        assert(exists|i: int| is_first_match(endpoints@, service@, i));
                        assert(prior_index(endpoints@, Some(*service)) == Some(k));
                    }
                    return Some(index);
                }
                index = index + 1;
            }
            assert(!exists|i: int| is_first_match(endpoints@, service@, i));
            None
        },
    }
}

/// How many endpoints a random draw chooses among, when two or more are configured.
pub fn candidates(results: &UpdateIpResults, config: &Config) -> (r: usize)
    ensures
        r == candidate_count(config.ip_services@, results.ip_service_result.service),
{
    match find_prior_index(results, config) {
        Some(_) => {
            proof {
                let i = choose|i: int|
                    is_first_match(config.ip_services@, results.ip_service_result.service->0@, i);
                assert(0 <= i < config.ip_services@.len());
            }
            config.ip_services.len() - 1
        },
        None => config.ip_services.len(),
    }
}

/// Selection with the random draw given: no endpoint for an empty list, the
/// only one for a single endpoint, else the endpoint that `draw` picks among
/// all but the previous cycle's.
pub fn pick_ip_service(results: &UpdateIpResults, config: &Config, draw: usize) -> (r: Option<ServiceEndpoint>)
    requires
        config.ip_services@.len() >= 2 ==> draw < candidate_count(
            config.ip_services@,
            results.ip_service_result.service,
        ),
    ensures
        config.ip_services@.len() == 0 ==> r is None,
        config.ip_services@.len() == 1 ==> r == Some(config.ip_services@[0]),
        config.ip_services@.len() >= 2 ==> r == Some(
            config.ip_services@[selected_index(
                config.ip_services@,
                results.ip_service_result.service,
                draw as int,
            )],
        ),
{
    let endpoints = &config.ip_services;
    if endpoints.len() == 0 {
        return None;
    }
    if endpoints.len() == 1 {
        return Some(endpoints[0].duplicate());
    }
    let mut index = draw;
    match find_prior_index(results, config) {
        Some(p) => {
            proof {
                let i = choose|i: int|
                    is_first_match(endpoints@, results.ip_service_result.service->0@, i);
                assert(0 <= i < endpoints@.len());
            }
            if index >= p {
                index = index + 1;
            }
        },
        None => {},
    }
    Some(endpoints[index].duplicate())
}

/// Chooses the lookup service for this cycle, never the previous cycle's one
/// when another is configured. Nothing when no service is configured.
pub fn get_ip_service(results: &UpdateIpResults, config: &Config) -> (r: Option<ServiceEndpoint>)
    ensures
        r is None <==> config.ip_services@.len() == 0,
        r matches Some(e) ==> admissible(config.ip_services@, results.ip_service_result.service, e),
{
    let n = config.ip_services.len();
    if n < 2 {
        return pick_ip_service(results, config, 0);
    }
    let count = candidates(results, config);
    let draw = random_below(count);
    let r = pick_ip_service(results, config, draw);
    assert(config.ip_services@[selected_index(
        config.ip_services@,
        results.ip_service_result.service,
        draw as int,
    )] == r->0);
    r
}

/// Whether the address of this cycle counts as a change from the last one:
/// a first address does, a missing one never does.
pub fn has_address_changed(results: &UpdateIpResults, ip_service_result: &IpServiceResult) -> (r: bool)
    ensures
        r == changed(results.ip_service_result.address, ip_service_result.address),
{
    match (&results.ip_service_result.address, &ip_service_result.address) {
        (Some(prev_ip), Some(curr_ip)) => !(*prev_ip == *curr_ip),
        (None, Some(_curr_ip)) => true,
        _ => false,
    }
}

/// Opens a cycle: a fresh result that carries the last address forward, and
/// the service to query. Without a configured service the result holds the
/// error and there is nothing to query.
pub fn begin_request_ip(results: &UpdateIpResults, config: &Config) -> (r: (IpServiceResult, Option<ServiceEndpoint>))
    ensures
        begins(*results, *config, r),
{
    let mut ip_service_result = IpServiceResult::new();
    ip_service_result.prev_address = match &results.ip_service_result.address {
        Some(address) => Some(address.clone()),
        None => copy_text(&results.ip_service_result.prev_address),
    };
    match get_ip_service(results, config) {
        Some(endpoint) => {
            ip_service_result.service = Some(endpoint.url.clone());
            (ip_service_result, Some(endpoint))
        },
        None => {
            let message = String::from_str("failed to find ip service");
            ip_service_result.errors.push(message);
            (ip_service_result, None)
        },
    }
}

/// Closes a cycle with what the lookup gave: its trimmed body as the address,
/// or its error appended with no address. Whether the address changed is
/// decided against the last cycle.
pub fn finish_request_ip(
    results: &UpdateIpResults,
    pending: IpServiceResult,
    lookup: Result<String, String>,
) -> (r: IpServiceResult)
    ensures
        finishes(*results, pending, lookup, r),
{
    let mut ip_service_result = pending;
    match lookup {
        Ok(body) => {
            ip_service_result.address = Some(trim_text(body.as_str()));
        },
        Err(e) => {
            ip_service_result.address = None;
            ip_service_result.errors.push(e);
        },
    }
    ip_service_result.address_changed = has_address_changed(results, &ip_service_result);
    ip_service_result
}

/// The address that the configured records are to be updated to: the new
/// address when the cycle counts as a change, else nothing.
pub fn update_target(result: &IpServiceResult) -> (r: Option<String>)
    ensures
        r == (if result.address_changed {
            result.address
        } else {
            None::<String>
        }),
{
    if result.address_changed {
        copy_text(&result.address)
    } else {
        None
    }
}

/// With two or more endpoints and distinct urls, selection never returns the
/// endpoint that the previous cycle used.
pub proof fn lemma_never_repeats(endpoints: Seq<ServiceEndpoint>, prior: Option<String>, e: ServiceEndpoint)
    requires
        endpoints.len() >= 2,
        urls_distinct(endpoints),
        admissible(endpoints, prior, e),
    ensures
        prior matches Some(s) ==> e.url@ != s@,
{
    if let Some(s) = prior {
        let draw = choose|draw: int|
            0 <= draw < candidate_count(endpoints, prior)
                && #[trigger] endpoints[selected_index(endpoints, prior, draw)] == e;
        let k = selected_index(endpoints, prior, draw);
        if exists|i: int| is_first_match(endpoints, s@, i) {
            let p = choose|i: int| is_first_match(endpoints, s@, i);
            assert(k != p);
            assert(endpoints[k].url@ != endpoints[p].url@);
        } else {
            if e.url@ == s@ {
                // with distinct urls, a match is the first one
                assert(is_first_match(endpoints, s@, k));
            }
        }
    }
}

/// With a single endpoint, selection returns it whatever the history.
pub proof fn lemma_single_endpoint(endpoints: Seq<ServiceEndpoint>, prior: Option<String>, e: ServiceEndpoint)
    requires
        endpoints.len() == 1,
        admissible(endpoints, prior, e),
    ensures
        e == endpoints[0],
{
}

/// A new cycle records the last cycle's address as its previous address,
/// whatever the lookup gives.
pub proof fn lemma_prev_address_carried(
    results: UpdateIpResults,
    config: Config,
    begun: (IpServiceResult, Option<ServiceEndpoint>),
    lookup: Result<String, String>,
    finished: IpServiceResult,
)
    requires
        begins(results, config, begun),
        finishes(results, begun.0, lookup, finished),
    ensures
        results.ip_service_result.address matches Some(a) ==> finished.prev_address == Some(a),
        results.ip_service_result.address is None ==> finished.prev_address
            == results.ip_service_result.prev_address,
{
}

/// A failed lookup leaves no address, no change and at least one error.
pub proof fn lemma_failed_lookup(
    results: UpdateIpResults,
    config: Config,
    begun: (IpServiceResult, Option<ServiceEndpoint>),
    e: String,
    finished: IpServiceResult,
)
    requires
        begins(results, config, begun),
        finishes(results, begun.0, Err(e), finished),
    ensures
        finished.address is None,
        !finished.address_changed,
        finished.errors@.len() > 0,
{
}

} // verus!
