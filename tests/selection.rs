use update_ip::ip_services::{
    begin_request_ip, finish_request_ip, get_ip_service, has_address_changed, pick_ip_service,
};
use update_ip::types::{Config, IpServiceResult, ResponseKind, ServiceEndpoint, UpdateIpResults};

fn endpoint(url: &str) -> ServiceEndpoint {
    ServiceEndpoint { url: url.to_string(), response_kind: ResponseKind::AddressAsBody }
}

fn config(urls: &[&str]) -> Config {
    Config {
        ip_services: urls.iter().map(|u| endpoint(u)).collect(),
        service_domain: "members.dyndns.org".to_string(),
        domains: Vec::new(),
    }
}

fn history(service: Option<&str>, address: Option<&str>, prev: Option<&str>) -> UpdateIpResults {
    let mut r = IpServiceResult::new();
    r.service = service.map(|s| s.to_string());
    r.address = address.map(|s| s.to_string());
    r.prev_address = prev.map(|s| s.to_string());
    UpdateIpResults { ip_service_result: r, domains: Vec::new() }
}

fn current(address: Option<&str>) -> IpServiceResult {
    let mut r = IpServiceResult::new();
    r.address = address.map(|s| s.to_string());
    r
}

#[test]
fn empty_list_selects_nothing() {
    let h = history(Some("https://a.example"), None, None);
    assert!(get_ip_service(&h, &config(&[])).is_none());
    assert!(get_ip_service(&history(None, None, None), &config(&[])).is_none());
}

#[test]
fn single_endpoint_always_selected() {
    let c = config(&["https://a.example"]);
    for h in [
        history(None, None, None),
        history(Some("https://a.example"), None, None),
        history(Some("https://gone.example"), None, None),
    ] {
        for _ in 0..20 {
            assert_eq!(get_ip_service(&h, &c).unwrap().url, "https://a.example");
        }
    }
}

#[test]
fn never_repeats_previous_service() {
    let urls = ["https://a.example", "https://b.example", "https://c.example", "https://d.example"];
    let c = config(&urls);
    for prior in urls {
        let h = history(Some(prior), None, None);
        for _ in 0..200 {
            let chosen = get_ip_service(&h, &c).unwrap();
            assert_ne!(chosen.url, prior);
            assert!(urls.contains(&chosen.url.as_str()));
        }
    }
}

#[test]
fn two_endpoints_alternate() {
    let c = config(&["https://first.example", "https://second.example"]);
    let h = history(Some("https://first.example"), None, None);
    for _ in 0..100 {
        assert_eq!(get_ip_service(&h, &c).unwrap().url, "https://second.example");
    }
}

#[test]
fn absent_prior_service_draws_over_all() {
    let c = config(&["https://a.example", "https://b.example", "https://c.example"]);
    let h = history(Some("https://removed.example"), None, None);
    assert_eq!(pick_ip_service(&h, &c, 0).unwrap().url, "https://a.example");
    assert_eq!(pick_ip_service(&h, &c, 2).unwrap().url, "https://c.example");
}

#[test]
fn draw_steps_over_prior_index() {
    let c = config(&["https://a.example", "https://b.example", "https://c.example"]);
    let h = history(Some("https://b.example"), None, None);
    assert_eq!(pick_ip_service(&h, &c, 0).unwrap().url, "https://a.example");
    assert_eq!(pick_ip_service(&h, &c, 1).unwrap().url, "https://c.example");
}

#[test]
fn change_detection_cases() {
    let a = Some("1.2.3.4");
    assert!(has_address_changed(&history(None, None, None), &current(a)));
    assert!(!has_address_changed(&history(None, a, None), &current(a)));
    assert!(has_address_changed(&history(None, a, None), &current(Some("1.2.3.5"))));
    assert!(!has_address_changed(&history(None, a, None), &current(None)));
    assert!(!has_address_changed(&history(None, None, None), &current(None)));
}

#[test]
fn prev_address_carried_forward() {
    let c = config(&["https://a.example", "https://b.example"]);
    let h = history(Some("https://a.example"), Some("A"), Some("Z"));
    for lookup in [Ok("B".to_string()), Err("connect failed".to_string())] {
        let (pending, endpoint) = begin_request_ip(&h, &c);
        assert_eq!(endpoint.unwrap().url, "https://b.example");
        let r = finish_request_ip(&h, pending, lookup);
        assert_eq!(r.prev_address.as_deref(), Some("A"));
    }
    let h = history(None, None, Some("Z"));
    let (pending, _) = begin_request_ip(&h, &c);
    assert_eq!(pending.prev_address.as_deref(), Some("Z"));
}

#[test]
fn lookup_failure_yields_error_result() {
    let c = config(&["https://a.example"]);
    let h = history(None, Some("1.2.3.4"), None);
    let (pending, endpoint) = begin_request_ip(&h, &c);
    assert!(endpoint.is_some());
    assert_eq!(pending.service.as_deref(), Some("https://a.example"));
    let r = finish_request_ip(&h, pending, Err("tls handshake failed".to_string()));
    assert_eq!(r.address, None);
    assert!(!r.address_changed);
    assert_eq!(r.errors, vec!["tls handshake failed".to_string()]);
}

#[test]
fn no_service_configured() {
    let h = history(None, Some("1.2.3.4"), None);
    let (pending, endpoint) = begin_request_ip(&h, &config(&[]));
    assert!(endpoint.is_none());
    assert_eq!(pending.service, None);
    assert_eq!(pending.address, None);
    assert!(!pending.address_changed);
    assert_eq!(pending.errors, vec!["failed to find ip service".to_string()]);
}

#[test]
fn lookup_body_is_trimmed_and_compared() {
    let c = config(&["https://a.example"]);
    let h = history(None, Some("1.2.3.4"), None);
    let (pending, _) = begin_request_ip(&h, &c);
    let r = finish_request_ip(&h, pending, Ok("  1.2.3.4\n".to_string()));
    assert_eq!(r.address.as_deref(), Some("1.2.3.4"));
    assert!(!r.address_changed);
    assert!(r.errors.is_empty());
    let (pending, _) = begin_request_ip(&h, &c);
    let r = finish_request_ip(&h, pending, Ok("5.6.7.8\r\n".to_string()));
    assert_eq!(r.address.as_deref(), Some("5.6.7.8"));
    assert!(r.address_changed);
}

#[test]
fn update_only_on_change() {
    let mut r = current(Some("1.2.3.4"));
    r.address_changed = true;
    assert_eq!(update_ip::ip_services::update_target(&r).as_deref(), Some("1.2.3.4"));
    r.address_changed = false;
    assert_eq!(update_ip::ip_services::update_target(&r), None);
}
