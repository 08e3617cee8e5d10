use list_relay::cache::ResolutionCache;
use list_relay::directory::{directory_url, find_list_id, DirectoryEntry};
use list_relay::gateway::{
    forward_request, relay, resolve_from_directory, resource_url, settle_lookup, ForwardOutcome,
    GatewayError,
};

fn entry(id: &str, title: &str) -> DirectoryEntry {
    DirectoryEntry { id: id.to_string(), title: title.to_string() }
}

fn query(pairs: &[(&str, &str)]) -> Vec<(String, String)> {
    pairs.iter().map(|(k, v)| (k.to_string(), v.to_string())).collect()
}

#[test]
fn exact_match_is_found() {
    let entries = vec![entry("1", "Foo"), entry("2", "Bar")];
    assert_eq!(find_list_id(&entries, &"Bar".to_string()), Some("2".to_string()));
}

#[test]
fn match_is_case_sensitive_and_untrimmed() {
    let entries = vec![entry("1", "Foo")];
    assert_eq!(find_list_id(&entries, &"foo".to_string()), None);
    assert_eq!(find_list_id(&entries, &"Foo ".to_string()), None);
    assert_eq!(find_list_id(&entries, &"Foo".to_string()), Some("1".to_string()));
}

#[test]
fn first_of_equal_titles_wins() {
    let entries = vec![entry("7", "dup"), entry("8", "dup")];
    assert_eq!(find_list_id(&entries, &"dup".to_string()), Some("7".to_string()));
}

#[test]
fn empty_directory_has_no_match() {
    assert_eq!(find_list_id(&Vec::new(), &"news".to_string()), None);
}

#[test]
fn cache_starts_empty_and_records() {
    let mut cache = ResolutionCache::new();
    assert_eq!(cache.len(), 0);
    assert_eq!(cache.lookup(&"news".to_string()), None);
    cache.insert("news".to_string(), "42".to_string());
    cache.insert("tech".to_string(), "43".to_string());
    assert_eq!(cache.len(), 2);
    assert_eq!(cache.lookup(&"news".to_string()), Some("42".to_string()));
    assert_eq!(cache.lookup(&"tech".to_string()), Some("43".to_string()));
    assert_eq!(cache.lookup(&"News".to_string()), None);
}

#[test]
fn cache_last_writer_wins() {
    let mut cache = ResolutionCache::new();
    cache.insert("news".to_string(), "42".to_string());
    cache.insert("news".to_string(), "99".to_string());
    assert_eq!(cache.len(), 1);
    assert_eq!(cache.lookup(&"news".to_string()), Some("99".to_string()));
}

#[test]
fn resolved_name_is_then_a_cache_hit() {
    let mut cache = ResolutionCache::new();
    let answer = Ok(vec![entry("42", "news")]);
    let id = resolve_from_directory(&mut cache, "news".to_string(), answer).unwrap();
    assert_eq!(id, "42");
    cache.insert("other".to_string(), "5".to_string());
    assert_eq!(cache.lookup(&"news".to_string()), Some("42".to_string()));
}

#[test]
fn stable_directory_gives_same_id_twice() {
    let mut cache = ResolutionCache::new();
    let dir = vec![entry("3", "a"), entry("42", "news")];
    let first = resolve_from_directory(&mut cache, "news".to_string(), Ok(dir.clone())).unwrap();
    let second = resolve_from_directory(&mut cache, "news".to_string(), Ok(dir)).unwrap();
    assert_eq!(first, second);
    assert_eq!(cache.len(), 1);
    assert_eq!(cache.lookup(&"news".to_string()), Some(first));
}

#[test]
fn no_match_is_not_found_and_caches_nothing() {
    let mut cache = ResolutionCache::new();
    let r = resolve_from_directory(&mut cache, "news".to_string(), Ok(vec![entry("1", "Foo")]));
    let e = r.unwrap_err();
    assert!(matches!(e, GatewayError::NotFound));
    assert_eq!(e.status(), 404);
    assert_eq!(e.message(), "");
    assert_eq!(cache.len(), 0);
}

#[test]
fn failed_lookup_is_reported_as_not_found_with_description() {
    let mut cache = ResolutionCache::new();
    let r = resolve_from_directory(&mut cache, "news".to_string(), Err("timed out".to_string()));
    let e = r.unwrap_err();
    assert!(matches!(e, GatewayError::LookupFailed(_)));
    assert_eq!(e.status(), 404);
    assert_eq!(e.message(), "timed out");
    assert_eq!(cache.len(), 0);
}

#[test]
fn settle_lookup_records_match() {
    let mut cache = ResolutionCache::new();
    let r = settle_lookup(&mut cache, "news".to_string(), Ok(Some("42".to_string())));
    assert_eq!(r.unwrap(), "42");
    assert_eq!(cache.lookup(&"news".to_string()), Some("42".to_string()));
    let miss = settle_lookup(&mut cache, "none".to_string(), Ok(None));
    assert!(matches!(miss, Err(GatewayError::NotFound)));
    assert_eq!(cache.len(), 1);
}

#[test]
fn urls_are_built_from_base() {
    assert_eq!(
        resource_url("https://example.org", &"42".to_string()),
        "https://example.org/api/v1/timelines/list/42"
    );
    assert_eq!(directory_url("https://example.org"), "https://example.org/api/v1/lists");
}

#[test]
fn query_is_passed_through_unchanged() {
    let q = query(&[("since", "10"), ("limit", "5")]);
    let req = forward_request("https://example.org", &"7".to_string(), "tok".to_string(), q.clone());
    assert_eq!(req.query, q);
    assert_eq!(req.url, "https://example.org/api/v1/timelines/list/7");
    assert_eq!(req.authorization, "tok");
}

#[test]
fn any_upstream_status_is_relayed_as_ok() {
    for status in [200u16, 404, 500, 302] {
        let body = "{\"error\":\"x\"}".to_string();
        let resp = relay(ForwardOutcome::Received { status, body: body.clone() }).unwrap();
        assert_eq!(resp.status, 200);
        assert_eq!(resp.body, body);
        assert_eq!(resp.content_type, "application/json");
    }
}

#[test]
fn transport_failure_is_internal_error() {
    let e = relay(ForwardOutcome::TransportFailed("refused".to_string())).err().unwrap();
    assert!(matches!(e, GatewayError::UpstreamTransportFailed(_)));
    assert_eq!(e.status(), 500);
    assert_eq!(e.message(), "refused");
}

#[test]
fn body_read_failure_is_internal_error() {
    let e = relay(ForwardOutcome::BodyReadFailed("truncated".to_string())).err().unwrap();
    assert!(matches!(e, GatewayError::UpstreamBodyReadFailed(_)));
    assert_eq!(e.status(), 500);
    assert_eq!(e.message(), "truncated");
}

#[test]
fn news_request_round_trip() {
    let mut cache = ResolutionCache::new();
    let name = "news".to_string();
    let mut directory_calls = 0;

    let id = match cache.lookup(&name) {
        Some(id) => id,
        None => {
            directory_calls += 1;
            let answer = Ok(vec![entry("42", "news")]);
            resolve_from_directory(&mut cache, name.clone(), answer).unwrap()
        }
    };
    let req = forward_request("https://example.org", &id, "tok".to_string(), query(&[("limit", "3")]));
    assert_eq!(req.url, "https://example.org/api/v1/timelines/list/42");
    assert_eq!(req.query, query(&[("limit", "3")]));
    let resp = relay(ForwardOutcome::Received { status: 200, body: "{\"items\":[]}".to_string() })
        .unwrap();
    assert_eq!(resp.status, 200);
    assert_eq!(resp.body, "{\"items\":[]}");

    let again = match cache.lookup(&name) {
        Some(id) => id,
        None => {
            directory_calls += 1;
            String::new()
        }
    };
    assert_eq!(again, "42");
    assert_eq!(directory_calls, 1);
}
