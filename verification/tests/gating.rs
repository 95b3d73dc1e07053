use geoip_api::gate::api_key_permitted;
use geoip_api::gate::extract_api_key;
use geoip_api::gate::host_permitted;
use geoip_api::gate::is_host_allowed;
use geoip_api::gate::parse_allowed_hosts;
use geoip_api::gate::split_str;
use geoip_api::gate::strip_port;

fn hosts(entries: &[&str]) -> Vec<String> {
    entries.iter().map(|s| s.to_string()).collect()
}

#[test]
fn default_allow_list_rejects_foreign_host() {
    let allowed = hosts(&["localhost", "127.0.0.1"]);
    assert!(!is_host_allowed("evil.com", &allowed));
    assert!(is_host_allowed("localhost", &allowed));
    assert!(is_host_allowed("127.0.0.1", &allowed));
}

#[test]
fn wildcard_entry_admits_subdomains() {
    let allowed = hosts(&["*.example.com"]);
    assert!(is_host_allowed("api.example.com", &allowed));
    assert!(is_host_allowed("deep.api.example.com", &allowed));
    assert!(!is_host_allowed("example.org", &allowed));
}

#[test]
fn host_matching_is_case_insensitive() {
    let allowed = hosts(&["evil.com"]);
    assert!(is_host_allowed("EVIL.COM", &allowed));
    assert!(is_host_allowed("Evil.Com", &allowed));
}

#[test]
fn host_header_port_is_ignored() {
    let allowed = hosts(&["localhost"]);
    assert!(host_permitted(Some("localhost:8080"), &allowed));
    assert!(!host_permitted(Some("evil.com:8080"), &allowed));
    assert!(!host_permitted(None, &allowed));
}

#[test]
fn strip_port_cuts_at_first_colon() {
    assert_eq!(strip_port("example.com:80"), "example.com");
    assert_eq!(strip_port("example.com"), "example.com");
    assert_eq!(strip_port("a:b:c"), "a");
    assert_eq!(strip_port(""), "");
}

#[test]
fn allow_list_is_trimmed_and_folded() {
    let parsed = parse_allowed_hosts(" Localhost ,\t127.0.0.1 , *.Example.Com");
    assert_eq!(parsed, vec!["localhost", "127.0.0.1", "*.example.com"]);
}

#[test]
fn split_keeps_empty_segments() {
    assert_eq!(split_str("a,,b", ','), vec!["a", "", "b"]);
    assert_eq!(split_str("", ','), vec![""]);
    assert_eq!(split_str("a,b,", ','), vec!["a", "b", ""]);
}

#[test]
fn bearer_header_is_preferred() {
    let k = extract_api_key(Some("Bearer s3cr3t"), Some("other"), Some("api_key=third"));
    assert_eq!(k.as_deref(), Some("s3cr3t"));
}

#[test]
fn malformed_bearer_falls_through() {
    let k = extract_api_key(Some("Basic abc"), Some("other"), None);
    assert_eq!(k.as_deref(), Some("other"));
}

#[test]
fn query_parameter_is_last_resort() {
    let k = extract_api_key(None, None, Some("a=1&api_key=s3cr3t&b=2"));
    assert_eq!(k.as_deref(), Some("s3cr3t"));
    assert_eq!(extract_api_key(None, None, Some("a=1&b=2")), None);
    assert_eq!(extract_api_key(None, None, None), None);
}

#[test]
fn api_key_gate() {
    let configured = "s3cr3t".to_string();
    let right = "s3cr3t".to_string();
    let wrong = "guess".to_string();
    assert!(api_key_permitted(None, None));
    assert!(api_key_permitted(None, Some(&wrong)));
    assert!(api_key_permitted(Some(&configured), Some(&right)));
    assert!(!api_key_permitted(Some(&configured), Some(&wrong)));
    assert!(!api_key_permitted(Some(&configured), None));
}
