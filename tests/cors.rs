use favicon_rover::cors::{cors_origin, cors_policy, CorsError, CorsOrigin, CorsPolicy};

fn config(v: &[&str]) -> Vec<String> {
    v.iter().map(|s| s.to_string()).collect()
}

#[test]
fn pattern_origin() {
    let p = cors_policy(&config(&["/^https:\\/\\/.*\\.example\\.com$/"])).unwrap();
    assert!(p.allows("https://a.example.com"));
    assert!(!p.allows("https://evil.com"));
    assert!(!p.allows("http://a.example.com"));
}

#[test]
fn wildcard_origin() {
    let p = cors_policy(&config(&["*"])).unwrap();
    assert!(matches!(p, CorsPolicy::Any));
    assert!(p.allows("https://evil.com"));
    assert!(p.allows(""));
}

#[test]
fn exact_list() {
    let p = cors_policy(&config(&["https://a.com", "https://b.com"])).unwrap();
    assert!(matches!(p, CorsPolicy::List(_)));
    assert!(p.allows("https://b.com"));
    assert!(!p.allows("https://c.com"));
}

#[test]
fn mixed_entries() {
    let p = cors_policy(&config(&["https://a.com", "/b\\.com$/"])).unwrap();
    assert!(matches!(p, CorsPolicy::Matchers(_)));
    assert!(p.allows("https://a.com"));
    assert!(p.allows("https://www.b.com"));
    assert!(!p.allows("https://c.com"));
}

#[test]
fn single_exact_origin() {
    let p = cors_policy(&config(&["https://a.com"])).unwrap();
    assert!(p.allows("https://a.com"));
    assert!(!p.allows("https://a.com.evil"));
}

#[test]
fn invalid_pattern() {
    assert!(matches!(cors_policy(&config(&["https://a.com", "/(/"])), Err(CorsError::InvalidPattern(1))));
    assert!(cors_origin("/(/").is_none());
    assert!(cors_origin("/").is_some());
}

#[test]
fn entries_keep_their_text() {
    match cors_origin("/^a$/") {
        Some(CorsOrigin::Regex(p)) => assert!(p.is_match("a") && !p.is_match("/^a$/")),
        _ => panic!("expected a pattern"),
    }
    match cors_origin("https://a.com") {
        Some(CorsOrigin::String(s)) => assert_eq!(s, "https://a.com"),
        _ => panic!("expected an exact origin"),
    }
}
