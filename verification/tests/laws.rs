use mcp_observability::backend::{trim_trailing_slashes, BackendConfig, EnvSettings};
use mcp_observability::inputs::LogQueryInput;
use mcp_observability::tools::query_logs;

fn search(query: &str, service: Option<&str>) -> String {
    let input = LogQueryInput {
        query: query.to_string(),
        start: None,
        end: None,
        limit: None,
        service: service.map(|s| s.to_string()),
        level: None,
    };
    query_logs(&input).path
}

fn encoded_query(path: &str) -> &str {
    let rest = &path["/logs/search?query=".len()..];
    match rest.find('&') {
        Some(i) => &rest[..i],
        None => rest,
    }
}

#[test]
fn encoded_values_hold_only_url_safe_characters() {
    let q = "a&b=c #d?e/f+g%h é";
    let path = search(q, Some("api"));
    let enc = encoded_query(&path);
    assert!(enc.chars().all(|c| c.is_ascii_alphanumeric() || "-._~%".contains(c)));
    assert_eq!(&path[path.len() - "&service=api".len()..], "&service=api");
}

#[test]
fn a_query_cannot_smuggle_a_parameter() {
    let path = search("x&service=evil", Some("api"));
    assert_eq!(path, "/logs/search?query=x%26service%3Devil&service=api");
    assert_eq!(path.matches("&service=").count(), 1);
}

#[test]
fn plain_text_is_its_own_encoding() {
    let path = search("cpu.usage_total-1~X", None);
    assert_eq!(encoded_query(&path), "cpu.usage_total-1~X");
}

#[test]
fn distinct_queries_give_distinct_encodings() {
    let queries = ["a b", "a+b", "a%20b", "a%2520b", "é", "\u{e9}\u{0}", "", "%"];
    for (i, a) in queries.iter().enumerate() {
        for (j, b) in queries.iter().enumerate() {
            let ea = search(a, None);
            let eb = search(b, None);
            assert_eq!(i == j, ea == eb, "{:?} {:?}", a, b);
        }
    }
}

#[test]
fn trimming_twice_changes_nothing() {
    for s in ["", "/", "a//", "a/b/", "https://x.example/api///"] {
        let once = trim_trailing_slashes(s);
        assert!(!once.ends_with('/'));
        assert!(s.starts_with(once.as_str()));
        assert!(s[once.len()..].chars().all(|c| c == '/'));
        assert_eq!(trim_trailing_slashes(&once), once);
    }
}

#[test]
fn grafana_and_custom_base_urls_do_not_end_with_a_slash() {
    let empty = EnvSettings {
        datadog_api_key: None,
        datadog_app_key: None,
        datadog_site: None,
        grafana_url: None,
        grafana_api_token: None,
        newrelic_api_key: None,
        newrelic_account_id: None,
        observability_api_url: None,
        observability_api_key: None,
    };
    let g = EnvSettings { grafana_url: Some("https://g/".into()), grafana_api_token: Some("t".into()), ..empty.clone() };
    let c = EnvSettings { observability_api_url: Some("https://c//".into()), ..empty };
    for s in [g, c] {
        let cfg = BackendConfig::from_settings(&s).unwrap();
        assert!(!cfg.base_url.ends_with('/'));
    }
}
