use mcp_observability::inputs::{GrafanaSyncInput, MonitorCheckInput, PromQueryInput};
use mcp_observability::probes::{
    error_report, grafana_plan, grafana_pulled_report, monitor_status_report, monitor_timeout_secs,
    prometheus_plan, prometheus_query_url, prometheus_report, prometheus_unavailable_report,
    GrafanaStep, PrometheusStep, ProbeOutcome,
};
use mcp_observability::request::{JsonField, JsonObject, JsonValue};

fn s(x: &str) -> String {
    x.to_string()
}

fn obj(fields: Vec<(&str, JsonValue)>) -> JsonObject {
    JsonObject {
        fields: fields
            .into_iter()
            .map(|(k, v)| JsonField { key: k.to_string(), value: v })
            .collect(),
    }
}

fn check(url: &str, t: Option<u64>) -> MonitorCheckInput {
    MonitorCheckInput { url: s(url), timeout_seconds: t }
}

#[test]
fn monitor_timeout_defaults_to_ten() {
    assert_eq!(monitor_timeout_secs(&check("https://a", None)), 10);
    assert_eq!(monitor_timeout_secs(&check("https://a", Some(3))), 3);
}

#[test]
fn monitor_up_below_400() {
    let r = monitor_status_report(&check("https://a", None), &ProbeOutcome::Responded { status_code: 200, latency_ms: 35 });
    assert_eq!(
        r,
        obj(vec![
            ("url", JsonValue::Str(s("https://a"))),
            ("status", JsonValue::Str(s("up"))),
            ("status_code", JsonValue::Num(200)),
            ("latency_ms", JsonValue::Num(35)),
        ])
    );
    let r399 = monitor_status_report(&check("u", None), &ProbeOutcome::Responded { status_code: 399, latency_ms: 1 });
    assert_eq!(r399.fields[1].value, JsonValue::Str(s("up")));
}

#[test]
fn monitor_degraded_from_400() {
    let r = monitor_status_report(&check("u", None), &ProbeOutcome::Responded { status_code: 400, latency_ms: 9 });
    assert_eq!(r.fields[1].value, JsonValue::Str(s("degraded")));
    let r503 = monitor_status_report(&check("u", None), &ProbeOutcome::Responded { status_code: 503, latency_ms: 9 });
    assert_eq!(r503.fields[1].value, JsonValue::Str(s("degraded")));
}

#[test]
fn monitor_down_on_failure() {
    let r = monitor_status_report(&check("https://b", None), &ProbeOutcome::Failed(s("connection refused")));
    assert_eq!(
        r,
        obj(vec![
            ("url", JsonValue::Str(s("https://b"))),
            ("status", JsonValue::Str(s("down"))),
            ("error", JsonValue::Str(s("connection refused"))),
        ])
    );
}

#[test]
fn prometheus_urls() {
    let base = s("http://localhost:9090");
    let instant = PromQueryInput { query: s("up"), start: None, end: some_s("x"), step: None };
    assert_eq!(prometheus_query_url(&base, &instant), "http://localhost:9090/api/v1/query?query=up");
    let range = PromQueryInput { query: s("rate(x[5m])"), start: some_s("1700000000"), end: None, step: None };
    assert_eq!(
        prometheus_query_url(&base, &range),
        "http://localhost:9090/api/v1/query_range?query=rate(x[5m])&start=1700000000&end=now&step=60s"
    );
    let full = PromQueryInput { query: s("up"), start: some_s("1"), end: some_s("2"), step: some_s("15s") };
    assert_eq!(
        prometheus_query_url(&s("http://p"), &full),
        "http://p/api/v1/query_range?query=up&start=1&end=2&step=15s"
    );
}

#[test]
fn prometheus_needs_its_url() {
    let q = PromQueryInput { query: s("up"), start: None, end: None, step: None };
    assert_eq!(
        prometheus_plan(&None, &q),
        PrometheusStep::Reply(obj(vec![
            ("error", JsonValue::Str(s("NOT_CONFIGURED"))),
            ("message", JsonValue::Str(s("Set PROMETHEUS_URL"))),
        ]))
    );
    assert_eq!(
        prometheus_plan(&some_s("http://prom:9090"), &q),
        PrometheusStep::Query { base: s("http://prom:9090"), url: s("http://prom:9090/api/v1/query?query=up") }
    );
}

fn some_s(x: &str) -> Option<String> {
    Some(x.to_string())
}

#[test]
fn prometheus_reports() {
    let r = prometheus_report(JsonValue::Raw(s("\"success\"")), JsonValue::Raw(s("\"vector\"")), JsonValue::Raw(s("[]")));
    assert_eq!(
        r,
        obj(vec![
            ("source", JsonValue::Str(s("prometheus"))),
            ("status", JsonValue::Raw(s("\"success\""))),
            ("result_type", JsonValue::Raw(s("\"vector\""))),
            ("results", JsonValue::Raw(s("[]"))),
        ])
    );
    assert_eq!(
        prometheus_unavailable_report(&s("connection refused"), &s("http://localhost:9090")),
        obj(vec![
            ("error", JsonValue::Str(s("PROMETHEUS_UNAVAILABLE"))),
            ("details", JsonValue::Str(s("connection refused"))),
            ("url", JsonValue::Str(s("http://localhost:9090"))),
        ])
    );
    assert_eq!(error_report(&s("bad json")), obj(vec![("error", JsonValue::Str(s("bad json")))]));
}

fn sync(direction: &str) -> GrafanaSyncInput {
    GrafanaSyncInput { direction: s(direction), dashboard_id: None }
}

#[test]
fn grafana_without_token_is_not_configured() {
    assert_eq!(
        grafana_plan(&some_s("https://g"), &None, &sync("pull")),
        GrafanaStep::Reply(obj(vec![
            ("error", JsonValue::Str(s("NOT_CONFIGURED"))),
            ("message", JsonValue::Str(s("Set GRAFANA_URL and GRAFANA_TOKEN"))),
        ]))
    );
}

#[test]
fn grafana_pull() {
    assert_eq!(
        grafana_plan(&some_s("https://g.example"), &some_s("t"), &sync("pull")),
        GrafanaStep::Pull { url: s("https://g.example/api/search?type=dash-db"), authorization: s("Bearer t") }
    );
}

#[test]
fn grafana_push_is_pointed_to_the_api() {
    let expected = GrafanaStep::Reply(obj(vec![
        ("status", JsonValue::Str(s("push_supported"))),
        ("message", JsonValue::Str(s("Use Grafana API POST /api/dashboards/db"))),
    ]));
    assert_eq!(grafana_plan(&some_s("https://g"), &some_s("t"), &sync("push")), expected);
    assert_eq!(grafana_plan(&some_s("https://g"), &some_s("t"), &sync("Pull")), expected);
}

#[test]
fn grafana_pulled() {
    assert_eq!(
        grafana_pulled_report(JsonValue::Raw(s("[{\"uid\":\"a\"}]"))),
        obj(vec![
            ("source", JsonValue::Str(s("grafana"))),
            ("status", JsonValue::Str(s("pulled"))),
            ("dashboards", JsonValue::Raw(s("[{\"uid\":\"a\"}]"))),
        ])
    );
}

#[test]
fn grafana_without_url_is_not_configured() {
    let expected = GrafanaStep::Reply(obj(vec![
        ("error", JsonValue::Str(s("NOT_CONFIGURED"))),
        ("message", JsonValue::Str(s("Set GRAFANA_URL and GRAFANA_TOKEN"))),
    ]));
    assert_eq!(grafana_plan(&None, &some_s("gt"), &sync("pull")), expected);
    assert_eq!(grafana_plan(&None, &some_s("gt"), &sync("push")), expected);
    assert_eq!(grafana_plan(&None, &None, &sync("pull")), expected);
}
