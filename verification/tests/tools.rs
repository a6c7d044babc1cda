use mcp_observability::inputs::{
    AckAlertInput, AlertFilterInput, CreateAlertInput, AlertHistoryInput, EmptyInput, IdInput, IncidentInput,
    IncidentResolveInput, LogQueryInput, MetricQueryInput, MonitorCreateInput, ResolveAlertInput,
    RunbookInput, ServiceInput, SloInput, TraceQueryInput, UpdateIncidentInput,
};
use mcp_observability::request::{ApiRequest, JsonField, JsonObject, JsonValue, Method};
use mcp_observability::tools;

fn s(x: &str) -> String {
    x.to_string()
}

fn some(x: &str) -> Option<String> {
    Some(x.to_string())
}

fn obj(fields: Vec<(&str, JsonValue)>) -> JsonObject {
    JsonObject {
        fields: fields
            .into_iter()
            .map(|(k, v)| JsonField { key: k.to_string(), value: v })
            .collect(),
    }
}

fn get(path: &str) -> ApiRequest {
    ApiRequest { method: Method::Get, path: path.to_string(), body: None }
}

fn svc(name: &str) -> ServiceInput {
    ServiceInput { service: s(name) }
}

fn id(x: &str) -> IdInput {
    IdInput { id: s(x) }
}

#[test]
fn query_logs_encodes_the_query_only() {
    let input = LogQueryInput {
        query: s("slow query & timeout"),
        start: some("2024-01-01T00:00:00Z"),
        end: None,
        limit: Some(100),
        service: some("postgres"),
        level: some("error"),
    };
    assert_eq!(
        tools::query_logs(&input),
        get("/logs/search?query=slow%20query%20%26%20timeout&start=2024-01-01T00:00:00Z&limit=100&service=postgres&level=error")
    );
}

#[test]
fn query_logs_with_only_a_query() {
    let input = LogQueryInput {
        query: s("panic"),
        start: None,
        end: None,
        limit: None,
        service: None,
        level: None,
    };
    assert_eq!(tools::query_logs(&input), get("/logs/search?query=panic"));
}

#[test]
fn query_logs_encodes_utf8_bytes_in_upper_case_hex() {
    let input = LogQueryInput {
        query: s("café/é?x=1"),
        start: None,
        end: some("now"),
        limit: Some(0),
        service: None,
        level: None,
    };
    assert_eq!(
        tools::query_logs(&input),
        get("/logs/search?query=caf%C3%A9%2F%C3%A9%3Fx%3D1&end=now&limit=0")
    );
}

#[test]
fn query_logs_keeps_unreserved_characters() {
    let input = LogQueryInput {
        query: s("AZaz09-._~"),
        start: None,
        end: None,
        limit: Some(4294967295),
        service: None,
        level: None,
    };
    assert_eq!(tools::query_logs(&input), get("/logs/search?query=AZaz09-._~&limit=4294967295"));
}

#[test]
fn service_paths() {
    assert_eq!(tools::get_log_stats(&svc("api")), get("/logs/stats?service=api"));
    assert_eq!(tools::get_errors(&svc("payment-service")), get("/logs/search?level=error&service=payment-service&limit=20"));
    assert_eq!(tools::tail_logs(&svc("api")), get("/logs/tail?service=api&limit=50"));
    assert_eq!(tools::list_metrics(&svc("api")), get("/metrics/list?service=api"));
    assert_eq!(tools::get_latency_breakdown(&svc("api-gateway")), get("/traces/latency?service=api-gateway"));
    assert_eq!(tools::get_service(&svc("db")), get("/services/db"));
}

#[test]
fn fixed_paths() {
    let e = EmptyInput {};
    assert_eq!(tools::get_system_health(&e), get("/metrics/health"));
    assert_eq!(tools::get_service_map(&e), get("/traces/service-map"));
    assert_eq!(tools::list_dashboards(&e), get("/dashboards"));
    assert_eq!(tools::list_services(&e), get("/services"));
}

#[test]
fn record_paths() {
    assert_eq!(tools::get_trace(&id("trace-abc")), get("/traces/trace-abc"));
    assert_eq!(tools::get_alert(&id("alert-123")), get("/alerts/alert-123"));
    assert_eq!(tools::get_incident(&id("inc-1")), get("/incidents/inc-1"));
    assert_eq!(tools::get_slo(&id("slo-latency")), get("/slos/slo-latency"));
    assert_eq!(tools::forecast_slo(&id("slo-latency")), get("/slos/slo-latency/forecast"));
    assert_eq!(tools::get_dashboard(&id("d1")), get("/dashboards/d1"));
}

#[test]
fn query_metric_paths() {
    let input = MetricQueryInput {
        metric: s("cpu usage"),
        start: some("-1h"),
        end: None,
        granularity: some("1m"),
        tags: some("{\"env\":\"prod\"}"),
    };
    assert_eq!(tools::query_metric(&input), get("/metrics/query?metric=cpu%20usage&start=-1h&granularity=1m"));
    assert_eq!(
        tools::compare_metrics(&input),
        get("/metrics/compare?metric=cpu%20usage&tags=%7B%22env%22%3A%22prod%22%7D")
    );
    let bare = MetricQueryInput { metric: s("latency"), start: None, end: None, granularity: None, tags: None };
    assert_eq!(tools::compare_metrics(&bare), get("/metrics/compare?metric=latency"));
    assert_eq!(tools::query_metric(&bare), get("/metrics/query?metric=latency"));
}

#[test]
fn search_traces_paths() {
    let input = TraceQueryInput {
        service: some("api-gateway"),
        operation: None,
        min_duration_ms: Some(1000),
        status: some("error"),
        limit: Some(5),
    };
    assert_eq!(
        tools::search_traces(&input),
        get("/traces/search?service=api-gateway&min_duration_ms=1000&status=error&limit=5&")
    );
    let none = TraceQueryInput { service: None, operation: None, min_duration_ms: None, status: None, limit: None };
    assert_eq!(tools::search_traces(&none), get("/traces/search?"));
}

#[test]
fn filter_paths() {
    let f = AlertFilterInput { status: some("firing"), severity: some("high"), service: some("api") };
    assert_eq!(tools::list_alerts(&f), get("/alerts?status=firing&severity=high&service=api&"));
    assert_eq!(tools::list_incidents(&f), get("/incidents?status=firing&severity=high&"));
    let empty = AlertFilterInput { status: None, severity: None, service: None };
    assert_eq!(tools::list_alerts(&empty), get("/alerts?"));
    assert_eq!(tools::list_slos(&SloInput { service: some("api") }), get("/slos?service=api&"));
    assert_eq!(tools::list_slos(&SloInput { service: None }), get("/slos?"));
    let rb = RunbookInput { service: some("payment-service"), alert_type: some("error_rate") };
    assert_eq!(tools::get_runbook(&rb), get("/runbooks?service=payment-service&alert_type=error_rate&"));
    let rb2 = RunbookInput { service: None, alert_type: some("latency") };
    assert_eq!(tools::get_runbook(&rb2), get("/runbooks?alert_type=latency&"));
}

#[test]
fn alert_history_limit_defaults_to_twenty_and_comes_last() {
    let a = AlertHistoryInput { alert_id: some("a1"), service: some("api"), limit: None };
    assert_eq!(tools::alert_history(&a), get("/alerts/history?alert_id=a1&service=api&limit=20"));
    let b = AlertHistoryInput { alert_id: None, service: None, limit: Some(7) };
    assert_eq!(tools::alert_history(&b), get("/alerts/history?limit=7"));
}

#[test]
fn acknowledge_alert_body() {
    let a = AckAlertInput { alert_id: s("alert-123"), message: some("Investigating") };
    assert_eq!(
        tools::acknowledge_alert(&a),
        ApiRequest {
            method: Method::Post,
            path: s("/alerts/alert-123/acknowledge"),
            body: Some(obj(vec![("message", JsonValue::Str(s("Investigating")))])),
        }
    );
    let b = AckAlertInput { alert_id: s("x"), message: None };
    assert_eq!(tools::acknowledge_alert(&b).body, Some(obj(vec![("message", JsonValue::Null)])));
}

#[test]
fn create_incident_body() {
    let i = IncidentInput {
        title: s("Payment failures"),
        severity: s("high"),
        service: s("payment-service"),
        description: None,
    };
    assert_eq!(
        tools::create_incident(&i),
        ApiRequest {
            method: Method::Post,
            path: s("/incidents"),
            body: Some(obj(vec![
                ("title", JsonValue::Str(s("Payment failures"))),
                ("severity", JsonValue::Str(s("high"))),
                ("service", JsonValue::Str(s("payment-service"))),
                ("description", JsonValue::Null),
            ])),
        }
    );
}

#[test]
fn update_incident_sends_only_given_changes() {
    let u = UpdateIncidentInput { id: s("inc-9"), status: some("resolved"), resolution: None };
    assert_eq!(
        tools::update_incident(&u),
        ApiRequest {
            method: Method::Patch,
            path: s("/incidents/inc-9"),
            body: Some(obj(vec![("status", JsonValue::Str(s("resolved")))])),
        }
    );
    let none = UpdateIncidentInput { id: s("inc-9"), status: None, resolution: None };
    assert_eq!(tools::update_incident(&none).body, Some(obj(vec![])));
    let both = UpdateIncidentInput { id: s("i"), status: some("open"), resolution: some("fixed") };
    assert_eq!(
        tools::update_incident(&both).body,
        Some(obj(vec![("status", JsonValue::Str(s("open"))), ("resolution", JsonValue::Str(s("fixed")))]))
    );
}

#[test]
fn resolve_alert_body() {
    let r = ResolveAlertInput { alert_id: s("a7"), resolution: some("restarted") };
    assert_eq!(
        tools::resolve_alert(&r),
        ApiRequest {
            method: Method::Post,
            path: s("/alerts/a7/resolve"),
            body: Some(obj(vec![
                ("status", JsonValue::Str(s("resolved"))),
                ("resolution", JsonValue::Str(s("restarted"))),
            ])),
        }
    );
}

#[test]
fn monitor_create_defaults() {
    let m = MonitorCreateInput { name: s("home"), url: s("https://example.com"), monitor_type: None, interval_seconds: None };
    assert_eq!(
        tools::monitor_create(&m),
        ApiRequest {
            method: Method::Post,
            path: s("/monitors"),
            body: Some(obj(vec![
                ("name", JsonValue::Str(s("home"))),
                ("url", JsonValue::Str(s("https://example.com"))),
                ("type", JsonValue::Str(s("http"))),
                ("interval_seconds", JsonValue::Num(60)),
            ])),
        }
    );
    let t = MonitorCreateInput { name: s("db"), url: s("tcp://db:5432"), monitor_type: some("tcp"), interval_seconds: Some(15) };
    let body = tools::monitor_create(&t).body.unwrap();
    assert_eq!(body.fields[2].value, JsonValue::Str(s("tcp")));
    assert_eq!(body.fields[3].value, JsonValue::Num(15));
}

#[test]
fn incident_resolve_body() {
    let r = IncidentResolveInput {
        id: s("inc-2"),
        root_cause: s("bad deploy"),
        resolution: s("rolled back"),
        follow_up: Some(vec![s("add canary"), s("alert on 5xx")]),
    };
    assert_eq!(
        tools::incident_resolve(&r),
        ApiRequest {
            method: Method::Post,
            path: s("/incidents/inc-2/resolve"),
            body: Some(obj(vec![
                ("status", JsonValue::Str(s("resolved"))),
                ("root_cause", JsonValue::Str(s("bad deploy"))),
                ("resolution", JsonValue::Str(s("rolled back"))),
                ("follow_up_actions", JsonValue::StrList(vec![s("add canary"), s("alert on 5xx")])),
            ])),
        }
    );
    let no_follow = IncidentResolveInput { follow_up: None, ..r };
    assert_eq!(tools::incident_resolve(&no_follow).body.unwrap().fields[3].value, JsonValue::Null);
}

#[test]
fn create_alert_body() {
    let a = CreateAlertInput {
        name: s("High error rate"),
        metric: s("error_rate"),
        condition: s(">"),
        threshold: s("0.05"),
        severity: s("critical"),
        notify: Some(vec![s("oncall")]),
    };
    assert_eq!(
        tools::create_alert(&a),
        ApiRequest {
            method: Method::Post,
            path: s("/alerts"),
            body: Some(obj(vec![
                ("name", JsonValue::Str(s("High error rate"))),
                ("metric", JsonValue::Str(s("error_rate"))),
                ("condition", JsonValue::Str(s(">"))),
                ("threshold", JsonValue::Raw(s("0.05"))),
                ("severity", JsonValue::Str(s("critical"))),
                ("notify", JsonValue::StrList(vec![s("oncall")])),
            ])),
        }
    );
    let quiet = CreateAlertInput { notify: None, ..a };
    assert_eq!(tools::create_alert(&quiet).body.unwrap().fields[5].value, JsonValue::Null);
}
