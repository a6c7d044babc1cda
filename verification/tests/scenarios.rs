use mcp_observability::inputs::{
    AckAlertInput, AlertFilterInput, IdInput, IncidentInput, LogQueryInput, RunbookInput,
    ServiceInput, TraceQueryInput,
};
use mcp_observability::request::Method;
use mcp_observability::tools;

#[test]
fn debugging_a_slow_api() {
    let svc = ServiceInput { service: "api-gateway".to_string() };
    assert_eq!(tools::get_latency_breakdown(&svc).path, "/traces/latency?service=api-gateway");
    let traces = TraceQueryInput {
        service: Some("api-gateway".to_string()),
        operation: None,
        min_duration_ms: Some(1000),
        status: None,
        limit: None,
    };
    assert_eq!(tools::search_traces(&traces).path, "/traces/search?service=api-gateway&min_duration_ms=1000&");
    assert_eq!(tools::get_trace(&IdInput { id: "trace-abc".to_string() }).path, "/traces/trace-abc");
    let logs = LogQueryInput {
        query: "slow query".to_string(),
        start: None,
        end: None,
        limit: None,
        service: Some("postgres".to_string()),
        level: None,
    };
    assert_eq!(tools::query_logs(&logs).path, "/logs/search?query=slow%20query&service=postgres");
}

#[test]
fn responding_to_an_error_spike() {
    let firing = AlertFilterInput { status: Some("firing".to_string()), severity: None, service: None };
    assert_eq!(tools::list_alerts(&firing).path, "/alerts?status=firing&");
    let svc = ServiceInput { service: "payment-service".to_string() };
    assert_eq!(tools::get_errors(&svc).path, "/logs/search?level=error&service=payment-service&limit=20");
    let incident = IncidentInput {
        title: "Payment failures".to_string(),
        severity: "high".to_string(),
        service: "payment-service".to_string(),
        description: None,
    };
    let req = tools::create_incident(&incident);
    assert_eq!(req.method, Method::Post);
    assert_eq!(req.path, "/incidents");
    let rb = RunbookInput { service: Some("payment-service".to_string()), alert_type: Some("error_rate".to_string()) };
    assert_eq!(tools::get_runbook(&rb).path, "/runbooks?service=payment-service&alert_type=error_rate&");
    let ack = AckAlertInput { alert_id: "alert-123".to_string(), message: Some("Investigating".to_string()) };
    let req = tools::acknowledge_alert(&ack);
    assert_eq!(req.method, Method::Post);
    assert_eq!(req.path, "/alerts/alert-123/acknowledge");
}

#[test]
fn watching_slos() {
    assert_eq!(tools::forecast_slo(&IdInput { id: "slo-latency".to_string() }).path, "/slos/slo-latency/forecast");
}
