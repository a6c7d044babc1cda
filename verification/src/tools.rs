//! The backend request that each tool sends, stated exactly.

use vstd::prelude::*;
use vstd::string::*;
use crate::encoding::{url_encode, url_encoded};
use crate::inputs::{
    AckAlertInput, AlertFilterInput, CreateAlertInput, AlertHistoryInput, EmptyInput, IdInput, IncidentInput,
    IncidentResolveInput, LogQueryInput, MetricQueryInput, MonitorCreateInput, RunbookInput,
    ServiceInput, SloInput, TraceQueryInput, UpdateIncidentInput, ResolveAlertInput,
};
use crate::request::{
    get_of, opt_text, param, param_amp, push_num_param, push_num_param_amp, push_param,
    push_param_amp, shown_u32, shown_u64, widen, write_of, ApiRequest, JsonObject, JsonValue,
    Method, opt_json, opt_list_json, JsonVal, ObjectView,
};
use crate::text::{decimal, decimal_string};

verus! {

/// A read of `path`.
fn read_of(path: String) -> (req: ApiRequest)
    ensures
        req@ == get_of(path@),
{
    ApiRequest { method: Method::Get, path, body: None }
}

/// The parameters of a log search that follow its query.
pub open spec fn log_search_filters(input: LogQueryInput) -> Seq<char> {
    param("&start="@, opt_text(input.start))
        + param("&end="@, opt_text(input.end))
        + param("&limit="@, shown_u32(input.limit))
        + param("&service="@, opt_text(input.service))
        + param("&level="@, opt_text(input.level))
}

/// The path of a log search: the percent-encoded query, then the filters
/// that are given.
pub open spec fn log_search_path(input: LogQueryInput) -> Seq<char> {
    "/logs/search?query="@ + url_encoded(input.query@) + log_search_filters(input)
}

/// Searches logs by query, time range, service and level.
pub fn query_logs(input: &LogQueryInput) -> (req: ApiRequest)
    ensures
        req@ == get_of(log_search_path(*input)),
{
    let mut path = String::from_str("/logs/search?query=");
    let q = url_encode(input.query.as_str());
    path.append(q.as_str());
    push_param(&mut path, "&start=", &input.start);
    push_param(&mut path, "&end=", &input.end);
    push_num_param(&mut path, "&limit=", widen(input.limit));
    push_param(&mut path, "&service=", &input.service);
    push_param(&mut path, "&level=", &input.level);
    assert(path@ =~= log_search_path(*input));
    read_of(path)
}

/// Log volume and error rate of a service.
pub fn get_log_stats(input: &ServiceInput) -> (req: ApiRequest)
    ensures
        req@ == get_of("/logs/stats?service="@ + input.service@),
{
    let mut path = String::from_str("/logs/stats?service=");
    path.append(input.service.as_str());
    read_of(path)
}

/// The twenty most recent error logs of a service.
pub fn get_errors(input: &ServiceInput) -> (req: ApiRequest)
    ensures
        req@ == get_of("/logs/search?level=error&service="@ + input.service@ + "&limit=20"@),
{
    let mut path = String::from_str("/logs/search?level=error&service=");
    path.append(input.service.as_str());
    path.append("&limit=20");
    read_of(path)
}

/// The last fifty log entries of a service.
pub fn tail_logs(input: &ServiceInput) -> (req: ApiRequest)
    ensures
        req@ == get_of("/logs/tail?service="@ + input.service@ + "&limit=50"@),
{
    let mut path = String::from_str("/logs/tail?service=");
    path.append(input.service.as_str());
    path.append("&limit=50");
    read_of(path)
}

/// The path that `query_metric` reads.
pub open spec fn query_metric_path(input: MetricQueryInput) -> Seq<char> {
    "/metrics/query?metric="@ + url_encoded(input.metric@)
        + param("&start="@, opt_text(input.start))
        + param("&end="@, opt_text(input.end))
        + param("&granularity="@, opt_text(input.granularity))
}

/// A metric over time.
pub fn query_metric(input: &MetricQueryInput) -> (req: ApiRequest)
    ensures
        req@ == get_of(query_metric_path(*input)),
{
    let mut path = String::from_str("/metrics/query?metric=");
    let m = url_encode(input.metric.as_str());
    path.append(m.as_str());
    push_param(&mut path, "&start=", &input.start);
    push_param(&mut path, "&end=", &input.end);
    push_param(&mut path, "&granularity=", &input.granularity);
    read_of(path)
}

/// The metrics available for a service.
pub fn list_metrics(input: &ServiceInput) -> (req: ApiRequest)
    ensures
        req@ == get_of("/metrics/list?service="@ + input.service@),
{
    let mut path = String::from_str("/metrics/list?service=");
    path.append(input.service.as_str());
    read_of(path)
}

/// Current health of the whole system.
pub fn get_system_health(input: &EmptyInput) -> (req: ApiRequest)
    ensures
        req@ == get_of("/metrics/health"@),
{
    read_of(String::from_str("/metrics/health"))
}

/// The percent-encoding of an optional text.
pub open spec fn encoded_opt(o: Option<String>) -> Option<Seq<char>> {
    match o {
        Some(t) => Some(url_encoded(t@)),
        None => None,
    }
}

/// The path that `compare_metrics` reads.
pub open spec fn compare_metrics_path(input: MetricQueryInput) -> Seq<char> {
    "/metrics/compare?metric="@ + url_encoded(input.metric@)
        + param("&tags="@, encoded_opt(input.tags))
}

/// A metric compared across services or periods, optionally filtered by tags.
pub fn compare_metrics(input: &MetricQueryInput) -> (req: ApiRequest)
    ensures
        req@ == get_of(compare_metrics_path(*input)),
{
    let mut path = String::from_str("/metrics/compare?metric=");
    let m = url_encode(input.metric.as_str());
    path.append(m.as_str());
    match &input.tags {
        Some(t) => {
            let e = url_encode(t.as_str());
            path.append("&tags=");
            path.append(e.as_str());
        },
        None => {},
    }
    assert(path@ =~= "/metrics/compare?metric="@ + url_encoded(input.metric@)
        + param("&tags="@, encoded_opt(input.tags)));
    read_of(path)
}

/// The path that `search_traces` reads.
pub open spec fn search_traces_path(input: TraceQueryInput) -> Seq<char> {
    "/traces/search?"@
        + param_amp("service="@, opt_text(input.service))
        + param_amp("operation="@, opt_text(input.operation))
        + param_amp("min_duration_ms="@, shown_u64(input.min_duration_ms))
        + param_amp("status="@, opt_text(input.status))
        + param_amp("limit="@, shown_u32(input.limit))
}

/// Distributed traces by service, operation, duration or status.
pub fn search_traces(input: &TraceQueryInput) -> (req: ApiRequest)
    ensures
        req@ == get_of(search_traces_path(*input)),
{
    let mut path = String::from_str("/traces/search?");
    push_param_amp(&mut path, "service=", &input.service);
    push_param_amp(&mut path, "operation=", &input.operation);
    push_num_param_amp(&mut path, "min_duration_ms=", input.min_duration_ms);
    push_param_amp(&mut path, "status=", &input.status);
    push_num_param_amp(&mut path, "limit=", widen(input.limit));
    read_of(path)
}

/// `prefix`, the identifier and `suffix`, as a new string.
fn record_path(prefix: &str, id: &String, suffix: &str) -> (path: String)
    ensures
        path@ == prefix@ + id@ + suffix@,
{
    let mut path = String::from_str(prefix);
    path.append(id.as_str());
    path.append(suffix);
    path
}

/// `prefix` and the identifier, as a new string.
fn record_path_end(prefix: &str, id: &String) -> (path: String)
    ensures
        path@ == prefix@ + id@,
{
    let mut path = String::from_str(prefix);
    path.append(id.as_str());
    path
}

/// One trace with all its spans.
pub fn get_trace(input: &IdInput) -> (req: ApiRequest)
    ensures
        req@ == get_of("/traces/"@ + input.id@),
{
    read_of(record_path_end("/traces/", &input.id))
}

/// The service dependency map.
pub fn get_service_map(input: &EmptyInput) -> (req: ApiRequest)
    ensures
        req@ == get_of("/traces/service-map"@),
{
    read_of(String::from_str("/traces/service-map"))
}

/// Latency percentiles by operation of a service.
pub fn get_latency_breakdown(input: &ServiceInput) -> (req: ApiRequest)
    ensures
        req@ == get_of("/traces/latency?service="@ + input.service@),
{
    read_of(record_path_end("/traces/latency?service=", &input.service))
}

/// The path that `list_alerts` reads.
pub open spec fn list_alerts_path(input: AlertFilterInput) -> Seq<char> {
    "/alerts?"@
        + param_amp("status="@, opt_text(input.status))
        + param_amp("severity="@, opt_text(input.severity))
        + param_amp("service="@, opt_text(input.service))
}

/// Active alerts filtered by status, severity and service.
pub fn list_alerts(input: &AlertFilterInput) -> (req: ApiRequest)
    ensures
        req@ == get_of(list_alerts_path(*input)),
{
    let mut path = String::from_str("/alerts?");
    push_param_amp(&mut path, "status=", &input.status);
    push_param_amp(&mut path, "severity=", &input.severity);
    push_param_amp(&mut path, "service=", &input.service);
    read_of(path)
}

/// One alert with its history.
pub fn get_alert(input: &IdInput) -> (req: ApiRequest)
    ensures
        req@ == get_of("/alerts/"@ + input.id@),
{
    read_of(record_path_end("/alerts/", &input.id))
}

/// A string JSON value holding a copy of `s`.
fn text_value(s: &String) -> (v: JsonValue)
    ensures
        v@ == JsonVal::Str(s@),
{
    JsonValue::Str(s.clone())
}

/// The body that `create_alert` sends.
pub open spec fn create_alert_body(input: CreateAlertInput) -> ObjectView {
    seq![
        ("name"@, JsonVal::Str(input.name@)),
        ("metric"@, JsonVal::Str(input.metric@)),
        ("condition"@, JsonVal::Str(input.condition@)),
        ("threshold"@, JsonVal::Raw(input.threshold@)),
        ("severity"@, JsonVal::Str(input.severity@)),
        ("notify"@, opt_list_json(input.notify)),
    ]
}

/// Creates an alert rule; the threshold is sent as the number it spells.
pub fn create_alert(input: &CreateAlertInput) -> (req: ApiRequest)
    ensures
        req@ == write_of(
            Method::Post,
            "/alerts"@,
            create_alert_body(*input),
        ),
{
    let mut body = JsonObject::new();
    body.insert("name", text_value(&input.name));
    body.insert("metric", text_value(&input.metric));
    body.insert("condition", text_value(&input.condition));
    body.insert("threshold", JsonValue::Raw(input.threshold.clone()));
    body.insert("severity", text_value(&input.severity));
    body.insert_opt_list("notify", &input.notify);
    assert(body@ =~= seq![
        ("name"@, JsonVal::Str(input.name@)),
        ("metric"@, JsonVal::Str(input.metric@)),
        ("condition"@, JsonVal::Str(input.condition@)),
        ("threshold"@, JsonVal::Raw(input.threshold@)),
        ("severity"@, JsonVal::Str(input.severity@)),
        ("notify"@, opt_list_json(input.notify)),
    ]);
    ApiRequest { method: Method::Post, path: String::from_str("/alerts"), body: Some(body) }
}

/// The body that `acknowledge_alert` sends.
pub open spec fn acknowledge_alert_body(input: AckAlertInput) -> ObjectView {
    seq![("message"@, opt_json(opt_text(input.message)))]
}

/// Acknowledges a firing alert with an optional message.
pub fn acknowledge_alert(input: &AckAlertInput) -> (req: ApiRequest)
    ensures
        req@ == write_of(
            Method::Post,
            "/alerts/"@ + input.alert_id@ + "/acknowledge"@,
            acknowledge_alert_body(*input),
        ),
{
    let path = record_path("/alerts/", &input.alert_id, "/acknowledge");
    let mut body = JsonObject::new();
    body.insert_opt("message", &input.message);
    ApiRequest { method: Method::Post, path, body: Some(body) }
}

/// The path that `list_incidents` reads.
pub open spec fn list_incidents_path(input: AlertFilterInput) -> Seq<char> {
    "/incidents?"@
        + param_amp("status="@, opt_text(input.status))
        + param_amp("severity="@, opt_text(input.severity))
}

/// Incidents filtered by status and severity.
pub fn list_incidents(input: &AlertFilterInput) -> (req: ApiRequest)
    ensures
        req@ == get_of(list_incidents_path(*input)),
{
    let mut path = String::from_str("/incidents?");
    push_param_amp(&mut path, "status=", &input.status);
    push_param_amp(&mut path, "severity=", &input.severity);
    read_of(path)
}

/// One incident with its timeline.
pub fn get_incident(input: &IdInput) -> (req: ApiRequest)
    ensures
        req@ == get_of("/incidents/"@ + input.id@),
{
    read_of(record_path_end("/incidents/", &input.id))
}

/// The body that `create_incident` sends.
pub open spec fn create_incident_body(input: IncidentInput) -> ObjectView {
    seq![
        ("title"@, JsonVal::Str(input.title@)),
        ("severity"@, JsonVal::Str(input.severity@)),
        ("service"@, JsonVal::Str(input.service@)),
        ("description"@, opt_json(opt_text(input.description))),
    ]
}

/// Declares a new incident.
pub fn create_incident(input: &IncidentInput) -> (req: ApiRequest)
    ensures
        req@ == write_of(
            Method::Post,
            "/incidents"@,
            create_incident_body(*input),
        ),
{
    let mut body = JsonObject::new();
    body.insert("title", text_value(&input.title));
    body.insert("severity", text_value(&input.severity));
    body.insert("service", text_value(&input.service));
    body.insert_opt("description", &input.description);
    assert(body@ =~= seq![
                    ("title"@, JsonVal::Str(input.title@)),
                    ("severity"@, JsonVal::Str(input.severity@)),
                    ("service"@, JsonVal::Str(input.service@)),
                    ("description"@, opt_json(opt_text(input.description))),
                ]);
    ApiRequest { method: Method::Post, path: String::from_str("/incidents"), body: Some(body) }
}

/// A one-member object holding the text under `key` when it is present;
/// no member otherwise.
pub open spec fn opt_member(key: Seq<char>, v: Option<Seq<char>>) -> Seq<(Seq<char>, JsonVal)> {
    match v {
        Some(x) => seq![(key, JsonVal::Str(x))],
        None => seq![],
    }
}

/// The body that `update_incident` sends: the changes that are given.
pub open spec fn update_incident_body(input: UpdateIncidentInput) -> ObjectView {
    opt_member("status"@, opt_text(input.status)) + opt_member("resolution"@, opt_text(input.resolution))
}

/// Changes the status or records the resolution of an incident; only the
/// given changes are sent.
pub fn update_incident(input: &UpdateIncidentInput) -> (req: ApiRequest)
    ensures
        req@ == write_of(
            Method::Patch,
            "/incidents/"@ + input.id@,
            update_incident_body(*input),
        ),
{
    let mut body = JsonObject::new();
    if let Some(s) = &input.status {
        body.insert("status", text_value(s));
    }
    if let Some(r) = &input.resolution {
        body.insert("resolution", text_value(r));
    }
    assert(body@ =~= opt_member("status"@, opt_text(input.status))
        + opt_member("resolution"@, opt_text(input.resolution)));
    ApiRequest {
        method: Method::Patch,
        path: record_path_end("/incidents/", &input.id),
        body: Some(body),
    }
}

/// The path that `list_slos` reads.
pub open spec fn list_slos_path(input: SloInput) -> Seq<char> {
    "/slos?"@ + param_amp("service="@, opt_text(input.service))
}

/// SLOs, optionally of one service.
pub fn list_slos(input: &SloInput) -> (req: ApiRequest)
    ensures
        req@ == get_of(list_slos_path(*input)),
{
    let mut path = String::from_str("/slos?");
    push_param_amp(&mut path, "service=", &input.service);
    read_of(path)
}

/// One SLO with its target and budget.
pub fn get_slo(input: &IdInput) -> (req: ApiRequest)
    ensures
        req@ == get_of("/slos/"@ + input.id@),
{
    read_of(record_path_end("/slos/", &input.id))
}

/// When the error budget of an SLO runs out.
pub fn forecast_slo(input: &IdInput) -> (req: ApiRequest)
    ensures
        req@ == get_of("/slos/"@ + input.id@ + "/forecast"@),
{
    read_of(record_path("/slos/", &input.id, "/forecast"))
}

/// All dashboards.
pub fn list_dashboards(input: &EmptyInput) -> (req: ApiRequest)
    ensures
        req@ == get_of("/dashboards"@),
{
    read_of(String::from_str("/dashboards"))
}

/// One dashboard with its panels.
pub fn get_dashboard(input: &IdInput) -> (req: ApiRequest)
    ensures
        req@ == get_of("/dashboards/"@ + input.id@),
{
    read_of(record_path_end("/dashboards/", &input.id))
}

/// The path that `get_runbook` reads.
pub open spec fn get_runbook_path(input: RunbookInput) -> Seq<char> {
    "/runbooks?"@
        + param_amp("service="@, opt_text(input.service))
        + param_amp("alert_type="@, opt_text(input.alert_type))
}

/// Runbooks for a service or an alert type.
pub fn get_runbook(input: &RunbookInput) -> (req: ApiRequest)
    ensures
        req@ == get_of(get_runbook_path(*input)),
{
    let mut path = String::from_str("/runbooks?");
    push_param_amp(&mut path, "service=", &input.service);
    push_param_amp(&mut path, "alert_type=", &input.alert_type);
    read_of(path)
}

/// All monitored services.
pub fn list_services(input: &EmptyInput) -> (req: ApiRequest)
    ensures
        req@ == get_of("/services"@),
{
    read_of(String::from_str("/services"))
}

/// One service with its health, dependencies, alerts and SLOs.
pub fn get_service(input: &ServiceInput) -> (req: ApiRequest)
    ensures
        req@ == get_of("/services/"@ + input.service@),
{
    read_of(record_path_end("/services/", &input.service))
}

/// The body that `resolve_alert` sends.
pub open spec fn resolve_alert_body(input: ResolveAlertInput) -> ObjectView {
    seq![
        ("status"@, JsonVal::Str("resolved"@)),
        ("resolution"@, opt_json(opt_text(input.resolution))),
    ]
}

/// Resolves a firing alert.
pub fn resolve_alert(input: &ResolveAlertInput) -> (req: ApiRequest)
    ensures
        req@ == write_of(
            Method::Post,
            "/alerts/"@ + input.alert_id@ + "/resolve"@,
            resolve_alert_body(*input),
        ),
{
    let mut body = JsonObject::new();
    body.insert("status", JsonValue::Str(String::from_str("resolved")));
    body.insert_opt("resolution", &input.resolution);
    assert(body@ =~= seq![
                    ("status"@, JsonVal::Str("resolved"@)),
                    ("resolution"@, opt_json(opt_text(input.resolution))),
                ]);
    ApiRequest {
        method: Method::Post,
        path: record_path("/alerts/", &input.alert_id, "/resolve"),
        body: Some(body),
    }
}

/// The limit of a history query: the one given, else twenty.
pub open spec fn history_limit(limit: Option<u32>) -> nat {
    match limit {
        Some(n) => n as nat,
        None => 20,
    }
}

/// The path of a history query: the alert and service filters that are
/// given, then the limit.
pub open spec fn alert_history_path(input: AlertHistoryInput) -> Seq<char> {
    "/alerts/history?"@
        + param_amp("alert_id="@, opt_text(input.alert_id))
        + param_amp("service="@, opt_text(input.service))
        + "limit="@ + decimal(history_limit(input.limit))
}

/// The firing history of an alert rule or of a service; the limit is
/// always the last parameter.
pub fn alert_history(input: &AlertHistoryInput) -> (req: ApiRequest)
    ensures
        req@ == get_of(alert_history_path(*input)),
{
    let mut path = String::from_str("/alerts/history?");
    push_param_amp(&mut path, "alert_id=", &input.alert_id);
    push_param_amp(&mut path, "service=", &input.service);
    path.append("limit=");
    let limit: u64 = match input.limit {
        Some(n) => n as u64,
        None => 20,
    };
    let shown = decimal_string(limit);
    path.append(shown.as_str());
    read_of(path)
}

/// The monitor type: the one given, else `http`.
pub open spec fn monitor_type_of(t: Option<String>) -> Seq<char> {
    match t {
        Some(s) => s@,
        None => "http"@,
    }
}

/// The check interval in seconds: the one given, else sixty.
pub open spec fn monitor_interval_of(i: Option<u32>) -> nat {
    match i {
        Some(n) => n as nat,
        None => 60,
    }
}

/// The body of a new monitor: name, URL, type and interval.
pub open spec fn monitor_create_body(input: MonitorCreateInput) -> ObjectView {
    seq![
        ("name"@, JsonVal::Str(input.name@)),
        ("url"@, JsonVal::Str(input.url@)),
        ("type"@, JsonVal::Str(monitor_type_of(input.monitor_type))),
        ("interval_seconds"@, JsonVal::Num(monitor_interval_of(input.interval_seconds))),
    ]
}

/// Creates an uptime monitor.
pub fn monitor_create(input: &MonitorCreateInput) -> (req: ApiRequest)
    ensures
        req@ == write_of(Method::Post, "/monitors"@, monitor_create_body(*input)),
{
    let mut body = JsonObject::new();
    body.insert("name", text_value(&input.name));
    body.insert("url", text_value(&input.url));
    let kind = match &input.monitor_type {
        Some(t) => t.clone(),
        None => String::from_str("http"),
    };
    body.insert("type", JsonValue::Str(kind));
    let interval: u64 = match input.interval_seconds {
        Some(n) => n as u64,
        None => 60,
    };
    body.insert("interval_seconds", JsonValue::Num(interval));
    assert(body@ =~= seq![
                    ("name"@, JsonVal::Str(input.name@)),
                    ("url"@, JsonVal::Str(input.url@)),
                    ("type"@, JsonVal::Str(monitor_type_of(input.monitor_type))),
                    ("interval_seconds"@, JsonVal::Num(monitor_interval_of(input.interval_seconds))),
                ]);
    ApiRequest { method: Method::Post, path: String::from_str("/monitors"), body: Some(body) }
}

/// The body that `incident_resolve` sends.
pub open spec fn incident_resolve_body(input: IncidentResolveInput) -> ObjectView {
    seq![
        ("status"@, JsonVal::Str("resolved"@)),
        ("root_cause"@, JsonVal::Str(input.root_cause@)),
        ("resolution"@, JsonVal::Str(input.resolution@)),
        ("follow_up_actions"@, opt_list_json(input.follow_up)),
    ]
}

/// Resolves an incident with its root cause, resolution and follow-up actions.
pub fn incident_resolve(input: &IncidentResolveInput) -> (req: ApiRequest)
    ensures
        req@ == write_of(
            Method::Post,
            "/incidents/"@ + input.id@ + "/resolve"@,
            incident_resolve_body(*input),
        ),
{
    let mut body = JsonObject::new();
    body.insert("status", JsonValue::Str(String::from_str("resolved")));
    body.insert("root_cause", text_value(&input.root_cause));
    body.insert("resolution", text_value(&input.resolution));
    body.insert_opt_list("follow_up_actions", &input.follow_up);
    assert(body@ =~= seq![
                    ("status"@, JsonVal::Str("resolved"@)),
                    ("root_cause"@, JsonVal::Str(input.root_cause@)),
                    ("resolution"@, JsonVal::Str(input.resolution@)),
                    ("follow_up_actions"@, opt_list_json(input.follow_up)),
                ]);
    ApiRequest {
        method: Method::Post,
        path: record_path("/incidents/", &input.id, "/resolve"),
        body: Some(body),
    }
}

} // verus!
