//! The tools that reach past the backend: a live uptime check, a direct
//! Prometheus query and a Grafana dashboard sync. Each is split into what is
//! decided before the outside call and the report made of its outcome.

use vstd::prelude::*;
use vstd::string::*;
use crate::backend::text_or;
use crate::inputs::{GrafanaSyncInput, MonitorCheckInput, PromQueryInput};
use crate::request::{JsonObject, JsonVal, JsonValue, ObjectView};

verus! {

/// The timeout of a live check in seconds: the one given, else ten.
pub fn monitor_timeout_secs(input: &MonitorCheckInput) -> (res: u64)
    ensures
        res == match input.timeout_seconds {
            Some(t) => t,
            None => 10,
        },
{
    match input.timeout_seconds {
        Some(t) => t,
        None => 10,
    }
}

/// How a live check of a URL ended.
#[derive(Debug, Clone, PartialEq, Eq)]
pub enum ProbeOutcome {
    /// The URL answered with this status code after this many milliseconds.
    Responded { status_code: u16, latency_ms: u64 },
    /// The request failed with this message.
    Failed(String),
}

/// The state a URL is reported in when it answered with `code`: `up` below
/// 400, `degraded` from 400 on.
pub open spec fn answered_state(code: u16) -> Seq<char> {
    if code < 400 {
        "up"@
    } else {
        "degraded"@
    }
}

/// The report of a live check.
pub open spec fn monitor_report_of(url: Seq<char>, outcome: ProbeOutcome) -> ObjectView {
    match outcome {
        ProbeOutcome::Responded { status_code, latency_ms } => seq![
            ("url"@, JsonVal::Str(url)),
            ("status"@, JsonVal::Str(answered_state(status_code))),
            ("status_code"@, JsonVal::Num(status_code as nat)),
            ("latency_ms"@, JsonVal::Num(latency_ms as nat)),
        ],
        ProbeOutcome::Failed(e) => seq![
            ("url"@, JsonVal::Str(url)),
            ("status"@, JsonVal::Str("down"@)),
            ("error"@, JsonVal::Str(e@)),
        ],
    }
}

/// Reports how a live check of `input.url` ended.
pub fn monitor_status_report(input: &MonitorCheckInput, outcome: &ProbeOutcome) -> (res: JsonObject)
    ensures
        res@ == monitor_report_of(input.url@, *outcome),
{
    let mut obj = JsonObject::new();
    obj.insert("url", JsonValue::Str(input.url.clone()));
    match outcome {
        ProbeOutcome::Responded { status_code, latency_ms } => {
            let state = if *status_code < 400 {
                String::from_str("up")
            } else {
                String::from_str("degraded")
            };
            obj.insert("status", JsonValue::Str(state));
            obj.insert("status_code", JsonValue::Num(*status_code as u64));
            obj.insert("latency_ms", JsonValue::Num(*latency_ms));
        },
        ProbeOutcome::Failed(e) => {
            obj.insert("status", JsonValue::Str(String::from_str("down")));
            obj.insert("error", JsonValue::Str(e.clone()));
        },
    }
    assert(obj@ =~= monitor_report_of(input.url@, *outcome));
    obj
}

/// The URL of a PromQL query: a range query when a start is given (its end
/// defaulting to `now`, its step to `60s`), else an instant query.
pub open spec fn prometheus_url_of(base: Seq<char>, input: PromQueryInput) -> Seq<char> {
    match input.start {
        Some(start) => base + "/api/v1/query_range?query="@ + input.query@ + "&start="@ + start@
            + "&end="@ + text_or(input.end, "now"@) + "&step="@ + text_or(input.step, "60s"@),
        None => base + "/api/v1/query?query="@ + input.query@,
    }
}

/// Appends the text of `o`, or `default` when absent.
fn append_or(s: &mut String, o: &Option<String>, default: &str)
    ensures
        final(s)@ == old(s)@ + text_or(*o, default@),
{
    match o {
        Some(v) => s.append(v.as_str()),
        None => s.append(default),
    }
}

/// The URL that a PromQL query is sent to on the server at `base`.
pub fn prometheus_query_url(base: &String, input: &PromQueryInput) -> (res: String)
    ensures
        res@ == prometheus_url_of(base@, *input),
{
    let mut url = base.clone();
    match &input.start {
        Some(start) => {
            url.append("/api/v1/query_range?query=");
            url.append(input.query.as_str());
            url.append("&start=");
            url.append(start.as_str());
            url.append("&end=");
            append_or(&mut url, &input.end, "now");
            url.append("&step=");
            append_or(&mut url, &input.step, "60s");
        },
        None => {
            url.append("/api/v1/query?query=");
            url.append(input.query.as_str());
        },
    }
    url
}

/// The report of a tool whose server is not configured: error
/// `NOT_CONFIGURED` and a message naming what to set.
pub open spec fn not_configured_of(message: Seq<char>) -> ObjectView {
    seq![("error"@, JsonVal::Str("NOT_CONFIGURED"@)), ("message"@, JsonVal::Str(message))]
}

/// The not-configured report with the given message.
fn not_configured(message: &str) -> (res: JsonObject)
    ensures
        res@ == not_configured_of(message@),
{
    let mut obj = JsonObject::new();
    obj.insert("error", JsonValue::Str(String::from_str("NOT_CONFIGURED")));
    obj.insert("message", JsonValue::Str(String::from_str(message)));
    assert(obj@ =~= not_configured_of(message@));
    obj
}

/// What a PromQL query does next.
#[derive(Debug, Clone, PartialEq, Eq)]
pub enum PrometheusStep {
    /// Answer at once with this report.
    Reply(JsonObject),
    /// Send the query to `url` on the server at `base`.
    Query { base: String, url: String },
}

/// The content of a [`PrometheusStep`].
pub enum PrometheusStepView {
    Reply(ObjectView),
    Query { base: Seq<char>, url: Seq<char> },
}

impl View for PrometheusStep {
    type V = PrometheusStepView;

    open spec fn view(&self) -> PrometheusStepView {
        match self {
            PrometheusStep::Reply(o) => PrometheusStepView::Reply(o@),
            PrometheusStep::Query { base, url } => PrometheusStepView::Query {
                base: base@,
                url: url@,
            },
        }
    }
}

/// The next step of a PromQL query: the query is sent only to a configured
/// server (`PROMETHEUS_URL`); without one, a report that Prometheus is not
/// configured, and no request.
pub open spec fn prometheus_step_of(configured: Option<String>, input: PromQueryInput) -> PrometheusStepView {
    match configured {
        None => PrometheusStepView::Reply(not_configured_of("Set PROMETHEUS_URL"@)),
        Some(base) => PrometheusStepView::Query {
            base: base@,
            url: prometheus_url_of(base@, input),
        },
    }
}

/// Decides the next step of a PromQL query from the configured server URL.
pub fn prometheus_plan(configured: &Option<String>, input: &PromQueryInput) -> (res: PrometheusStep)
    ensures
        res@ == prometheus_step_of(*configured, *input),
{
    match configured {
        None => PrometheusStep::Reply(not_configured("Set PROMETHEUS_URL")),
        Some(base) => {
            let url = prometheus_query_url(base, input);
            PrometheusStep::Query { base: base.clone(), url }
        },
    }
}

/// The report of an answered PromQL query, from the answer's `status`,
/// `data.resultType` and `data.result`.
pub fn prometheus_report(status: JsonValue, result_type: JsonValue, results: JsonValue) -> (res: JsonObject)
    ensures
        res@ == seq![
            ("source"@, JsonVal::Str("prometheus"@)),
            ("status"@, status@),
            ("result_type"@, result_type@),
            ("results"@, results@),
        ],
{
    let mut obj = JsonObject::new();
    obj.insert("source", JsonValue::Str(String::from_str("prometheus")));
    obj.insert("status", status);
    obj.insert("result_type", result_type);
    obj.insert("results", results);
    assert(obj@ =~= seq![
        ("source"@, JsonVal::Str("prometheus"@)),
        ("status"@, status@),
        ("result_type"@, result_type@),
        ("results"@, results@),
    ]);
    obj
}

/// The report of a Prometheus server that could not be reached.
pub fn prometheus_unavailable_report(details: &String, base: &String) -> (res: JsonObject)
    ensures
        res@ == seq![
            ("error"@, JsonVal::Str("PROMETHEUS_UNAVAILABLE"@)),
            ("details"@, JsonVal::Str(details@)),
            ("url"@, JsonVal::Str(base@)),
        ],
{
    let mut obj = JsonObject::new();
    obj.insert("error", JsonValue::Str(String::from_str("PROMETHEUS_UNAVAILABLE")));
    obj.insert("details", JsonValue::Str(details.clone()));
    obj.insert("url", JsonValue::Str(base.clone()));
    assert(obj@ =~= seq![
        ("error"@, JsonVal::Str("PROMETHEUS_UNAVAILABLE"@)),
        ("details"@, JsonVal::Str(details@)),
        ("url"@, JsonVal::Str(base@)),
    ]);
    obj
}

/// The report of an answer that could not be read.
pub fn error_report(message: &String) -> (res: JsonObject)
    ensures
        res@ == seq![("error"@, JsonVal::Str(message@))],
{
    let mut obj = JsonObject::new();
    obj.insert("error", JsonValue::Str(message.clone()));
    obj
}

/// What a Grafana sync does next.
#[derive(Debug, Clone, PartialEq, Eq)]
pub enum GrafanaStep {
    /// Answer at once with this report.
    Reply(JsonObject),
    /// Fetch the dashboard list from `url` with this `Authorization` header.
    Pull { url: String, authorization: String },
}

/// The content of a [`GrafanaStep`].
pub enum GrafanaStepView {
    Reply(ObjectView),
    Pull { url: Seq<char>, authorization: Seq<char> },
}

impl View for GrafanaStep {
    type V = GrafanaStepView;

    open spec fn view(&self) -> GrafanaStepView {
        match self {
            GrafanaStep::Reply(o) => GrafanaStepView::Reply(o@),
            GrafanaStep::Pull { url, authorization } => GrafanaStepView::Pull {
                url: url@,
                authorization: authorization@,
            },
        }
    }
}

/// The next step of a Grafana sync: unless both the server URL
/// (`GRAFANA_URL`) and the token are configured, a report that Grafana is not
/// configured and no request; to pull, a fetch of the dashboard search on the
/// configured server with the token as bearer; otherwise a report that
/// pushing goes through the Grafana API.
pub open spec fn grafana_step_of(
    url: Option<String>,
    token: Option<String>,
    direction: Seq<char>,
) -> GrafanaStepView {
    if url is None || token is None {
        GrafanaStepView::Reply(not_configured_of("Set GRAFANA_URL and GRAFANA_TOKEN"@))
    } else if direction == "pull"@ {
        GrafanaStepView::Pull {
            url: url->0@ + "/api/search?type=dash-db"@,
            authorization: "Bearer "@ + token->0@,
        }
    } else {
        GrafanaStepView::Reply(
            seq![
                ("status"@, JsonVal::Str("push_supported"@)),
                ("message"@, JsonVal::Str("Use Grafana API POST /api/dashboards/db"@)),
            ],
        )
    }
}

/// Decides the next step of a Grafana sync from the configured server URL
/// and token.
pub fn grafana_plan(url: &Option<String>, token: &Option<String>, input: &GrafanaSyncInput) -> (res: GrafanaStep)
    ensures
        res@ == grafana_step_of(*url, *token, input.direction@),
{
    match (url, token) {
        (Some(u), Some(t)) => {
            let pull = String::from_str("pull");
            if input.direction == pull {
                let mut target = u.clone();
                target.append("/api/search?type=dash-db");
                let mut authorization = String::from_str("Bearer ");
                authorization.append(t.as_str());
                GrafanaStep::Pull { url: target, authorization }
            } else {
                let mut obj = JsonObject::new();
                obj.insert("status", JsonValue::Str(String::from_str("push_supported")));
                obj.insert(
                    "message",
                    JsonValue::Str(String::from_str("Use Grafana API POST /api/dashboards/db")),
                );
                assert(obj@ =~= seq![
                    ("status"@, JsonVal::Str("push_supported"@)),
                    ("message"@, JsonVal::Str("Use Grafana API POST /api/dashboards/db"@)),
                ]);
                GrafanaStep::Reply(obj)
            }
        },
        _ => GrafanaStep::Reply(not_configured("Set GRAFANA_URL and GRAFANA_TOKEN")),
    }
}

/// The report of a successful pull: the dashboard list as Grafana sent it.
pub fn grafana_pulled_report(dashboards: JsonValue) -> (res: JsonObject)
    ensures
        res@ == seq![
            ("source"@, JsonVal::Str("grafana"@)),
            ("status"@, JsonVal::Str("pulled"@)),
            ("dashboards"@, dashboards@),
        ],
{
    let mut obj = JsonObject::new();
    obj.insert("source", JsonValue::Str(String::from_str("grafana")));
    obj.insert("status", JsonValue::Str(String::from_str("pulled")));
    obj.insert("dashboards", dashboards);
    assert(obj@ =~= seq![
        ("source"@, JsonVal::Str("grafana"@)),
        ("status"@, JsonVal::Str("pulled"@)),
        ("dashboards"@, dashboards@),
    ]);
    obj
}

} // verus!
