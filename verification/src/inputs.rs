//! The arguments of the tools.

use vstd::prelude::*;

verus! {

/// No arguments.
#[derive(Debug, Clone, PartialEq, Eq)]
pub struct EmptyInput {}

/// The identifier of one record (a trace, alert, incident, SLO or dashboard).
#[derive(Debug, Clone, PartialEq, Eq)]
pub struct IdInput {
    pub id: String,
}

/// A log search.
#[derive(Debug, Clone, PartialEq, Eq)]
pub struct LogQueryInput {
    pub query: String,
    pub start: Option<String>,
    pub end: Option<String>,
    pub limit: Option<u32>,
    pub service: Option<String>,
    pub level: Option<String>,
}

/// A metric query. `tags` holds the caller's tag filter as the compact
/// JSON text of the value given.
#[derive(Debug, Clone, PartialEq, Eq)]
pub struct MetricQueryInput {
    pub metric: String,
    pub start: Option<String>,
    pub end: Option<String>,
    pub granularity: Option<String>,
    pub tags: Option<String>,
}

/// A trace search.
#[derive(Debug, Clone, PartialEq, Eq)]
pub struct TraceQueryInput {
    pub service: Option<String>,
    pub operation: Option<String>,
    pub min_duration_ms: Option<u64>,
    pub status: Option<String>,
    pub limit: Option<u32>,
}

/// A filter on alerts or incidents.
#[derive(Debug, Clone, PartialEq, Eq)]
pub struct AlertFilterInput {
    pub status: Option<String>,
    pub severity: Option<String>,
    pub service: Option<String>,
}

/// A new alert rule. `threshold` holds the JSON text of the threshold
/// number the caller gave.
#[derive(Debug, Clone, PartialEq, Eq)]
pub struct CreateAlertInput {
    pub name: String,
    pub metric: String,
    pub condition: String,
    pub threshold: String,
    pub severity: String,
    pub notify: Option<Vec<String>>,
}

/// The acknowledgement of a firing alert.
#[derive(Debug, Clone, PartialEq, Eq)]
pub struct AckAlertInput {
    pub alert_id: String,
    pub message: Option<String>,
}

/// A new incident.
#[derive(Debug, Clone, PartialEq, Eq)]
pub struct IncidentInput {
    pub title: String,
    pub severity: String,
    pub service: String,
    pub description: Option<String>,
}

/// Changes to an incident.
#[derive(Debug, Clone, PartialEq, Eq)]
pub struct UpdateIncidentInput {
    pub id: String,
    pub status: Option<String>,
    pub resolution: Option<String>,
}

/// An optional service to list SLOs of.
#[derive(Debug, Clone, PartialEq, Eq)]
pub struct SloInput {
    pub service: Option<String>,
}

/// One service.
#[derive(Debug, Clone, PartialEq, Eq)]
pub struct ServiceInput {
    pub service: String,
}

/// What to find a runbook for.
#[derive(Debug, Clone, PartialEq, Eq)]
pub struct RunbookInput {
    pub service: Option<String>,
    pub alert_type: Option<String>,
}

/// The resolution of a firing alert.
#[derive(Debug, Clone, PartialEq, Eq)]
pub struct ResolveAlertInput {
    pub alert_id: String,
    pub resolution: Option<String>,
}

/// A query on the firing history of alerts.
#[derive(Debug, Clone, PartialEq, Eq)]
pub struct AlertHistoryInput {
    pub alert_id: Option<String>,
    pub service: Option<String>,
    pub limit: Option<u32>,
}

/// A new uptime monitor.
#[derive(Debug, Clone, PartialEq, Eq)]
pub struct MonitorCreateInput {
    pub name: String,
    pub url: String,
    pub monitor_type: Option<String>,
    pub interval_seconds: Option<u32>,
}

/// A live check of one URL.
#[derive(Debug, Clone, PartialEq, Eq)]
pub struct MonitorCheckInput {
    pub url: String,
    pub timeout_seconds: Option<u64>,
}

/// A PromQL query, instant or over a range.
#[derive(Debug, Clone, PartialEq, Eq)]
pub struct PromQueryInput {
    pub query: String,
    pub start: Option<String>,
    pub end: Option<String>,
    pub step: Option<String>,
}

/// A dashboard synchronisation with Grafana.
#[derive(Debug, Clone, PartialEq, Eq)]
pub struct GrafanaSyncInput {
    pub direction: String,
    pub dashboard_id: Option<String>,
}

/// The resolution of an incident with its root cause.
#[derive(Debug, Clone, PartialEq, Eq)]
pub struct IncidentResolveInput {
    pub id: String,
    pub root_cause: String,
    pub resolution: String,
    pub follow_up: Option<Vec<String>>,
}

} // verus!
