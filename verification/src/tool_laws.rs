//! What each tool's request carries, stated over all inputs: every filter
//! that is given appears in the path as its own parameter, every body member
//! holds what the caller gave, and what the backend selection and the probes
//! decide.

use vstd::prelude::*;
use crate::backend::{selected, EnvSettings, Provider};
use crate::encoding::url_encoded;
use crate::inputs::{
    AckAlertInput, AlertFilterInput, CreateAlertInput, GrafanaSyncInput, IncidentInput,
    IncidentResolveInput, MetricQueryInput, PromQueryInput, ResolveAlertInput, RunbookInput,
    SloInput, TraceQueryInput, UpdateIncidentInput,
};
use crate::laws::{lemma_member_value_push, lemma_parts_occur, member_value, occurs};
use crate::request::ObjectView;
use crate::probes::{grafana_step_of, prometheus_step_of, GrafanaStepView, PrometheusStepView};
use crate::request::{opt_list_json, opt_text, param, param_amp, shown_u32, shown_u64, JsonVal};
use crate::text::decimal;
use crate::tools::{
    acknowledge_alert_body, compare_metrics_path, create_alert_body, create_incident_body,
    get_runbook_path, incident_resolve_body, list_alerts_path, list_incidents_path, list_slos_path,
    query_metric_path, resolve_alert_body, search_traces_path, update_incident_body,
};

verus! {

/// Every filter given to a metric query appears in its path as its own
/// parameter.
pub proof fn lemma_metric_query_keeps_every_filter(input: MetricQueryInput)
    ensures
        input.start matches Some(v) ==> occurs(query_metric_path(input), "&start="@ + v@),
        input.end matches Some(v) ==> occurs(query_metric_path(input), "&end="@ + v@),
        input.granularity matches Some(v) ==> occurs(query_metric_path(input), "&granularity="@ + v@),
{
    let a0 = "/metrics/query?metric="@ + url_encoded(input.metric@);
    let a1 = param("&start="@, opt_text(input.start));
    let a2 = param("&end="@, opt_text(input.end));
    let a3 = param("&granularity="@, opt_text(input.granularity));
    let e = Seq::<char>::empty();
    assert(query_metric_path(input) =~= a0 + a1 + a2 + a3 + e + e);
    lemma_parts_occur(a0, a1, a2, a3, e, e);
}

/// A metric comparison filters by the percent-encoded tags exactly when tags
/// are given; without tags the path is the metric alone.
pub proof fn lemma_compare_keeps_tags(input: MetricQueryInput)
    ensures
        input.tags matches Some(t) ==> occurs(compare_metrics_path(input), "&tags="@ + url_encoded(t@)),
        input.tags is None ==> compare_metrics_path(input) == "/metrics/compare?metric="@ + url_encoded(
            input.metric@,
        ),
{
    let a0 = "/metrics/compare?metric="@ + url_encoded(input.metric@);
    let a1 = param("&tags="@, crate::tools::encoded_opt(input.tags));
    let e = Seq::<char>::empty();
    assert(compare_metrics_path(input) =~= a0 + a1 + e + e + e + e);
    lemma_parts_occur(a0, a1, e, e, e, e);
    if input.tags is None {
        assert(compare_metrics_path(input) =~= a0);
    }
}

/// Every filter given to a trace search appears in its path as `key=value&`.
pub proof fn lemma_trace_search_keeps_every_filter(input: TraceQueryInput)
    ensures
        input.service matches Some(v) ==> occurs(search_traces_path(input), "service="@ + v@ + seq!['&']),
        input.operation matches Some(v) ==> occurs(search_traces_path(input), "operation="@ + v@ + seq!['&']),
        input.min_duration_ms matches Some(n) ==> occurs(
            search_traces_path(input),
            "min_duration_ms="@ + decimal(n as nat) + seq!['&'],
        ),
        input.status matches Some(v) ==> occurs(search_traces_path(input), "status="@ + v@ + seq!['&']),
        input.limit matches Some(n) ==> occurs(
            search_traces_path(input),
            "limit="@ + decimal(n as nat) + seq!['&'],
        ),
{
    let a0 = "/traces/search?"@;
    let a1 = param_amp("service="@, opt_text(input.service));
    let a2 = param_amp("operation="@, opt_text(input.operation));
    let a3 = param_amp("min_duration_ms="@, shown_u64(input.min_duration_ms));
    let a4 = param_amp("status="@, opt_text(input.status));
    let a5 = param_amp("limit="@, shown_u32(input.limit));
    assert(search_traces_path(input) =~= a0 + a1 + a2 + a3 + a4 + a5);
    lemma_parts_occur(a0, a1, a2, a3, a4, a5);
}

/// Every filter given to an alert listing appears in its path as `key=value&`.
pub proof fn lemma_alert_listing_keeps_every_filter(input: AlertFilterInput)
    ensures
        input.status matches Some(v) ==> occurs(list_alerts_path(input), "status="@ + v@ + seq!['&']),
        input.severity matches Some(v) ==> occurs(list_alerts_path(input), "severity="@ + v@ + seq!['&']),
        input.service matches Some(v) ==> occurs(list_alerts_path(input), "service="@ + v@ + seq!['&']),
{
    let a0 = "/alerts?"@;
    let a1 = param_amp("status="@, opt_text(input.status));
    let a2 = param_amp("severity="@, opt_text(input.severity));
    let a3 = param_amp("service="@, opt_text(input.service));
    let e = Seq::<char>::empty();
    assert(list_alerts_path(input) =~= a0 + a1 + a2 + a3 + e + e);
    lemma_parts_occur(a0, a1, a2, a3, e, e);
}

/// The status and severity given to an incident listing appear in its path
/// as `key=value&`; the service filter is not sent.
pub proof fn lemma_incident_listing_keeps_filters(input: AlertFilterInput)
    ensures
        input.status matches Some(v) ==> occurs(list_incidents_path(input), "status="@ + v@ + seq!['&']),
        input.severity matches Some(v) ==> occurs(list_incidents_path(input), "severity="@ + v@ + seq!['&']),
        list_incidents_path(input) == list_incidents_path(AlertFilterInput { service: None, ..input }),
{
    let a0 = "/incidents?"@;
    let a1 = param_amp("status="@, opt_text(input.status));
    let a2 = param_amp("severity="@, opt_text(input.severity));
    let e = Seq::<char>::empty();
    assert(list_incidents_path(input) =~= a0 + a1 + a2 + e + e + e);
    lemma_parts_occur(a0, a1, a2, e, e, e);
}

/// The service given to an SLO listing, and the service and alert type given
/// to a runbook search, appear in their paths as `key=value&`.
pub proof fn lemma_slo_and_runbook_keep_filters(slos: SloInput, runbook: RunbookInput)
    ensures
        slos.service matches Some(v) ==> occurs(list_slos_path(slos), "service="@ + v@ + seq!['&']),
        runbook.service matches Some(v) ==> occurs(get_runbook_path(runbook), "service="@ + v@ + seq!['&']),
        runbook.alert_type matches Some(v) ==> occurs(
            get_runbook_path(runbook),
            "alert_type="@ + v@ + seq!['&'],
        ),
{
    let e = Seq::<char>::empty();
    let s0 = "/slos?"@;
    let s1 = param_amp("service="@, opt_text(slos.service));
    assert(list_slos_path(slos) =~= s0 + s1 + e + e + e + e);
    lemma_parts_occur(s0, s1, e, e, e, e);
    let r0 = "/runbooks?"@;
    let r1 = param_amp("service="@, opt_text(runbook.service));
    let r2 = param_amp("alert_type="@, opt_text(runbook.alert_type));
    assert(get_runbook_path(runbook) =~= r0 + r1 + r2 + e + e + e);
    lemma_parts_occur(r0, r1, r2, e, e, e);
}

/// The members of a body, answered for by their keys: in an object of
/// members with pairwise different keys, each key gives its own member.
proof fn lemma_members_6(
    obj: ObjectView,
    a: (Seq<char>, JsonVal),
    b: (Seq<char>, JsonVal),
    c: (Seq<char>, JsonVal),
    d: (Seq<char>, JsonVal),
    e: (Seq<char>, JsonVal),
    f: (Seq<char>, JsonVal),
)
    requires
        obj == seq![a, b, c, d, e, f],
    ensures
        forall|k: Seq<char>|
            #[trigger] member_value(obj, k) == if f.0 == k {
                Some(f.1)
            } else if e.0 == k {
                Some(e.1)
            } else if d.0 == k {
                Some(d.1)
            } else if c.0 == k {
                Some(c.1)
            } else if b.0 == k {
                Some(b.1)
            } else if a.0 == k {
                Some(a.1)
            } else {
                None
            },
{
    let o0 = Seq::<(Seq<char>, JsonVal)>::empty();
    let o1 = o0.push(a);
    let o2 = o1.push(b);
    let o3 = o2.push(c);
    let o4 = o3.push(d);
    let o5 = o4.push(e);
    lemma_member_value_push(o0, a);
    lemma_member_value_push(o1, b);
    lemma_member_value_push(o2, c);
    lemma_member_value_push(o3, d);
    lemma_member_value_push(o4, e);
    lemma_member_value_push(o5, f);
    assert(seq![a, b, c, d, e, f] =~= o5.push(f));
    assert forall|k: Seq<char>| member_value(o0, k) == None::<JsonVal> by {}
}

proof fn lemma_members_4(
    obj: ObjectView,
    a: (Seq<char>, JsonVal),
    b: (Seq<char>, JsonVal),
    c: (Seq<char>, JsonVal),
    d: (Seq<char>, JsonVal),
)
    requires
        obj == seq![a, b, c, d],
    ensures
        forall|k: Seq<char>|
            #[trigger] member_value(obj, k) == if d.0 == k {
                Some(d.1)
            } else if c.0 == k {
                Some(c.1)
            } else if b.0 == k {
                Some(b.1)
            } else if a.0 == k {
                Some(a.1)
            } else {
                None
            },
{
    let o0 = Seq::<(Seq<char>, JsonVal)>::empty();
    let o1 = o0.push(a);
    let o2 = o1.push(b);
    let o3 = o2.push(c);
    lemma_member_value_push(o0, a);
    lemma_member_value_push(o1, b);
    lemma_member_value_push(o2, c);
    lemma_member_value_push(o3, d);
    assert(seq![a, b, c, d] =~= o3.push(d));
    assert forall|k: Seq<char>| member_value(o0, k) == None::<JsonVal> by {}
}

proof fn lemma_members_2(obj: ObjectView, a: (Seq<char>, JsonVal), b: (Seq<char>, JsonVal))
    requires
        obj == seq![a, b],
    ensures
        forall|k: Seq<char>|
            #[trigger] member_value(obj, k) == if b.0 == k {
                Some(b.1)
            } else if a.0 == k {
                Some(a.1)
            } else {
                None
            },
{
    let o0 = Seq::<(Seq<char>, JsonVal)>::empty();
    let o1 = o0.push(a);
    lemma_member_value_push(o0, a);
    lemma_member_value_push(o1, b);
    assert(seq![a, b] =~= o1.push(b));
    assert forall|k: Seq<char>| member_value(o0, k) == None::<JsonVal> by {}
}

/// The JSON value of an optional text: the text when given, `null` when not.
pub open spec fn given_or_null(o: Option<String>) -> JsonVal {
    match o {
        Some(s) => JsonVal::Str(s@),
        None => JsonVal::Null,
    }
}

/// A new incident carries the title, severity, service and description it
/// was given (`null` for a missing description).
pub proof fn lemma_incident_body_holds_its_fields(input: IncidentInput)
    ensures
        member_value(create_incident_body(input), "title"@) == Some(JsonVal::Str(input.title@)),
        member_value(create_incident_body(input), "severity"@) == Some(JsonVal::Str(input.severity@)),
        member_value(create_incident_body(input), "service"@) == Some(JsonVal::Str(input.service@)),
        member_value(create_incident_body(input), "description"@) == Some(given_or_null(input.description)),
{
    reveal_strlit("title");
    reveal_strlit("severity");
    reveal_strlit("service");
    reveal_strlit("description");
    assert("title"@.len() != "severity"@.len());
    assert("title"@ != "severity"@);
    assert("title"@.len() != "service"@.len());
    assert("title"@ != "service"@);
    assert("title"@.len() != "description"@.len());
    assert("title"@ != "description"@);
    assert("severity"@.len() != "service"@.len());
    assert("severity"@ != "service"@);
    assert("severity"@.len() != "description"@.len());
    assert("severity"@ != "description"@);
    assert("service"@.len() != "description"@.len());
    assert("service"@ != "description"@);
    let b = create_incident_body(input);
    assert(b =~= seq![b[0], b[1], b[2], b[3]]);
    lemma_members_4(b, b[0], b[1], b[2], b[3]);
}

/// Resolving an alert sends status `resolved` and the resolution given
/// (`null` when none).
pub proof fn lemma_resolve_alert_body(input: ResolveAlertInput)
    ensures
        member_value(resolve_alert_body(input), "status"@) == Some(JsonVal::Str("resolved"@)),
        member_value(resolve_alert_body(input), "resolution"@) == Some(given_or_null(input.resolution)),
{
    reveal_strlit("status");
    reveal_strlit("resolution");
    assert("status"@.len() != "resolution"@.len());
    assert("status"@ != "resolution"@);
    let b = resolve_alert_body(input);
    assert(b =~= seq![b[0], b[1]]);
    lemma_members_2(b, b[0], b[1]);
}

/// Acknowledging an alert sends the message given (`null` when none).
pub proof fn lemma_acknowledge_body(input: AckAlertInput)
    ensures
        member_value(acknowledge_alert_body(input), "message"@) == Some(given_or_null(input.message)),
{
    reveal_with_fuel(member_value, 2);
}

/// Resolving an incident sends status `resolved`, the root cause and
/// resolution given, and the follow-up actions given (`null` when none).
pub proof fn lemma_incident_resolve_body(input: IncidentResolveInput)
    ensures
        member_value(incident_resolve_body(input), "status"@) == Some(JsonVal::Str("resolved"@)),
        member_value(incident_resolve_body(input), "root_cause"@) == Some(JsonVal::Str(input.root_cause@)),
        member_value(incident_resolve_body(input), "resolution"@) == Some(JsonVal::Str(input.resolution@)),
        member_value(incident_resolve_body(input), "follow_up_actions"@) == Some(
            opt_list_json(input.follow_up),
        ),
{
    reveal_strlit("status");
    reveal_strlit("root_cause");
    reveal_strlit("resolution");
    reveal_strlit("follow_up_actions");
    assert("status"@.len() != "root_cause"@.len());
    assert("status"@ != "root_cause"@);
    assert("status"@.len() != "resolution"@.len());
    assert("status"@ != "resolution"@);
    assert("status"@.len() != "follow_up_actions"@.len());
    assert("status"@ != "follow_up_actions"@);
    assert("root_cause"@[1] != "resolution"@[1]);
    assert("root_cause"@ != "resolution"@);
    assert("root_cause"@.len() != "follow_up_actions"@.len());
    assert("root_cause"@ != "follow_up_actions"@);
    assert("resolution"@.len() != "follow_up_actions"@.len());
    assert("resolution"@ != "follow_up_actions"@);
    let b = incident_resolve_body(input);
    assert(b =~= seq![b[0], b[1], b[2], b[3]]);
    lemma_members_4(b, b[0], b[1], b[2], b[3]);
}

/// A new alert rule carries every field it was given; the threshold is sent
/// as the number its text spells.
pub proof fn lemma_alert_rule_body(input: CreateAlertInput)
    ensures
        member_value(create_alert_body(input), "name"@) == Some(JsonVal::Str(input.name@)),
        member_value(create_alert_body(input), "metric"@) == Some(JsonVal::Str(input.metric@)),
        member_value(create_alert_body(input), "condition"@) == Some(JsonVal::Str(input.condition@)),
        member_value(create_alert_body(input), "threshold"@) == Some(JsonVal::Raw(input.threshold@)),
        member_value(create_alert_body(input), "severity"@) == Some(JsonVal::Str(input.severity@)),
        member_value(create_alert_body(input), "notify"@) == Some(opt_list_json(input.notify)),
{
    reveal_strlit("name");
    reveal_strlit("metric");
    reveal_strlit("condition");
    reveal_strlit("threshold");
    reveal_strlit("severity");
    reveal_strlit("notify");
    assert("name"@.len() != "metric"@.len());
    assert("name"@ != "metric"@);
    assert("name"@.len() != "condition"@.len());
    assert("name"@ != "condition"@);
    assert("name"@.len() != "threshold"@.len());
    assert("name"@ != "threshold"@);
    assert("name"@.len() != "severity"@.len());
    assert("name"@ != "severity"@);
    assert("name"@.len() != "notify"@.len());
    assert("name"@ != "notify"@);
    assert("metric"@.len() != "condition"@.len());
    assert("metric"@ != "condition"@);
    assert("metric"@.len() != "threshold"@.len());
    assert("metric"@ != "threshold"@);
    assert("metric"@.len() != "severity"@.len());
    assert("metric"@ != "severity"@);
    assert("metric"@[0] != "notify"@[0]);
    assert("metric"@ != "notify"@);
    assert("condition"@[0] != "threshold"@[0]);
    assert("condition"@ != "threshold"@);
    assert("condition"@.len() != "severity"@.len());
    assert("condition"@ != "severity"@);
    assert("condition"@.len() != "notify"@.len());
    assert("condition"@ != "notify"@);
    assert("threshold"@.len() != "severity"@.len());
    assert("threshold"@ != "severity"@);
    assert("threshold"@.len() != "notify"@.len());
    assert("threshold"@ != "notify"@);
    assert("severity"@.len() != "notify"@.len());
    assert("severity"@ != "notify"@);
    let b = create_alert_body(input);
    assert(b =~= seq![b[0], b[1], b[2], b[3], b[4], b[5]]);
    lemma_members_6(b, b[0], b[1], b[2], b[3], b[4], b[5]);
}

/// An incident update carries a status exactly when one is given, and a
/// resolution exactly when one is given, each as given.
pub proof fn lemma_update_sends_only_given_changes(input: UpdateIncidentInput)
    ensures
        member_value(update_incident_body(input), "status"@) == match input.status {
            Some(s) => Some(JsonVal::Str(s@)),
            None => None::<JsonVal>,
        },
        member_value(update_incident_body(input), "resolution"@) == match input.resolution {
            Some(s) => Some(JsonVal::Str(s@)),
            None => None::<JsonVal>,
        },
{
    reveal_strlit("status");
    reveal_strlit("resolution");
    assert("status"@.len() != "resolution"@.len());
    assert("status"@ != "resolution"@);
    let b = update_incident_body(input);
    let st = crate::tools::opt_member("status"@, opt_text(input.status));
    let rs = crate::tools::opt_member("resolution"@, opt_text(input.resolution));
    let e = Seq::<(Seq<char>, JsonVal)>::empty();
    assert forall|k: Seq<char>| #[trigger] member_value(e, k) == None::<JsonVal> by {}
    lemma_member_value_push(e, ("status"@, JsonVal::Str(input.status->0@)));
    lemma_member_value_push(e, ("resolution"@, JsonVal::Str(input.resolution->0@)));
    lemma_member_value_push(st, ("resolution"@, JsonVal::Str(input.resolution->0@)));
    if input.status is None {
        assert(b =~= rs);
        assert(st =~= e);
    } else {
        assert(st =~= e.push(("status"@, JsonVal::Str(input.status->0@))));
    }
    if input.resolution is None {
        assert(b =~= st);
    } else {
        assert(rs =~= e.push(("resolution"@, JsonVal::Str(input.resolution->0@))));
        assert(b =~= st.push(("resolution"@, JsonVal::Str(input.resolution->0@))));
    }
}

/// Datadog is chosen whenever both its keys are set, whatever the other
/// settings hold; then Grafana whenever its URL and token are set.
pub proof fn lemma_backend_precedence(s1: EnvSettings, s2: EnvSettings)
    ensures
        s1.datadog_api_key is Some && s1.datadog_app_key is Some && s1.datadog_api_key
            == s2.datadog_api_key && s1.datadog_app_key == s2.datadog_app_key && s1.datadog_site
            == s2.datadog_site ==> selected(s1) == selected(s2) && selected(s1)->0.provider
            == Provider::Datadog,
        !(s1.datadog_api_key is Some && s1.datadog_app_key is Some) && !(s2.datadog_api_key is Some
            && s2.datadog_app_key is Some) && s1.grafana_url is Some && s1.grafana_api_token is Some
            && s1.grafana_url == s2.grafana_url && s1.grafana_api_token == s2.grafana_api_token
            ==> selected(s1) == selected(s2) && selected(s1)->0.provider == Provider::Grafana,
{
}

/// No backend is selected exactly when none of the four is configured.
pub proof fn lemma_no_backend_exactly_when_unconfigured(s: EnvSettings)
    ensures
        selected(s) is None <==> !(s.datadog_api_key is Some && s.datadog_app_key is Some) && !(
        s.grafana_url is Some && s.grafana_api_token is Some) && s.newrelic_api_key is None
            && s.observability_api_url is None,
{
}

/// Each backend authenticates with its own credential: Datadog's header
/// carries its API key, Grafana's the token as bearer, New Relic's its API
/// key, and a custom API the configured key as bearer.
pub proof fn lemma_backend_credentials(s: EnvSettings)
    ensures
        selected(s) matches Some(c) ==> (c.provider == Provider::Datadog ==> c.auth_header
            == "DD-API-KEY: "@ + s.datadog_api_key->0@),
        selected(s) matches Some(c) ==> (c.provider == Provider::Grafana ==> c.auth_header
            == "Bearer "@ + s.grafana_api_token->0@),
        selected(s) matches Some(c) ==> (c.provider == Provider::NewRelic ==> c.auth_header
            == "Api-Key "@ + s.newrelic_api_key->0@),
        selected(s) matches Some(c) ==> (c.provider == Provider::Custom ==> c.auth_header
            == "Bearer "@ + match s.observability_api_key {
            Some(k) => k@,
            None => Seq::<char>::empty(),
        }),
{
}

/// A Grafana pull is planned exactly when both the URL and the token are
/// configured and the direction is `pull`; it searches the configured server
/// with the token as bearer. Without the URL or the token, nothing is
/// fetched and the answer reports that Grafana is not configured.
pub proof fn lemma_grafana_pulls_only_when_configured(
    url: Option<String>,
    token: Option<String>,
    input: GrafanaSyncInput,
)
    ensures
        (grafana_step_of(url, token, input.direction@) is Pull) <==> (url is Some && token is Some
            && input.direction@ == "pull"@),
        grafana_step_of(url, token, input.direction@) matches GrafanaStepView::Pull {
            url: target,
            authorization,
        } ==> target == url->0@ + "/api/search?type=dash-db"@ && authorization == "Bearer "@
            + token->0@,
        (url is None || token is None) ==> grafana_step_of(url, token, input.direction@)
            == GrafanaStepView::Reply(
            seq![
                ("error"@, JsonVal::Str("NOT_CONFIGURED"@)),
                ("message"@, JsonVal::Str("Set GRAFANA_URL and GRAFANA_TOKEN"@)),
            ],
        ),
{
}

/// A PromQL query is sent exactly when a server is configured, to a URL on
/// that server; without one, nothing is sent and the answer reports that
/// Prometheus is not configured.
pub proof fn lemma_prometheus_queries_only_when_configured(
    configured: Option<String>,
    input: PromQueryInput,
)
    ensures
        (prometheus_step_of(configured, input) is Query) <==> configured is Some,
        prometheus_step_of(configured, input) matches PrometheusStepView::Query { base, url } ==> base
            == configured->0@ && url.len() >= base.len() && url.subrange(0, base.len() as int)
            == base,
        configured is None ==> prometheus_step_of(configured, input) == PrometheusStepView::Reply(
            seq![
                ("error"@, JsonVal::Str("NOT_CONFIGURED"@)),
                ("message"@, JsonVal::Str("Set PROMETHEUS_URL"@)),
            ],
        ),
{
    if let Some(b) = configured {
        let url = crate::probes::prometheus_url_of(b@, input);
        match input.start {
            Some(st) => {
                assert(url =~= b@ + ("/api/v1/query_range?query="@ + input.query@ + "&start="@ + st@
                    + "&end="@ + crate::backend::text_or(input.end, "now"@) + "&step="@
                    + crate::backend::text_or(input.step, "60s"@)));
            },
            None => {
                assert(url =~= b@ + ("/api/v1/query?query="@ + input.query@));
            },
        }
        assert(url.subrange(0, b@.len() as int) =~= b@);
    }
}

} // verus!
