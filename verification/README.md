# mcp_observability

An MCP server that gives AI agents access to an observability backend
(Datadog, Grafana Cloud, New Relic or a custom API): logs, metrics, traces,
alerts, incidents, SLOs, dashboards, runbooks and services.

The planning logic is a library verified with Verus:

- `src/backend.rs` — which backend the configuration selects, request URLs,
  answer framing.
- `src/tools.rs` — the exact backend request (method, path, JSON body) of
  every tool.
- `src/probes.rs` — the uptime check, Prometheus query and Grafana sync: what
  is decided before the outside call and how its outcome is reported.
- `src/encoding.rs`, `src/text.rs`, `src/request.rs` — percent-encoding,
  decimal numbers and the request model.
- `src/laws.rs` — properties across inputs (percent-encoding is URL-safe and
  lossless, query values stay in their parameter, trailing slashes).

`app/` is the server itself: environment, HTTP calls, MCP plumbing.
