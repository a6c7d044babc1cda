//! Which observability backend a configuration selects, and how requests to
//! it and its answers are framed.

use vstd::prelude::*;
use vstd::string::*;

verus! {

/// The configuration values the backend is chosen from, each absent when
/// the variable of that name is unset.
#[derive(Debug, Clone, PartialEq, Eq)]
pub struct EnvSettings {
    /// `DATADOG_API_KEY`
    pub datadog_api_key: Option<String>,
    /// `DATADOG_APP_KEY`
    pub datadog_app_key: Option<String>,
    /// `DATADOG_SITE`
    pub datadog_site: Option<String>,
    /// `GRAFANA_URL`
    pub grafana_url: Option<String>,
    /// `GRAFANA_API_TOKEN`
    pub grafana_api_token: Option<String>,
    /// `NEWRELIC_API_KEY`
    pub newrelic_api_key: Option<String>,
    /// `NEWRELIC_ACCOUNT_ID`
    pub newrelic_account_id: Option<String>,
    /// `OBSERVABILITY_API_URL`
    pub observability_api_url: Option<String>,
    /// `OBSERVABILITY_API_KEY`
    pub observability_api_key: Option<String>,
}

/// The kind of backend.
#[derive(Debug, Clone, Copy, PartialEq, Eq, Structural)]
pub enum Provider {
    Datadog,
    Grafana,
    NewRelic,
    Custom,
}

/// The name a provider is reported under.
pub open spec fn provider_name(p: Provider) -> Seq<char> {
    match p {
        Provider::Datadog => "datadog"@,
        Provider::Grafana => "grafana"@,
        Provider::NewRelic => "newrelic"@,
        Provider::Custom => "custom"@,
    }
}

impl Provider {
    /// The name this provider is reported under.
    pub fn name(&self) -> (res: String)
        ensures
            res@ == provider_name(*self),
    {
        match self {
            Provider::Datadog => String::from_str("datadog"),
            Provider::Grafana => String::from_str("grafana"),
            Provider::NewRelic => String::from_str("newrelic"),
            Provider::Custom => String::from_str("custom"),
        }
    }
}

/// The selected backend: its kind, the URL that request paths are appended
/// to, and the value of the `Authorization` header.
#[derive(Debug, Clone, PartialEq, Eq)]
pub struct BackendConfig {
    pub provider: Provider,
    pub base_url: String,
    pub auth_header: String,
}

/// The content of a [`BackendConfig`].
pub struct ConfigView {
    pub provider: Provider,
    pub base_url: Seq<char>,
    pub auth_header: Seq<char>,
}

impl View for BackendConfig {
    type V = ConfigView;

    open spec fn view(&self) -> ConfigView {
        ConfigView { provider: self.provider, base_url: self.base_url@, auth_header: self.auth_header@ }
    }
}

/// Why no backend could be selected.
#[derive(Debug, Clone, Copy, PartialEq, Eq, Structural)]
pub enum BackendError {
    /// None of the four backends is configured.
    NotConfigured,
}

impl BackendError {
    /// The message reported for this error.
    pub fn message(&self) -> (res: String)
        ensures
            res@ == "No observability backend. Set DATADOG_API_KEY+DATADOG_APP_KEY, GRAFANA_URL+GRAFANA_API_TOKEN, NEWRELIC_API_KEY, or OBSERVABILITY_API_URL"@,
    {
        String::from_str(
            "No observability backend. Set DATADOG_API_KEY+DATADOG_APP_KEY, GRAFANA_URL+GRAFANA_API_TOKEN, NEWRELIC_API_KEY, or OBSERVABILITY_API_URL",
        )
    }
}

/// `s` without its trailing `/` characters.
pub open spec fn trim_slashes(s: Seq<char>) -> Seq<char>
    decreases s.len(),
{
    if s.len() > 0 && s.last() == '/' {
        trim_slashes(s.drop_last())
    } else {
        s
    }
}

/// The text of an optional value, `d` when absent.
pub open spec fn text_or(o: Option<String>, d: Seq<char>) -> Seq<char> {
    match o {
        Some(s) => s@,
        None => d,
    }
}

/// The backend that the settings select: Datadog when both its keys are
/// set, else Grafana when its URL and token are set, else New Relic when
/// its key is set, else a custom API when its URL is set, else none.
pub open spec fn selected(s: EnvSettings) -> Option<ConfigView> {
    if s.datadog_api_key is Some && s.datadog_app_key is Some {
        Some(ConfigView {
            provider: Provider::Datadog,
            base_url: "https://api."@ + text_or(s.datadog_site, "datadoghq.com"@),
            auth_header: "DD-API-KEY: "@ + s.datadog_api_key->0@,
        })
    } else if s.grafana_url is Some && s.grafana_api_token is Some {
        Some(ConfigView {
            provider: Provider::Grafana,
            base_url: trim_slashes(s.grafana_url->0@),
            auth_header: "Bearer "@ + s.grafana_api_token->0@,
        })
    } else if s.newrelic_api_key is Some {
        Some(ConfigView {
            provider: Provider::NewRelic,
            base_url: "https://api.newrelic.com/v2/accounts/"@ + text_or(
                s.newrelic_account_id,
                Seq::empty(),
            ),
            auth_header: "Api-Key "@ + s.newrelic_api_key->0@,
        })
    } else if s.observability_api_url is Some {
        Some(ConfigView {
            provider: Provider::Custom,
            base_url: trim_slashes(s.observability_api_url->0@),
            auth_header: "Bearer "@ + text_or(s.observability_api_key, Seq::empty()),
        })
    } else {
        None
    }
}

/// `s` with its trailing `/` characters removed.
pub fn trim_trailing_slashes(s: &str) -> (res: String)
    ensures
        res@ == trim_slashes(s@),
{
    let len = s.unicode_len();
    let mut n = len;
    assert(s@.subrange(0, n as int) =~= s@);
    while n > 0 && s.get_char(n - 1) == '/'
        invariant
            n <= len,
            len == s@.len(),
            trim_slashes(s@) == trim_slashes(s@.subrange(0, n as int)),
        decreases n,
    {
        assert(s@.subrange(0, n as int).drop_last() =~= s@.subrange(0, n - 1));
        n = n - 1;
    }
    let kept = s.substring_char(0, n);
    String::from_str(kept)
}

/// A copy of an optional text, `default` when absent.
fn text_or_default(o: &Option<String>, default: &str) -> (res: String)
    ensures
        res@ == text_or(*o, default@),
{
    match o {
        Some(s) => s.clone(),
        None => String::from_str(default),
    }
}

/// A copy of an optional text, empty when absent.
fn text_or_empty(o: &Option<String>) -> (res: String)
    ensures
        res@ == text_or(*o, Seq::empty()),
{
    match o {
        Some(s) => s.clone(),
        None => String::new(),
    }
}

/// `prefix` followed by `rest`, as a new string.
fn joined(prefix: &str, rest: &String) -> (res: String)
    ensures
        res@ == prefix@ + rest@,
{
    let mut res = String::from_str(prefix);
    res.append(rest.as_str());
    res
}

impl BackendConfig {
    /// Selects the backend that the settings configure; fails exactly when
    /// none is configured.
    pub fn from_settings(s: &EnvSettings) -> (res: Result<BackendConfig, BackendError>)
        ensures
            match res {
                Ok(c) => selected(*s) == Some(c@),
                Err(e) => selected(*s) is None && e == BackendError::NotConfigured,
            },
    {
        if let (Some(api_key), Some(_)) = (&s.datadog_api_key, &s.datadog_app_key) {
            let site = text_or_default(&s.datadog_site, "datadoghq.com");
            return Ok(BackendConfig {
                provider: Provider::Datadog,
                base_url: joined("https://api.", &site),
                auth_header: joined("DD-API-KEY: ", api_key),
            });
        }
        if let (Some(url), Some(token)) = (&s.grafana_url, &s.grafana_api_token) {
            return Ok(BackendConfig {
                provider: Provider::Grafana,
                base_url: trim_trailing_slashes(url.as_str()),
                auth_header: joined("Bearer ", token),
            });
        }
        if let Some(api_key) = &s.newrelic_api_key {
            let account = text_or_empty(&s.newrelic_account_id);
            return Ok(BackendConfig {
                provider: Provider::NewRelic,
                base_url: joined("https://api.newrelic.com/v2/accounts/", &account),
                auth_header: joined("Api-Key ", api_key),
            });
        }
        if let Some(url) = &s.observability_api_url {
            let key = text_or_empty(&s.observability_api_key);
            return Ok(BackendConfig {
                provider: Provider::Custom,
                base_url: trim_trailing_slashes(url.as_str()),
                auth_header: joined("Bearer ", &key),
            });
        }
        Err(BackendError::NotConfigured)
    }
}

/// The URL of `path` on the backend at `base_url`: the base URL followed by
/// the path.
pub fn request_url(base_url: &str, path: &str) -> (res: String)
    ensures
        res@ == base_url@ + path@,
{
    let mut res = String::from_str(base_url);
    res.append(path);
    res
}

/// Whether an HTTP status code reports success (the 2xx range).
pub fn is_success_status(code: u16) -> (res: bool)
    ensures
        res == (200 <= code <= 299),
{
    200 <= code && code <= 299
}

/// The error reported for a refused request: `API`, the status as shown
/// (code and reason), a colon and the body of the answer.
pub fn api_error_message(status: &str, body: &str) -> (res: String)
    ensures
        res@ == "API "@ + status@ + ": "@ + body@,
{
    let mut res = String::from_str("API ");
    res.append(status);
    res.append(": ");
    res.append(body);
    res
}

/// What a tool answers: the text of a successful answer as it is, or
/// `Error: ` followed by the error's message.
pub open spec fn rendered_of(outcome: Result<String, String>) -> Seq<char> {
    match outcome {
        Ok(text) => text@,
        Err(msg) => "Error: "@ + msg@,
    }
}

/// What a tool answers for the outcome of its request.
pub fn render_outcome(outcome: Result<String, String>) -> (res: String)
    ensures
        res@ == rendered_of(outcome),
{
    match outcome {
        Ok(text) => text,
        Err(msg) => {
            let mut res = String::from_str("Error: ");
            res.append(msg.as_str());
            res
        },
    }
}

/// The line logged when a backend has been selected, naming it (and, for
/// Datadog, its site); none when no backend is configured.
pub open spec fn announcement_of(s: EnvSettings) -> Option<Seq<char>> {
    if s.datadog_api_key is Some && s.datadog_app_key is Some {
        Some("Observability backend: Datadog ("@ + text_or(s.datadog_site, "datadoghq.com"@) + ")"@)
    } else if s.grafana_url is Some && s.grafana_api_token is Some {
        Some("Observability backend: Grafana"@)
    } else if s.newrelic_api_key is Some {
        Some("Observability backend: New Relic"@)
    } else if s.observability_api_url is Some {
        Some("Observability backend: Custom API"@)
    } else {
        None
    }
}

/// The line to log for the backend that the settings select.
pub fn announcement(s: &EnvSettings) -> (res: Option<String>)
    ensures
        match res {
            Some(line) => announcement_of(*s) == Some(line@),
            None => announcement_of(*s) is None,
        },
{
    if s.datadog_api_key.is_some() && s.datadog_app_key.is_some() {
        let site = text_or_default(&s.datadog_site, "datadoghq.com");
        let mut line = String::from_str("Observability backend: Datadog (");
        line.append(site.as_str());
        line.append(")");
        Some(line)
    } else if s.grafana_url.is_some() && s.grafana_api_token.is_some() {
        Some(String::from_str("Observability backend: Grafana"))
    } else if s.newrelic_api_key.is_some() {
        Some(String::from_str("Observability backend: New Relic"))
    } else if s.observability_api_url.is_some() {
        Some(String::from_str("Observability backend: Custom API"))
    } else {
        None
    }
}

} // verus!
