//! Properties that hold across inputs: what percent-encoding can produce,
//! how trailing slashes are removed, and how query values stay inside their
//! own parameter.

use vstd::prelude::*;
use vstd::utf8::*;
use crate::backend::{rendered_of, selected, trim_slashes, EnvSettings, Provider};
use crate::encoding::{hex_digit, is_unreserved, percent_encode, percent_encode_byte, url_encoded};
use crate::inputs::{AlertHistoryInput, LogQueryInput, MonitorCreateInput, PromQueryInput};
use crate::probes::{monitor_report_of, prometheus_url_of, ProbeOutcome};
use crate::request::{JsonVal, ObjectView};
use crate::text::{decimal, digit_char};
use crate::tools::{alert_history_path, monitor_create_body};
use crate::request::{opt_text, param, shown_u32};
use crate::tools::{log_search_filters, log_search_path};

verus! {

/// A character that may stand in a URL query value without ending it or
/// changing its meaning: an ASCII letter or digit, `-`, `.`, `_`, `~`, or
/// the `%` that starts an escape.
pub open spec fn url_safe_char(c: char) -> bool {
    ||| '0' <= c <= '9'
    ||| 'A' <= c <= 'Z'
    ||| 'a' <= c <= 'z'
    ||| c == '-'
    ||| c == '.'
    ||| c == '_'
    ||| c == '~'
    ||| c == '%'
}

/// Every character of a percent-encoded byte sequence is URL-safe.
pub proof fn lemma_percent_encode_is_url_safe(bytes: Seq<u8>)
    ensures
        forall|i: int|
            0 <= i < percent_encode(bytes).len() ==> url_safe_char(#[trigger] percent_encode(bytes)[i]),
    decreases bytes.len(),
{
    if bytes.len() > 0 {
        lemma_percent_encode_is_url_safe(bytes.drop_first());
        let b = bytes[0];
        let head = percent_encode_byte(b);
        let tail = percent_encode(bytes.drop_first());
        assert(forall|i: int| 0 <= i < head.len() ==> url_safe_char(#[trigger] head[i])) by {
            if !is_unreserved(b) {
                assert(0 <= b / 16 < 16);
                assert(0 <= b % 16 < 16);
                assert(url_safe_char(hex_digit((b / 16) as int)));
                assert(url_safe_char(hex_digit((b % 16) as int)));
            }
        }
        assert(percent_encode(bytes) == head + tail);
        assert forall|i: int| 0 <= i < percent_encode(bytes).len() implies url_safe_char(
            #[trigger] percent_encode(bytes)[i],
        ) by {
            if i < head.len() {
                assert(percent_encode(bytes)[i] == head[i]);
            } else {
                assert(percent_encode(bytes)[i] == tail[i - head.len()]);
            }
        }
    }
}

/// Percent-encoded text holds only URL-safe characters: in particular no
/// `&`, `=`, `#`, `?`, `/`, `+` or space, so it can neither end the query
/// value it stands in nor start another parameter.
pub proof fn lemma_encoded_is_url_safe(s: Seq<char>)
    ensures
        forall|i: int| 0 <= i < url_encoded(s).len() ==> url_safe_char(#[trigger] url_encoded(s)[i]),
        !url_encoded(s).contains('&'),
        !url_encoded(s).contains('='),
        !url_encoded(s).contains('#'),
        !url_encoded(s).contains('?'),
        !url_encoded(s).contains('/'),
        !url_encoded(s).contains('+'),
        !url_encoded(s).contains(' '),
{
    lemma_percent_encode_is_url_safe(encode_utf8(s));
}

/// Percent-encoding of bytes that are all unreserved spells them out, one
/// character per byte.
proof fn lemma_percent_encode_unreserved(bytes: Seq<u8>)
    requires
        forall|i: int| 0 <= i < bytes.len() ==> is_unreserved(#[trigger] bytes[i]),
    ensures
        percent_encode(bytes).len() == bytes.len(),
        forall|i: int|
            0 <= i < bytes.len() ==> #[trigger] percent_encode(bytes)[i] == bytes[i] as char,
    decreases bytes.len(),
{
    if bytes.len() > 0 {
        let rest = bytes.drop_first();
        assert(forall|i: int| 0 <= i < rest.len() ==> is_unreserved(#[trigger] rest[i])) by {
            assert forall|i: int| 0 <= i < rest.len() implies is_unreserved(#[trigger] rest[i]) by {
                assert(rest[i] == bytes[i + 1]);
            }
        }
        lemma_percent_encode_unreserved(rest);
        assert forall|i: int| 0 <= i < bytes.len() implies #[trigger] percent_encode(bytes)[i]
            == bytes[i] as char by {
            if i > 0 {
                assert(rest[i - 1] == bytes[i]);
            }
        }
    }
}

/// A character that percent-encoding leaves as it is.
pub open spec fn plain_char(c: char) -> bool {
    ||| '0' <= c <= '9'
    ||| 'A' <= c <= 'Z'
    ||| 'a' <= c <= 'z'
    ||| c == '-'
    ||| c == '.'
    ||| c == '_'
    ||| c == '~'
}

/// Text made only of ASCII letters, digits, `-`, `.`, `_` and `~` is its
/// own percent-encoding.
pub proof fn lemma_encoding_keeps_plain_text(s: Seq<char>)
    requires
        forall|i: int| 0 <= i < s.len() ==> plain_char(#[trigger] s[i]),
    ensures
        url_encoded(s) == s,
{
    assert(is_ascii_chars(s));
    is_ascii_chars_encode_utf8(s);
    let bytes = encode_utf8(s);
    assert forall|i: int| 0 <= i < bytes.len() implies is_unreserved(#[trigger] bytes[i]) by {
        assert(s[i] as u8 == bytes[i]);
    }
    lemma_percent_encode_unreserved(bytes);
    assert forall|i: int| 0 <= i < s.len() implies #[trigger] url_encoded(s)[i] == s[i] by {
        assert(s[i] as u8 == bytes[i]);
        assert(url_encoded(s)[i] == bytes[i] as char);
    }
    assert(url_encoded(s) =~= s);
}

/// Removing trailing slashes keeps a prefix of the text, removes only `/`
/// characters, and leaves no `/` at the end.
pub proof fn lemma_trim_slashes(s: Seq<char>)
    ensures
        trim_slashes(s).len() <= s.len(),
        trim_slashes(s) == s.subrange(0, trim_slashes(s).len() as int),
        forall|i: int| trim_slashes(s).len() <= i < s.len() ==> #[trigger] s[i] == '/',
        trim_slashes(s).len() > 0 ==> trim_slashes(s).last() != '/',
    decreases s.len(),
{
    if s.len() > 0 && s.last() == '/' {
        let d = s.drop_last();
        lemma_trim_slashes(d);
        assert(d.subrange(0, trim_slashes(d).len() as int) =~= s.subrange(
            0,
            trim_slashes(d).len() as int,
        ));
        assert forall|i: int| trim_slashes(s).len() <= i < s.len() implies #[trigger] s[i] == '/' by {
            if i < d.len() {
                assert(s[i] == d[i]);
            }
        }
    } else {
        assert(s.subrange(0, s.len() as int) =~= s);
    }
}

/// Removing trailing slashes twice removes nothing more.
pub proof fn lemma_trim_slashes_idempotent(s: Seq<char>)
    ensures
        trim_slashes(trim_slashes(s)) == trim_slashes(s),
{
    lemma_trim_slashes(s);
}

/// The base URL of a Grafana or custom backend never ends with `/`, so a
/// request path that starts with `/` is joined to it without a doubled
/// slash.
pub proof fn lemma_base_url_has_no_trailing_slash(s: EnvSettings)
    requires
        selected(s) is Some,
        selected(s)->0.provider == Provider::Grafana || selected(s)->0.provider == Provider::Custom,
    ensures
        selected(s)->0.base_url.len() > 0 ==> selected(s)->0.base_url.last() != '/',
{
    if s.datadog_api_key is Some && s.datadog_app_key is Some {
    } else if s.grafana_url is Some && s.grafana_api_token is Some {
        lemma_trim_slashes(s.grafana_url->0@);
    } else if s.newrelic_api_key is Some {
    } else {
        lemma_trim_slashes(s.observability_api_url->0@);
    }
}

/// Empty, or starting with `&`: text that cannot extend the value before it.
pub open spec fn amp_led(s: Seq<char>) -> bool {
    s.len() == 0 || s[0] == '&'
}

/// Joining two texts that are each empty or start with `&` gives such a text.
proof fn lemma_amp_led_join(a: Seq<char>, b: Seq<char>)
    requires
        amp_led(a),
        amp_led(b),
    ensures
        amp_led(a + b),
{
    if a.len() == 0 {
        assert(a + b =~= b);
    }
}

/// A parameter whose key starts with `&` is empty or starts with `&`.
proof fn lemma_param_amp_led(key: Seq<char>, v: Option<Seq<char>>)
    requires
        key.len() > 0,
        key[0] == '&',
    ensures
        amp_led(param(key, v)),
{
}

/// The query of a log search stays inside its own parameter: the path is
/// the fixed prefix, the percent-encoded query (which holds no `&`), and
/// then either nothing or a further parameter introduced by `&`.
pub proof fn lemma_log_query_stays_in_its_parameter(input: LogQueryInput)
    ensures
        ({
            let head = "/logs/search?query="@ + url_encoded(input.query@);
            let path = log_search_path(input);
            &&& path.subrange(0, head.len() as int) == head
            &&& !url_encoded(input.query@).contains('&')
            &&& amp_led(path.subrange(head.len() as int, path.len() as int))
        }),
{
    reveal_strlit("&start=");
    reveal_strlit("&end=");
    reveal_strlit("&limit=");
    reveal_strlit("&service=");
    reveal_strlit("&level=");
    lemma_encoded_is_url_safe(input.query@);
    let p1 = param("&start="@, opt_text(input.start));
    let p2 = param("&end="@, opt_text(input.end));
    let p3 = param("&limit="@, shown_u32(input.limit));
    let p4 = param("&service="@, opt_text(input.service));
    let p5 = param("&level="@, opt_text(input.level));
    lemma_param_amp_led("&start="@, opt_text(input.start));
    lemma_param_amp_led("&end="@, opt_text(input.end));
    lemma_param_amp_led("&limit="@, shown_u32(input.limit));
    lemma_param_amp_led("&service="@, opt_text(input.service));
    lemma_param_amp_led("&level="@, opt_text(input.level));
    lemma_amp_led_join(p1, p2);
    lemma_amp_led_join(p1 + p2, p3);
    lemma_amp_led_join(p1 + p2 + p3, p4);
    lemma_amp_led_join(p1 + p2 + p3 + p4, p5);
    let head = "/logs/search?query="@ + url_encoded(input.query@);
    let rest = log_search_filters(input);
    let path = log_search_path(input);
    assert(path.subrange(0, head.len() as int) =~= head);
    assert(path.subrange(head.len() as int, path.len() as int) =~= rest);
}

/// The value of an upper-case hexadecimal digit.
pub open spec fn hex_value(c: char) -> int {
    if c <= '9' {
        c as int - 48
    } else {
        c as int - 55
    }
}

/// Undoes percent-encoding: `%` and two hexadecimal digits give the byte
/// they spell, any other character gives its own code.
pub open spec fn percent_decode(s: Seq<char>) -> Seq<u8>
    decreases s.len(),
{
    if s.len() == 0 {
        seq![]
    } else if s[0] == '%' && s.len() >= 3 {
        seq![(16 * hex_value(s[1]) + hex_value(s[2])) as u8] + percent_decode(s.skip(3))
    } else {
        seq![s[0] as u8] + percent_decode(s.skip(1))
    }
}

/// Decoding a percent-encoded byte sequence gives the bytes back.
pub proof fn lemma_percent_decode_encode(bytes: Seq<u8>)
    ensures
        percent_decode(percent_encode(bytes)) == bytes,
    decreases bytes.len(),
{
    if bytes.len() > 0 {
        let b = bytes[0];
        let head = percent_encode_byte(b);
        let tail = percent_encode(bytes.drop_first());
        let all = percent_encode(bytes);
        assert(all == head + tail);
        lemma_percent_decode_encode(bytes.drop_first());
        if is_unreserved(b) {
            assert(all[0] == b as char);
            assert(all.skip(1) =~= tail);
            assert((b as char) as u8 == b);
        } else {
            let hi = (b / 16) as int;
            let lo = (b % 16) as int;
            assert(hex_value(hex_digit(hi)) == hi);
            assert(hex_value(hex_digit(lo)) == lo);
            assert(all[0] == '%');
            assert(all[1] == hex_digit(hi));
            assert(all[2] == hex_digit(lo));
            assert(all.skip(3) =~= tail);
            assert(16 * hi + lo == b);
        }
        assert(percent_decode(all) =~= bytes);
    }
}

/// Percent-encoding loses nothing: texts with the same encoding are equal,
/// so the backend can recover each query value exactly.
pub proof fn lemma_url_encoding_is_injective(a: Seq<char>, b: Seq<char>)
    requires
        url_encoded(a) == url_encoded(b),
    ensures
        a == b,
{
    lemma_percent_decode_encode(encode_utf8(a));
    lemma_percent_decode_encode(encode_utf8(b));
    encode_utf8_decode_utf8(a);
    encode_utf8_decode_utf8(b);
}

/// `s` begins with `p`.
pub open spec fn starts_with(s: Seq<char>, p: Seq<char>) -> bool {
    p.len() <= s.len() && s.subrange(0, p.len() as int) == p
}

/// A tool's answer starts with `Error: ` exactly when its request failed,
/// provided a successful answer's text does not itself start so (JSON text
/// never does).
pub proof fn lemma_errors_are_marked(outcome: Result<String, String>)
    ensures
        outcome is Err ==> starts_with(rendered_of(outcome), "Error: "@),
        (outcome matches Ok(text) && !starts_with(text@, "Error: "@)) ==> !starts_with(
            rendered_of(outcome),
            "Error: "@,
        ),
{
    if let Err(msg) = outcome {
        let r = rendered_of(outcome);
        assert(r.subrange(0, "Error: "@.len() as int) =~= "Error: "@);
    }
}

/// `t` stands in `s` starting at position `k`.
pub open spec fn occurs_at(s: Seq<char>, t: Seq<char>, k: int) -> bool {
    0 <= k && k + t.len() <= s.len() && s.subrange(k, k + t.len()) == t
}

/// `t` stands somewhere in `s`.
pub open spec fn occurs(s: Seq<char>, t: Seq<char>) -> bool {
    exists|k: int| occurs_at(s, t, k)
}

/// `s` ends with `t`.
pub open spec fn ends_with(s: Seq<char>, t: Seq<char>) -> bool {
    t.len() <= s.len() && s.subrange(s.len() - t.len(), s.len() as int) == t
}

pub proof fn lemma_occurs_self(t: Seq<char>)
    ensures
        occurs(t, t),
{
    assert(t.subrange(0, t.len() as int) =~= t);
    assert(occurs_at(t, t, 0));
}

pub proof fn lemma_occurs_append(x: Seq<char>, y: Seq<char>, t: Seq<char>)
    requires
        occurs(x, t),
    ensures
        occurs(x + y, t),
{
    let k = choose|k: int| occurs_at(x, t, k);
    assert((x + y).subrange(k, k + t.len()) =~= x.subrange(k, k + t.len()));
    assert(occurs_at(x + y, t, k));
}

pub proof fn lemma_occurs_prepend(x: Seq<char>, y: Seq<char>, t: Seq<char>)
    requires
        occurs(y, t),
    ensures
        occurs(x + y, t),
{
    let k = choose|k: int| occurs_at(y, t, k);
    assert((x + y).subrange(x.len() + k, x.len() + k + t.len()) =~= y.subrange(k, k + t.len()));
    assert(occurs_at(x + y, t, x.len() + k));
}

proof fn lemma_ends_with_append(x: Seq<char>, t: Seq<char>)
    ensures
        ends_with(x + t, t),
{
    assert((x + t).subrange(x.len() as int, (x + t).len() as int) =~= t);
}

/// Each part of a text made of six parts stands in it.
pub proof fn lemma_parts_occur(
    a0: Seq<char>,
    a1: Seq<char>,
    a2: Seq<char>,
    a3: Seq<char>,
    a4: Seq<char>,
    a5: Seq<char>,
)
    ensures
        occurs(a0 + a1 + a2 + a3 + a4 + a5, a1),
        occurs(a0 + a1 + a2 + a3 + a4 + a5, a2),
        occurs(a0 + a1 + a2 + a3 + a4 + a5, a3),
        occurs(a0 + a1 + a2 + a3 + a4 + a5, a4),
        occurs(a0 + a1 + a2 + a3 + a4 + a5, a5),
{
    lemma_occurs_self(a1);
    lemma_occurs_prepend(a0, a1, a1);
    lemma_occurs_append(a0 + a1, a2, a1);
    lemma_occurs_append(a0 + a1 + a2, a3, a1);
    lemma_occurs_append(a0 + a1 + a2 + a3, a4, a1);
    lemma_occurs_append(a0 + a1 + a2 + a3 + a4, a5, a1);
    lemma_occurs_self(a2);
    lemma_occurs_prepend(a0 + a1, a2, a2);
    lemma_occurs_append(a0 + a1 + a2, a3, a2);
    lemma_occurs_append(a0 + a1 + a2 + a3, a4, a2);
    lemma_occurs_append(a0 + a1 + a2 + a3 + a4, a5, a2);
    lemma_occurs_self(a3);
    lemma_occurs_prepend(a0 + a1 + a2, a3, a3);
    lemma_occurs_append(a0 + a1 + a2 + a3, a4, a3);
    lemma_occurs_append(a0 + a1 + a2 + a3 + a4, a5, a3);
    lemma_occurs_self(a4);
    lemma_occurs_prepend(a0 + a1 + a2 + a3, a4, a4);
    lemma_occurs_append(a0 + a1 + a2 + a3 + a4, a5, a4);
    lemma_occurs_self(a5);
    lemma_occurs_prepend(a0 + a1 + a2 + a3 + a4, a5, a5);
}

/// Every filter given to a log search appears in its path as its own
/// parameter: `&start=`, `&end=`, `&service=` and `&level=` followed by the
/// given text, and `&limit=` followed by the limit in decimal, whichever
/// other filters are given.
#[verifier::spinoff_prover]
#[verifier::rlimit(40)]
pub proof fn lemma_log_search_keeps_every_filter(input: LogQueryInput)
    ensures
        input.start matches Some(v) ==> occurs(log_search_path(input), "&start="@ + v@),
        input.end matches Some(v) ==> occurs(log_search_path(input), "&end="@ + v@),
        input.limit matches Some(n) ==> occurs(log_search_path(input), "&limit="@ + decimal(n as nat)),
        input.service matches Some(v) ==> occurs(log_search_path(input), "&service="@ + v@),
        input.level matches Some(v) ==> occurs(log_search_path(input), "&level="@ + v@),
{
    let a0 = "/logs/search?query="@ + url_encoded(input.query@);
    let a1 = param("&start="@, opt_text(input.start));
    let a2 = param("&end="@, opt_text(input.end));
    let a3 = param("&limit="@, shown_u32(input.limit));
    let a4 = param("&service="@, opt_text(input.service));
    let a5 = param("&level="@, opt_text(input.level));
    assert(log_search_path(input) =~= a0 + a1 + a2 + a3 + a4 + a5);
    lemma_parts_occur(a0, a1, a2, a3, a4, a5);
}

/// A history query ends with the limit: the given limit in decimal exactly,
/// whatever its size, and twenty only when no limit is given.
pub proof fn lemma_history_limit_is_the_given_one(input: AlertHistoryInput)
    ensures
        input.limit matches Some(n) ==> ends_with(alert_history_path(input), "limit="@ + decimal(n as nat)),
        input.limit is None ==> ends_with(alert_history_path(input), "limit="@ + decimal(20)),
{
    let a = "/alerts/history?"@
        + crate::request::param_amp("alert_id="@, opt_text(input.alert_id))
        + crate::request::param_amp("service="@, opt_text(input.service));
    match input.limit {
        Some(n) => {
            assert(alert_history_path(input) =~= a + ("limit="@ + decimal(n as nat)));
            lemma_ends_with_append(a, "limit="@ + decimal(n as nat));
        },
        None => {
            assert(alert_history_path(input) =~= a + ("limit="@ + decimal(20)));
            lemma_ends_with_append(a, "limit="@ + decimal(20));
        },
    }
}

/// The value a JSON object gives for `key`: that of its last member with
/// this key, as a later member replaces an earlier one.
pub open spec fn member_value(obj: ObjectView, key: Seq<char>) -> Option<JsonVal>
    decreases obj.len(),
{
    if obj.len() == 0 {
        None
    } else if obj.last().0 == key {
        Some(obj.last().1)
    } else {
        member_value(obj.drop_last(), key)
    }
}

/// Adding a member: the new member answers for its key, and every other key
/// keeps its value.
pub proof fn lemma_member_value_push(obj: ObjectView, m: (Seq<char>, JsonVal))
    ensures
        forall|k: Seq<char>|
            #[trigger] member_value(obj.push(m), k) == if m.0 == k {
                Some(m.1)
            } else {
                member_value(obj, k)
            },
{
    assert(obj.push(m).drop_last() =~= obj);
}

/// A new monitor has the type it was given, unchanged, and `http` only when
/// none was given; its interval is the one given, and sixty seconds only when
/// none was given.
pub proof fn lemma_monitor_keeps_given_type_and_interval(input: MonitorCreateInput)
    ensures
        input.monitor_type matches Some(t) ==> member_value(monitor_create_body(input), "type"@)
            == Some(JsonVal::Str(t@)),
        input.monitor_type is None ==> member_value(monitor_create_body(input), "type"@) == Some(
            JsonVal::Str("http"@),
        ),
        input.interval_seconds matches Some(n) ==> member_value(
            monitor_create_body(input),
            "interval_seconds"@,
        ) == Some(JsonVal::Num(n as nat)),
        input.interval_seconds is None ==> member_value(
            monitor_create_body(input),
            "interval_seconds"@,
        ) == Some(JsonVal::Num(60)),
{
    reveal_with_fuel(member_value, 3);
    reveal_strlit("type");
    reveal_strlit("interval_seconds");
    let b = monitor_create_body(input);
    assert(b.last().0 == "interval_seconds"@);
    assert("interval_seconds"@ != "type"@);
    assert(b.drop_last().last().0 == "type"@);
}

/// A live check reports `up` for any answer below 400, `degraded` for any
/// answer from 400 on, and `down` only when the request failed.
pub proof fn lemma_monitor_state(url: Seq<char>, outcome: ProbeOutcome)
    ensures
        outcome matches ProbeOutcome::Responded { status_code, .. } ==> (status_code < 400
            ==> member_value(monitor_report_of(url, outcome), "status"@) == Some(
            JsonVal::Str("up"@),
        )),
        outcome matches ProbeOutcome::Responded { status_code, .. } ==> (status_code >= 400
            ==> member_value(monitor_report_of(url, outcome), "status"@) == Some(
            JsonVal::Str("degraded"@),
        )),
        outcome is Failed ==> member_value(monitor_report_of(url, outcome), "status"@) == Some(
            JsonVal::Str("down"@),
        ),
{
    reveal_with_fuel(member_value, 4);
    reveal_strlit("status");
    reveal_strlit("status_code");
    reveal_strlit("latency_ms");
    reveal_strlit("error");
    let r = monitor_report_of(url, outcome);
    match outcome {
        ProbeOutcome::Responded { .. } => {
            assert(r.last().0 == "latency_ms"@);
            assert("latency_ms"@ != "status"@);
            assert(r.drop_last().last().0 == "status_code"@);
            assert("status_code"@ != "status"@);
            assert(r.drop_last().drop_last().last().0 == "status"@);
        },
        ProbeOutcome::Failed(_) => {
            assert(r.last().0 == "error"@);
            assert("error"@ != "status"@);
            assert(r.drop_last().last().0 == "status"@);
        },
    }
}

/// A range query carries the given end (or `now` when none is given) and
/// the given step (or `60s` when none is given), each independently of the
/// other; the step is the last parameter.
pub proof fn lemma_prometheus_range_keeps_end_and_step(base: Seq<char>, input: PromQueryInput)
    requires
        input.start is Some,
    ensures
        input.end matches Some(e) ==> occurs(prometheus_url_of(base, input), "&end="@ + e@ + "&step="@),
        input.end is None ==> occurs(prometheus_url_of(base, input), "&end="@ + "now"@ + "&step="@),
        input.step matches Some(st) ==> ends_with(prometheus_url_of(base, input), "&step="@ + st@),
        input.step is None ==> ends_with(prometheus_url_of(base, input), "&step="@ + "60s"@),
{
    let url = prometheus_url_of(base, input);
    let head = base + "/api/v1/query_range?query="@ + input.query@ + "&start="@ + input.start->0@;
    let e = crate::backend::text_or(input.end, "now"@);
    let st = crate::backend::text_or(input.step, "60s"@);
    let mid = "&end="@ + e + "&step="@;
    assert(url =~= head + mid + st);
    lemma_occurs_self(mid);
    lemma_occurs_prepend(head, mid, mid);
    lemma_occurs_append(head + mid, st, mid);
    assert(url =~= (head + "&end="@ + e) + ("&step="@ + st));
    lemma_ends_with_append(head + "&end="@ + e, "&step="@ + st);
}

/// The number a string of decimal digits spells, most significant first.
pub open spec fn digits_value(s: Seq<char>) -> int
    decreases s.len(),
{
    if s.len() == 0 {
        0
    } else {
        digits_value(s.drop_last()) * 10 + (s.last() as int - 48)
    }
}

/// The decimal text of a number is made of digits, has no leading zero
/// (zero itself is `0`), and spells that number back.
pub proof fn lemma_decimal_spells_its_number(n: nat)
    ensures
        decimal(n).len() >= 1,
        forall|i: int| 0 <= i < decimal(n).len() ==> '0' <= #[trigger] decimal(n)[i] <= '9',
        decimal(n)[0] != '0' || n == 0,
        digits_value(decimal(n)) == n,
    decreases n,
{
    if n < 10 {
        assert(digit_char(n as int) as int == 48 + n);
        assert(decimal(n).last() == digit_char(n as int));
        assert(decimal(n).drop_last() =~= Seq::<char>::empty());
        assert(digits_value(Seq::<char>::empty()) == 0);
    } else {
        let d = decimal(n / 10);
        lemma_decimal_spells_its_number(n / 10);
        let c = digit_char((n % 10) as int);
        assert(c as int == 48 + n % 10);
        assert(decimal(n) == d.push(c));
        assert(decimal(n).drop_last() =~= d);
        assert(digits_value(decimal(n)) == (n / 10) * 10 + n % 10);
        assert forall|i: int| 0 <= i < decimal(n).len() implies '0' <= #[trigger] decimal(n)[i]
            <= '9' by {
            if i < d.len() {
                assert(decimal(n)[i] == d[i]);
            }
        }
    }
}

} // verus!
