//! The decisions of the application's commands: login callback, latency
//! and address checks, payment polling.
use vstd::prelude::*;
use crate::json::{Json, JsonV, json_index, json_get, json_as_str, json_text_parse, parse_json, obj3, obj7, text};
use crate::text::{has_prefix, has_infix, decimal, contains, starts_with, join, u64_to_string, chars_of, string_from_chars, str_eq};
use crate::urls::{UrlParts, UrlPartsV, opt_view, parse_url, url_parse};
use crate::xray::{last_value, or_default, lookup_last};
use crate::config::AppConfig;
use crate::api::PaymentStatusResponse;

verus! {

/// The page where the user logs in.
pub fn get_login_url() -> (r: String)
    ensures
        r@ == "https://proxu.pro/login?redirect=app"@,
{
    String::from_str("https://proxu.pro/login?redirect=app")
}

/// The token and e-mail address that a navigation of the login window
/// hands back: only for the application's own scheme or a query holding
/// `token=`, the last `token` and `email` query values, and only when the
/// token is not empty.
pub open spec fn login_credentials_spec(u: UrlPartsV) -> Option<(Seq<char>, Seq<char>)> {
    let watched = u.scheme == "proxu-desktop"@ || (match u.query {
        Some(q) => has_infix(q, "token="@),
        None => false,
    });
    if !watched {
        None
    } else {
        let token = or_default(last_value(u.query_pairs, "token"@), Seq::empty());
        let email = or_default(last_value(u.query_pairs, "email"@), Seq::empty());
        if token.len() > 0 {
            Some((token, email))
        } else {
            None
        }
    }
}

/// A navigation logs the user in only with a non-empty token: the last
/// `token` value of its query, together with the last `email` value (empty
/// when there is none). A navigation to the application's own scheme that
/// carries a non-empty token always logs in; one without a token never does.
pub proof fn law_login_needs_token(u: UrlPartsV)
    ensures
        last_value(u.query_pairs, "token"@) is None ==> login_credentials_spec(u) is None,
        login_credentials_spec(u) matches Some(c) ==> {
            &&& c.0.len() > 0
            &&& last_value(u.query_pairs, "token"@) == Some(c.0)
            &&& c.1 == or_default(last_value(u.query_pairs, "email"@), Seq::empty())
        },
        u.scheme == "proxu-desktop"@ && (last_value(u.query_pairs, "token"@) matches Some(t) && t.len() > 0)
            ==> login_credentials_spec(u) is Some,
{
}

/// The credentials that a navigation of the login window hands back.
pub fn login_credentials(u: &UrlParts) -> (r: Option<(String, String)>)
    ensures
        match r {
            Some((t, e)) => login_credentials_spec(u@) == Some((t@, e@)),
            None => login_credentials_spec(u@) is None,
        },
{
    proof {
        reveal_strlit("");
    }
    assert(""@ =~= Seq::<char>::empty());
    let watched = str_eq(u.scheme.as_str(), "proxu-desktop") || match &u.query {
        Some(q) => contains(q.as_str(), "token="),
        None => false,
    };
    if !watched {
        return None;
    }
    let token = match lookup_last(&u.query_pairs, "token") {
        Some(t) => t,
        None => String::from_str(""),
    };
    let email = match lookup_last(&u.query_pairs, "email") {
        Some(e) => e,
        None => String::from_str(""),
    };
    if token.as_str().unicode_len() > 0 {
        Some((token, email))
    } else {
        None
    }
}

/// The credentials that the login window's navigation to `url` hands back:
/// none for a URL that does not parse.
pub fn navigation_credentials(url: &str) -> (r: Option<(String, String)>)
    ensures
        match r {
            Some((t, e)) => (url_parse(url@) matches Ok(u) && login_credentials_spec(u) == Some((t@, e@))),
            None => (url_parse(url@) matches Ok(u) ==> login_credentials_spec(u) is None),
        },
{
    match parse_url(url) {
        Ok(u) => login_credentials(&u),
        Err(_) => None,
    }
}

/// Stores the credentials of a login: the token, and the e-mail address
/// when it is not empty.
pub fn store_login(config: &mut AppConfig, token: String, email: String)
    ensures
        opt_view(final(config).token) == Some(token@),
        opt_view(final(config).email) == (if email@.len() > 0 {
            Some(email@)
        } else {
            opt_view(old(config).email)
        }),
        *final(config) == (AppConfig { token: final(config).token, email: final(config).email, ..*old(config) }),
{
    config.token = Some(token);
    if email.as_str().unicode_len() > 0 {
        config.email = Some(email);
    }
}

/// The URL that the latency test fetches: plain HTTP where the setting
/// names HTTPS.
pub open spec fn latency_probe_url_spec(u: Seq<char>) -> Seq<char> {
    if has_prefix(u, "https://"@) {
        "http://"@ + u.skip(8)
    } else {
        u
    }
}

/// The latency test never fetches over HTTPS: an HTTPS URL is fetched over
/// plain HTTP at the same address, any other URL as it stands, and asking
/// again changes nothing.
pub proof fn law_latency_probe_plain_http(u: Seq<char>)
    ensures
        !has_prefix(latency_probe_url_spec(u), "https://"@),
        has_prefix(u, "https://"@) ==> has_prefix(latency_probe_url_spec(u), "http://"@)
            && latency_probe_url_spec(u).skip(7) == u.skip(8),
        !has_prefix(u, "https://"@) ==> latency_probe_url_spec(u) == u,
        latency_probe_url_spec(latency_probe_url_spec(u)) == latency_probe_url_spec(u),
{
    reveal_strlit("https://");
    reveal_strlit("http://");
    if has_prefix(u, "https://"@) {
        let r = "http://"@ + u.skip(8);
        assert(r.take(7) =~= "http://"@);
        assert(r.skip(7) =~= u.skip(8));
        assert(u.take(8)[4] == 's');
        if r.len() >= 8 {
            assert(r.take(8)[4] == ':');
            assert(r.take(8) != "https://"@);
        }
    }
}

/// The URL that the latency test fetches.
pub fn latency_probe_url(url: &str) -> (r: String)
    ensures
        r@ == latency_probe_url_spec(url@),
{
    if starts_with(url, "https://") {
        proof {
            reveal_strlit("https://");
        }
        let cs = chars_of(url);
        let mut rest: Vec<char> = Vec::new();
        let mut i: usize = 8;
        while i < cs.len()
            invariant
                8 <= i <= cs@.len(),
                rest@ == cs@.subrange(8, i as int),
            decreases cs@.len() - i,
        {
            rest.push(cs[i]);
            i = i + 1;
            proof {
                assert(rest@ =~= cs@.subrange(8, i as int));
            }
        }
        assert(rest@ =~= url@.skip(8));
        let r = string_from_chars(rest.as_slice());
        join("http://", r.as_str())
    } else {
        String::from_str(url)
    }
}

/// The least of the measurements.
pub open spec fn seq_min(s: Seq<u64>) -> u64
    recommends
        s.len() > 0,
    decreases s.len(),
{
    if s.len() <= 1 {
        s[0]
    } else {
        let m = seq_min(s.drop_last());
        if s.last() < m {
            s.last()
        } else {
            m
        }
    }
}

/// The latency reported: the least measurement, at least 1 (1 when there is
/// none).
pub open spec fn reported_latency(ms: Seq<u64>) -> u64 {
    if ms.len() == 0 {
        1
    } else if seq_min(ms) < 1 {
        1
    } else {
        seq_min(ms)
    }
}

/// The latency reported for the measurements.
pub fn min_latency(ms: &Vec<u64>) -> (r: u64)
    ensures
        r == reported_latency(ms@),
{
    if ms.len() == 0 {
        return 1;
    }
    let mut m = ms[0];
    let mut i: usize = 1;
    while i < ms.len()
        invariant
            1 <= i <= ms@.len(),
            m == seq_min(ms@.take(i as int)),
        decreases ms@.len() - i,
    {
        proof {
            assert(ms@.take(i + 1).drop_last() =~= ms@.take(i as int));
        }
        if ms[i] < m {
            m = ms[i];
        }
        i = i + 1;
    }
    assert(ms@.take(i as int) =~= ms@);
    if m < 1 {
        1
    } else {
        m
    }
}

/// The least measurement is at most every measurement, and is one of them.
pub proof fn law_seq_min_is_least(s: Seq<u64>)
    requires
        s.len() > 0,
    ensures
        forall|i: int| 0 <= i < s.len() ==> seq_min(s) <= #[trigger] s[i],
        exists|i: int| 0 <= i < s.len() && s[i] == seq_min(s),
    decreases s.len(),
{
    if s.len() > 1 {
        law_seq_min_is_least(s.drop_last());
        let w = choose|i: int| 0 <= i < s.len() - 1 && s.drop_last()[i] == seq_min(s.drop_last());
        assert forall|i: int| 0 <= i < s.len() implies seq_min(s) <= #[trigger] s[i] by {
            if i < s.len() - 1 {
                assert(s[i] == s.drop_last()[i]);
            }
        }
        if s.last() < seq_min(s.drop_last()) {
            assert(s[s.len() - 1] == seq_min(s));
        } else {
            assert(s[w] == seq_min(s));
        }
    } else {
        assert(s[0] == seq_min(s));
    }
}

/// The reported latency is at least 1 ms, at most every measurement of at
/// least 1 ms, and is one of the measurements unless it is the floor of 1.
pub proof fn law_reported_latency_is_least(ms: Seq<u64>)
    ensures
        reported_latency(ms) >= 1,
        forall|i: int| 0 <= i < ms.len() && ms[i] >= 1 ==> reported_latency(ms) <= #[trigger] ms[i],
        reported_latency(ms) == 1 || exists|i: int| 0 <= i < ms.len() && #[trigger] ms[i] == reported_latency(ms),
{
    if ms.len() > 0 {
        law_seq_min_is_least(ms);
    }
}

/// The outcome of an address check whose request got an answer: on success
/// the address, country, city and provider that the reply names (`unknown`
/// or empty when it does not), the whole reply (an empty object when it is
/// not JSON) and the time taken; else the HTTP status.
pub open spec fn ip_check_report_spec(success: bool, status: u16, body: Seq<char>, latency_ms: u64) -> JsonV {
    if success {
        let json = match json_text_parse(body) {
            Ok(v) => v,
            Err(_) => JsonV::Object(Seq::empty()),
        };
        JsonV::Object(
            seq![
                ("success"@, JsonV::Bool(true)),
                ("ip"@, JsonV::Str(or_default(json_as_str(json_index(json, "ip"@)), "unknown"@))),
                ("country"@, JsonV::Str(or_default(json_as_str(json_index(json, "country"@)), Seq::empty()))),
                ("city"@, JsonV::Str(or_default(json_as_str(json_index(json, "city"@)), Seq::empty()))),
                ("isp"@, JsonV::Str(or_default(json_as_str(json_index(json, "isp"@)), Seq::empty()))),
                ("raw"@, json),
                ("latency_ms"@, JsonV::Int(latency_ms as int)),
            ],
        )
    } else {
        JsonV::Object(
            seq![
                ("success"@, JsonV::Bool(false)),
                ("error"@, JsonV::Str("HTTP "@ + decimal(status as nat))),
                ("latency_ms"@, JsonV::Int(latency_ms as int)),
            ],
        )
    }
}

fn member_text_or(v: &Json, k: &str, d: &str) -> (r: Json)
    ensures
        r@ == JsonV::Str(or_default(json_as_str(json_index(v@, k@)), d@)),
{
    match v.index(k).as_str() {
        Some(s) => Json::Str(s),
        None => Json::string(d),
    }
}

/// The reply that an address check reads: the body as JSON, or an empty
/// object when it is not JSON.
pub open spec fn ip_check_reply(body: Seq<char>) -> JsonV {
    match json_text_parse(body) {
        Ok(v) => v,
        Err(_) => JsonV::Object(Seq::empty()),
    }
}

/// An address check reports whether it succeeded and how long it took; a
/// successful one reports the address that the reply names (`unknown` when
/// it names none) and the whole reply, a failed one the HTTP status.
pub proof fn law_ip_check_report(success: bool, status: u16, body: Seq<char>, latency_ms: u64)
    ensures
        ({
            let r = ip_check_report_spec(success, status, body, latency_ms);
            let reply = ip_check_reply(body);
            &&& json_get(r, "success"@) == Some(JsonV::Bool(success))
            &&& json_get(r, "latency_ms"@) == Some(JsonV::Int(latency_ms as int))
            &&& success ==> json_get(r, "ip"@) == Some(
                JsonV::Str(or_default(json_as_str(json_index(reply, "ip"@)), "unknown"@)),
            )
            &&& success ==> json_get(r, "raw"@) == Some(reply)
            &&& !success ==> json_get(r, "error"@) == Some(JsonV::Str("HTTP "@ + decimal(status as nat)))
        }),
{
    reveal_strlit("success");
    reveal_strlit("ip");
    reveal_strlit("country");
    reveal_strlit("city");
    reveal_strlit("isp");
    reveal_strlit("raw");
    reveal_strlit("latency_ms");
    reveal_strlit("error");
    assert("ip"@ != "success"@) by {
        assert("ip"@.len() != "success"@.len());
    }
    assert("raw"@ != "success"@ && "raw"@ != "ip"@ && "raw"@ != "country"@ && "raw"@ != "city"@ && "raw"@
        != "isp"@) by {
        assert("raw"@.len() != "success"@.len());
        assert("raw"@.len() != "ip"@.len());
        assert("raw"@.len() != "country"@.len());
        assert("raw"@.len() != "city"@.len());
        assert("raw"@[0] != "isp"@[0]);
    }
    assert("latency_ms"@ != "success"@ && "latency_ms"@ != "ip"@ && "latency_ms"@ != "country"@
        && "latency_ms"@ != "city"@ && "latency_ms"@ != "isp"@ && "latency_ms"@ != "raw"@ && "latency_ms"@
        != "error"@) by {
        assert("latency_ms"@.len() != "success"@.len());
        assert("latency_ms"@.len() != "ip"@.len());
        assert("latency_ms"@.len() != "country"@.len());
        assert("latency_ms"@.len() != "city"@.len());
        assert("latency_ms"@.len() != "isp"@.len());
        assert("latency_ms"@.len() != "raw"@.len());
        assert("latency_ms"@.len() != "error"@.len());
    }
    assert("error"@ != "success"@) by {
        assert("error"@.len() != "success"@.len());
    }
    let r = ip_check_report_spec(success, status, body, latency_ms);
    let fs = r->Object_0;
    assert(crate::json::field_pos(fs, "success"@, 0) == 0);
    if success {
        assert(crate::json::field_pos(fs, "ip"@, 1) == 1);
        assert(crate::json::field_pos(fs, "ip"@, 0) == 1);
        assert(crate::json::field_pos(fs, "raw"@, 5) == 5);
        assert(crate::json::field_pos(fs, "raw"@, 4) == 5);
        assert(crate::json::field_pos(fs, "raw"@, 3) == 5);
        assert(crate::json::field_pos(fs, "raw"@, 2) == 5);
        assert(crate::json::field_pos(fs, "raw"@, 1) == 5);
        assert(crate::json::field_pos(fs, "raw"@, 0) == 5);
        assert(crate::json::field_pos(fs, "latency_ms"@, 6) == 6);
        assert(crate::json::field_pos(fs, "latency_ms"@, 5) == 6);
        assert(crate::json::field_pos(fs, "latency_ms"@, 4) == 6);
        assert(crate::json::field_pos(fs, "latency_ms"@, 3) == 6);
        assert(crate::json::field_pos(fs, "latency_ms"@, 2) == 6);
        assert(crate::json::field_pos(fs, "latency_ms"@, 1) == 6);
        assert(crate::json::field_pos(fs, "latency_ms"@, 0) == 6);
    } else {
        assert(crate::json::field_pos(fs, "error"@, 1) == 1);
        assert(crate::json::field_pos(fs, "error"@, 0) == 1);
        assert(crate::json::field_pos(fs, "latency_ms"@, 2) == 2);
        assert(crate::json::field_pos(fs, "latency_ms"@, 1) == 2);
        assert(crate::json::field_pos(fs, "latency_ms"@, 0) == 2);
    }
}

/// The outcome of an address check whose request got an answer.
pub fn ip_check_report(success: bool, status: u16, body: &str, latency_ms: u64) -> (r: Json)
    ensures
        r@ == ip_check_report_spec(success, status, body@, latency_ms),
{
    proof {
        reveal_strlit("");
    }
    assert(""@ =~= Seq::<char>::empty());
    if success {
        let json = match parse_json(body) {
            Ok(v) => v,
            Err(_) => Json::empty_object(),
        };
        let ip = member_text_or(&json, "ip", "unknown");
        let country = member_text_or(&json, "country", "");
        let city = member_text_or(&json, "city", "");
        let isp = member_text_or(&json, "isp", "");
        obj7(
            "success",
            Json::Bool(true),
            "ip",
            ip,
            "country",
            country,
            "city",
            city,
            "isp",
            isp,
            "raw",
            json,
            "latency_ms",
            Json::unsigned(latency_ms),
        )
    } else {
        let code = u64_to_string(status as u64);
        obj3(
            "success",
            Json::Bool(false),
            "error",
            Json::Str(join("HTTP ", code.as_str())),
            "latency_ms",
            Json::unsigned(latency_ms),
        )
    }
}

/// The outcome of an address check whose request failed.
pub fn ip_check_failure(error: &str, latency_ms: u64) -> (r: Json)
    ensures
        r@ == JsonV::Object(
            seq![
                ("success"@, JsonV::Bool(false)),
                ("error"@, JsonV::Str(error@)),
                ("latency_ms"@, JsonV::Int(latency_ms as int)),
            ],
        ),
{
    obj3(
        "success",
        Json::Bool(false),
        "error",
        Json::string(error),
        "latency_ms",
        Json::unsigned(latency_ms),
    )
}

/// The outcome of a latency test.
pub fn latency_report(ms: &Vec<u64>) -> (r: Json)
    ensures
        r@ == JsonV::Object(
            seq![
                ("success"@, JsonV::Bool(true)),
                ("latency_ms"@, JsonV::Int(reported_latency(ms@) as int)),
                ("measurements"@, JsonV::Array(ms@.map_values(|m: u64| JsonV::Int(m as int)))),
            ],
        ),
{
    let mut arr = Json::empty_array();
    let n = ms.len();
    assert(ms@.take(0).map_values(|m: u64| JsonV::Int(m as int)) =~= Seq::<JsonV>::empty());
    for i in 0..n
        invariant
            n == ms@.len(),
            arr@ == JsonV::Array(ms@.take(i as int).map_values(|m: u64| JsonV::Int(m as int))),
    {
        let ghost before = crate::json::elements(arr@);
        arr = arr.element(Json::unsigned(ms[i]));
        proof {
            assert(ms@.take(i + 1).map_values(|m: u64| JsonV::Int(m as int)) =~= before.push(
                JsonV::Int(ms@[i as int] as int),
            ));
        }
    }
    proof {
        assert(ms@.take(n as int) =~= ms@);
    }
    obj3("success", Json::Bool(true), "latency_ms", Json::unsigned(min_latency(ms)), "measurements", arr)
}

/// The statuses that mean a payment went through.
pub open spec fn payment_done(status: Seq<char>) -> bool {
    status == "succeeded"@ || status == "success"@ || status == "completed"@
}

/// Whether a polled payment status means the payment went through.
pub fn payment_succeeded(status: &PaymentStatusResponse) -> (r: bool)
    ensures
        r == (match status.status {
            Some(s) => payment_done(s@),
            None => false,
        }),
{
    match &status.status {
        Some(s) => str_eq(s.as_str(), "succeeded") || str_eq(s.as_str(), "success") || str_eq(
            s.as_str(),
            "completed",
        ),
        None => false,
    }
}

/// How long the payment window waits between two polls of the status, in
/// seconds.
pub const PAYMENT_POLL_SECONDS: u64 = 5;

/// How many times the payment status is polled at most.
pub const PAYMENT_POLL_ATTEMPTS: u32 = 60;

/// What the payment window does after a poll of the payment status.
#[derive(Debug, Clone, Copy, PartialEq, Eq, Structural)]
pub enum PollStep {
    /// The payment went through: report it and close the window.
    Succeeded,
    /// The user closed the window: stop polling.
    WindowClosed,
    /// The last poll was made without success: stop polling.
    TimedOut,
    /// Wait, then poll again.
    PollAgain,
}

/// The step after poll number `attempt` (counted from 0): success first,
/// then a closed window, then the end of the polls.
pub open spec fn poll_step_spec(attempt: nat, succeeded: bool, window_open: bool) -> PollStep {
    if succeeded {
        PollStep::Succeeded
    } else if !window_open {
        PollStep::WindowClosed
    } else if attempt + 1 >= PAYMENT_POLL_ATTEMPTS {
        PollStep::TimedOut
    } else {
        PollStep::PollAgain
    }
}

/// Whether a poll found the payment done; a failed poll did not.
pub open spec fn poll_succeeded(polled: Result<PaymentStatusResponse, String>) -> bool {
    match polled {
        Ok(s) => match s.status {
            Some(t) => payment_done(t@),
            None => false,
        },
        Err(_) => false,
    }
}

/// The step after poll number `attempt`, from what the poll returned and
/// whether the payment window is still open.
pub fn payment_poll_step(attempt: u32, polled: &Result<PaymentStatusResponse, String>, window_open: bool) -> (r: PollStep)
    ensures
        r == poll_step_spec(attempt as nat, poll_succeeded(*polled), window_open),
{
    let succeeded = match polled {
        Ok(s) => payment_succeeded(s),
        Err(_) => false,
    };
    if succeeded {
        PollStep::Succeeded
    } else if !window_open {
        PollStep::WindowClosed
    } else if attempt >= PAYMENT_POLL_ATTEMPTS - 1 {
        PollStep::TimedOut
    } else {
        PollStep::PollAgain
    }
}

/// Polling always ends: no poll from the last one on asks for another.
pub proof fn law_payment_polls_end(attempt: nat, succeeded: bool, window_open: bool)
    requires
        attempt + 1 >= PAYMENT_POLL_ATTEMPTS,
    ensures
        poll_step_spec(attempt, succeeded, window_open) != PollStep::PollAgain,
{
}

} // verus!
