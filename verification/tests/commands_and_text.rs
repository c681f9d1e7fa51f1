use proxudesktop::api::PaymentStatusResponse;
use proxudesktop::api::json_response;
use proxudesktop::commands::{
    get_login_url, ip_check_failure, ip_check_report, latency_probe_url, latency_report, min_latency,
    navigation_credentials, payment_succeeded, store_login,
};
use proxudesktop::commands::{payment_poll_step, PollStep, PAYMENT_POLL_ATTEMPTS, PAYMENT_POLL_SECONDS};
use proxudesktop::config::{default_ip_check_url, default_latency_url, AppConfig};
use proxudesktop::json::{Json, JsonNumber};
use proxudesktop::text::{contains, ends_with, i64_to_string, join, starts_with, str_eq, trim_str, u64_to_string};

#[test]
fn login_url() {
    assert_eq!(get_login_url(), "https://proxu.pro/login?redirect=app");
}

#[test]
fn login_credentials_from_app_scheme() {
    let (t, e) = navigation_credentials("proxu-desktop://auth?token=abc%20d&email=a%40b.c").unwrap();
    assert_eq!(t, "abc d");
    assert_eq!(e, "a@b.c");
}

#[test]
fn login_credentials_need_watched_url_and_token() {
    assert!(navigation_credentials("https://proxu.pro/dashboard?tok=1").is_none());
    assert!(navigation_credentials("https://proxu.pro/cb?token=&email=x").is_none());
    assert!(navigation_credentials("not a url").is_none());
    let (t, e) = navigation_credentials("https://proxu.pro/cb?token=t1&token=t2").unwrap();
    assert_eq!(t, "t2");
    assert_eq!(e, "");
}

#[test]
fn stored_login() {
    let mut cfg = AppConfig::default();
    store_login(&mut cfg, "tok".to_string(), "".to_string());
    assert_eq!(cfg.token.as_deref(), Some("tok"));
    assert_eq!(cfg.email, None);
    store_login(&mut cfg, "tok2".to_string(), "me@x.y".to_string());
    assert_eq!(cfg.email.as_deref(), Some("me@x.y"));
}

#[test]
fn latency_url_and_minimum() {
    assert_eq!(latency_probe_url("https://www.gstatic.com/generate_204"), "http://www.gstatic.com/generate_204");
    assert_eq!(latency_probe_url("http://a/b"), "http://a/b");
    assert_eq!(min_latency(&vec![120, 80]), 80);
    assert_eq!(min_latency(&vec![0, 5]), 1);
    assert_eq!(min_latency(&vec![]), 1);
}

#[test]
fn latency_report_shape() {
    let r = latency_report(&vec![30, 20]);
    assert_eq!(r.index("success"), Json::Bool(true));
    assert_eq!(r.index("latency_ms"), Json::unsigned(20));
    assert_eq!(r.index("measurements"), Json::Array(vec![Json::unsigned(30), Json::unsigned(20)]));
}

#[test]
fn ip_check_reports() {
    let r = ip_check_report(true, 200, r#"{"ip":"1.2.3.4","country":"NL","isp":"ISP"}"#, 55);
    assert_eq!(r.index("success"), Json::Bool(true));
    assert_eq!(r.index("ip"), Json::string("1.2.3.4"));
    assert_eq!(r.index("country"), Json::string("NL"));
    assert_eq!(r.index("city"), Json::string(""));
    assert_eq!(r.index("isp"), Json::string("ISP"));
    assert_eq!(r.index("raw").index("ip"), Json::string("1.2.3.4"));
    assert_eq!(r.index("latency_ms"), Json::unsigned(55));
    let r = ip_check_report(true, 200, "<html>", 5);
    assert_eq!(r.index("ip"), Json::string("unknown"));
    assert_eq!(r.index("raw"), Json::empty_object());
    let r = ip_check_report(false, 503, "x", 9);
    assert_eq!(r.index("success"), Json::Bool(false));
    assert_eq!(r.index("error"), Json::string("HTTP 503"));
    let r = ip_check_failure("timed out", 10000);
    assert_eq!(r.index("error"), Json::string("timed out"));
    assert_eq!(r.index("latency_ms"), Json::unsigned(10000));
}

#[test]
fn payment_success_statuses() {
    for (st, ok) in [("succeeded", true), ("success", true), ("completed", true), ("pending", false), ("", false)] {
        let p = PaymentStatusResponse { status: Some(st.to_string()), payment_id: None };
        assert_eq!(payment_succeeded(&p), ok);
    }
    assert!(!payment_succeeded(&PaymentStatusResponse { status: None, payment_id: None }));
}

#[test]
fn default_settings() {
    let c = AppConfig::default();
    assert_eq!(c.socks_port, 10808);
    assert_eq!(c.http_port, 10809);
    assert_eq!(c.latency_test_url, default_latency_url());
    assert_eq!(c.ip_check_url, default_ip_check_url());
    assert_eq!(default_latency_url(), "https://www.gstatic.com/generate_204");
    assert_eq!(default_ip_check_url(), "https://api.ip.sb/geoip");
    assert!(c.proxies.is_empty());
    assert_eq!(c.token, None);
}

#[test]
fn text_helpers() {
    assert_eq!(trim_str("\u{3000} a b \t"), "a b");
    assert!(starts_with("vless://x", "vless://"));
    assert!(ends_with("a:10808", ":10808"));
    assert!(contains("xxESTABxx", "ESTAB"));
    assert!(!contains("EST", "ESTAB"));
    assert!(str_eq("a", "a") && !str_eq("a", "b"));
    assert_eq!(join("ab", "cd"), "abcd");
    assert_eq!(u64_to_string(0), "0");
    assert_eq!(u64_to_string(u64::MAX), "18446744073709551615");
    assert_eq!(i64_to_string(i64::MIN), "-9223372036854775808");
}

#[test]
fn json_parse_and_edit() {
    let v = json_response(true, "200 OK", r#"{"a":1,"b":[true,null],"c":-2,"d":1.5,"e":"x"}"#, "test").unwrap();
    assert_eq!(v.index("a"), Json::Number(JsonNumber::PosInt(1)));
    assert_eq!(v.index("b"), Json::Array(vec![Json::Bool(true), Json::Null]));
    assert_eq!(v.index("c"), Json::Number(JsonNumber::NegInt(-2)));
    assert_eq!(v.index("d"), Json::Number(JsonNumber::Float("1.5".to_string())));
    assert_eq!(v.index("missing"), Json::Null);
    assert!(json_response(true, "200 OK", "{", "test").unwrap_err().starts_with("Failed parse test JSON: "));
    assert_eq!(
        json_response(false, "404 Not Found", "missing", "test").unwrap_err(),
        "Server returned error code: 404 Not Found: missing"
    );
    let w = v.put("a".to_string(), Json::string("new"));
    assert_eq!(w.index("a"), Json::string("new"));
    assert_eq!(w.index("e"), Json::string("x"));
    let x = Json::Null.put("k".to_string(), Json::Bool(false));
    assert_eq!(x.index("k"), Json::Bool(false));
    let y = Json::Bool(true).put("k".to_string(), Json::Null);
    assert_eq!(y, Json::Bool(true));
}

#[test]
fn json_number_readings() {
    assert_eq!(Json::unsigned(5).as_i64(), Some(5));
    assert_eq!(Json::signed(-5).as_u64(), None);
    assert_eq!(Json::unsigned(u64::MAX).as_i64(), None);
    assert_eq!(Json::string("5").as_u64(), None);
    assert_eq!(Json::string("s").as_str().as_deref(), Some("s"));
}

#[test]
fn payment_poll_steps() {
    let done: Result<PaymentStatusResponse, String> =
        Ok(PaymentStatusResponse { status: Some("completed".to_string()), payment_id: None });
    let pending: Result<PaymentStatusResponse, String> =
        Ok(PaymentStatusResponse { status: Some("pending".to_string()), payment_id: None });
    let failed: Result<PaymentStatusResponse, String> = Err("Network request failed: x".to_string());
    assert_eq!(PAYMENT_POLL_SECONDS, 5);
    assert_eq!(PAYMENT_POLL_ATTEMPTS, 60);
    assert_eq!(payment_poll_step(0, &done, false), PollStep::Succeeded);
    assert_eq!(payment_poll_step(3, &pending, false), PollStep::WindowClosed);
    assert_eq!(payment_poll_step(3, &failed, true), PollStep::PollAgain);
    assert_eq!(payment_poll_step(58, &pending, true), PollStep::PollAgain);
    assert_eq!(payment_poll_step(59, &pending, true), PollStep::TimedOut);
    assert_eq!(payment_poll_step(59, &done, true), PollStep::Succeeded);
    for attempt in 59..70 {
        assert_ne!(payment_poll_step(attempt, &failed, true), PollStep::PollAgain);
    }
}
