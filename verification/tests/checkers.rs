use backend::checkers::aws_billing::{
    aws_credentials_from_config, billing_period_end, billing_period_start, cost_amount_text, cost_request_body,
    month_start_or_default,
};
use backend::checkers::http::HttpChecker;
use backend::checkers::preflight::{CommandOutcome, PreflightChecker};
use backend::checkers::{build_checker, Checker, ConfigError};
use backend::json::{JsonNumber, JsonValue};
use backend::models::check_result::CheckStatus;

fn s(x: &str) -> String {
    x.to_string()
}

fn text(x: &str) -> JsonValue {
    JsonValue::String(s(x))
}

fn uint(n: u64) -> JsonValue {
    JsonValue::Number(JsonNumber::PosInt(n))
}

fn obj(members: Vec<(&str, JsonValue)>) -> JsonValue {
    JsonValue::Object(members.into_iter().map(|(k, v)| (s(k), v)).collect())
}

fn invalid_message<T>(r: Result<T, ConfigError>) -> String {
    match r {
        Err(ConfigError::InvalidConfig(m)) => m,
        _ => panic!("expected an invalid configuration"),
    }
}

#[test]
fn http_config_requires_url() {
    let r = HttpChecker::from_config(&obj(vec![("method", text("post"))]));
    assert_eq!(invalid_message(r), "http checker requires 'url'");
    let r = HttpChecker::from_config(&obj(vec![("url", uint(5))]));
    assert_eq!(invalid_message(r), "http checker requires 'url'");
    let r = HttpChecker::from_config(&JsonValue::Null);
    assert_eq!(invalid_message(r), "http checker requires 'url'");
}

#[test]
fn http_config_defaults() {
    let c = HttpChecker::from_config(&obj(vec![("url", text("http://x"))])).unwrap();
    assert_eq!(c.url, "http://x");
    assert_eq!(c.method, "GET");
    assert_eq!(c.expected_status, 200);
    assert_eq!(c.timeout_ms, 10_000);
    assert_eq!(c.degraded_ms, None);
    assert!(c.headers.is_empty());
}

#[test]
fn http_config_reads_all_fields() {
    let config = obj(vec![
        ("url", text("https://example.org/health")),
        ("method", text("post")),
        ("expected_status", uint(204)),
        ("timeout_ms", uint(2500)),
        ("degraded_ms", uint(300)),
        ("headers", obj(vec![("Accept", text("text/plain")), ("X-Count", uint(3)), ("X-Token", text("t"))])),
    ]);
    let c = HttpChecker::from_config(&config).unwrap();
    assert_eq!(c.method, "POST");
    assert_eq!(c.expected_status, 204);
    assert_eq!(c.timeout_ms, 2500);
    assert_eq!(c.degraded_ms, Some(300));
    assert_eq!(c.headers, vec![(s("Accept"), s("text/plain")), (s("X-Token"), s("t"))]);
}

#[test]
fn http_method_is_upper_cased_by_unicode_rules() {
    let c = HttpChecker::from_config(&obj(vec![("url", text("u")), ("method", text("straße"))])).unwrap();
    assert_eq!(c.method, "STRASSE");
    let c = HttpChecker::from_config(&obj(vec![("url", text("u")), ("method", uint(1))])).unwrap();
    assert_eq!(c.method, "GET");
}

#[test]
fn http_config_expected_status_keeps_low_bits() {
    let c = HttpChecker::from_config(&obj(vec![("url", text("u")), ("expected_status", uint(65536 + 201))])).unwrap();
    assert_eq!(c.expected_status, 201);
    // A negative or fractional status is not a u64: the default applies.
    let c = HttpChecker::from_config(&obj(vec![
        ("url", text("u")),
        ("expected_status", JsonValue::Number(JsonNumber::NegInt(-1))),
        ("timeout_ms", JsonValue::Number(JsonNumber::Float(s("1.5")))),
    ]))
    .unwrap();
    assert_eq!(c.expected_status, 200);
    assert_eq!(c.timeout_ms, 10_000);
}

#[test]
fn http_config_first_duplicate_key_wins() {
    let c = HttpChecker::from_config(&obj(vec![("url", text("a")), ("url", text("b"))])).unwrap();
    assert_eq!(c.url, "a");
}

fn http(expected: u16, degraded: Option<u64>) -> HttpChecker {
    HttpChecker { url: s("u"), method: s("GET"), expected_status: expected, timeout_ms: 1000, degraded_ms: degraded, headers: vec![] }
}

#[test]
fn http_request_method_falls_back_to_get() {
    let mut c = http(200, None);
    c.method = s("POST");
    assert_eq!(c.request_method(), reqwest::Method::POST);
    c.method = s("PURGE");
    assert_eq!(c.request_method().as_str(), "PURGE");
    c.method = s("BAD METHOD");
    assert_eq!(c.request_method(), reqwest::Method::GET);
    c.method = s("");
    assert_eq!(c.request_method(), reqwest::Method::GET);
    c.method = s("STRASSE\u{e9}");
    assert_eq!(c.request_method(), reqwest::Method::GET);
}

#[test]
fn http_failed_request_is_down() {
    let out = http(200, None).evaluate(Err(s("connection refused")), 12);
    assert_eq!(out.status, CheckStatus::Down);
    assert_eq!(out.response_ms, Some(12));
    assert_eq!(out.detail, None);
    assert_eq!(out.error_message, Some(s("connection refused")));
}

#[test]
fn http_status_codes_classify() {
    let out = http(200, Some(100)).evaluate(Ok(500), 5);
    assert_eq!(out.status, CheckStatus::Down);
    assert_eq!(out.detail, Some(obj(vec![("http_status", uint(500))])));
    assert_eq!(out.error_message, None);
    assert_eq!(http(200, Some(100)).evaluate(Ok(200), 101).status, CheckStatus::Degraded);
    assert_eq!(http(200, Some(100)).evaluate(Ok(200), 100).status, CheckStatus::Up);
    assert_eq!(http(200, None).evaluate(Ok(200), 1_000_000).status, CheckStatus::Up);
}

#[test]
fn preflight_config() {
    let r = PreflightChecker::from_config(&obj(vec![("args", JsonValue::Array(vec![]))]));
    assert_eq!(invalid_message(r), "preflight checker requires 'command'");
    let c = PreflightChecker::from_config(&obj(vec![
        ("command", text("pg_isready")),
        ("args", JsonValue::Array(vec![text("-h"), uint(1), text("db")])),
        ("expected_exit_code", JsonValue::Number(JsonNumber::NegInt(-2))),
    ]))
    .unwrap();
    assert_eq!(c.command, "pg_isready");
    assert_eq!(c.args, vec![s("-h"), s("db")]);
    assert_eq!(c.expected_exit_code, -2);
    assert_eq!(c.timeout_ms, 30_000);
    assert_eq!(c.degraded_ms, None);
    let c = PreflightChecker::from_config(&obj(vec![("command", text("true")), ("args", text("x"))])).unwrap();
    assert!(c.args.is_empty());
    assert_eq!(c.expected_exit_code, 0);
    // An exit code beyond i32 keeps its low 32 bits.
    let c = PreflightChecker::from_config(&obj(vec![("command", text("t")), ("expected_exit_code", uint(4294967297))]))
        .unwrap();
    assert_eq!(c.expected_exit_code, 1);
}

fn preflight(expected: i32, degraded: Option<u64>) -> PreflightChecker {
    PreflightChecker { command: s("c"), args: vec![], expected_exit_code: expected, timeout_ms: 10, degraded_ms: degraded }
}

#[test]
fn preflight_timeout_and_failure() {
    let out = preflight(0, None).evaluate(CommandOutcome::TimedOut, 30);
    assert_eq!(out.status, CheckStatus::Down);
    assert_eq!(out.error_message, Some(s("Command timed out")));
    assert_eq!(out.detail, None);
    assert_eq!(out.response_ms, Some(30));
    let out = preflight(0, None).evaluate(CommandOutcome::Failed(s("No such file or directory (os error 2)")), 1);
    assert_eq!(out.status, CheckStatus::Down);
    assert_eq!(out.error_message, Some(s("No such file or directory (os error 2)")));
}

#[test]
fn preflight_finished() {
    let out = preflight(0, Some(50)).evaluate(
        CommandOutcome::Finished { exit_code: Some(0), stdout: b"  ready\n".to_vec(), stderr: vec![] },
        60,
    );
    assert_eq!(out.status, CheckStatus::Degraded);
    assert_eq!(out.error_message, None);
    assert_eq!(
        out.detail,
        Some(obj(vec![("exit_code", uint(0)), ("stdout", text("ready")), ("stderr", text(""))]))
    );
    let out = preflight(0, None).evaluate(
        CommandOutcome::Finished { exit_code: Some(3), stdout: vec![], stderr: b"\tbad\xff \n".to_vec() },
        5,
    );
    assert_eq!(out.status, CheckStatus::Down);
    assert_eq!(out.error_message, Some(s("Exit code 3, expected 0")));
    assert_eq!(
        out.detail,
        Some(obj(vec![("exit_code", uint(3)), ("stdout", text("")), ("stderr", text("bad\u{FFFD}"))]))
    );
    let out = preflight(2, None).evaluate(CommandOutcome::Finished { exit_code: None, stdout: vec![], stderr: vec![] }, 5);
    assert_eq!(out.error_message, Some(s("Exit code -1, expected 2")));
    assert_eq!(
        out.detail,
        Some(obj(vec![("exit_code", JsonValue::Number(JsonNumber::NegInt(-1))), ("stdout", text("")), ("stderr", text(""))]))
    );
}

#[test]
fn preflight_valid_utf8_output_is_decoded() {
    let out = preflight(0, None).evaluate(
        CommandOutcome::Finished { exit_code: Some(0), stdout: "\u{3000}héllo wörld\n".as_bytes().to_vec(), stderr: vec![] },
        1,
    );
    assert_eq!(
        out.detail,
        Some(obj(vec![("exit_code", uint(0)), ("stdout", text("héllo wörld")), ("stderr", text(""))]))
    );
}

#[test]
fn aws_credentials_errors_in_order() {
    let r = aws_credentials_from_config(&obj(vec![]));
    assert_eq!(invalid_message(r), "aws_billing requires 'region'");
    let r = aws_credentials_from_config(&obj(vec![("region", text("us-east-1"))]));
    assert_eq!(invalid_message(r), "aws_billing requires 'access_key_id'");
    let r = aws_credentials_from_config(&obj(vec![("region", text("us-east-1")), ("access_key_id", text("AK"))]));
    assert_eq!(invalid_message(r), "aws_billing requires 'secret_access_key'");
    let c = aws_credentials_from_config(&obj(vec![
        ("secret_access_key", text("SK")),
        ("region", text("eu-west-1")),
        ("access_key_id", text("AK")),
    ]))
    .unwrap();
    assert_eq!((c.region.as_str(), c.access_key_id.as_str(), c.secret_access_key.as_str()), ("eu-west-1", "AK", "SK"));
}

#[test]
fn billing_period_is_month_to_date() {
    assert_eq!(billing_period_start(0), "1970-01-01");
    // 2023-11-14T22:13:20Z
    assert_eq!(billing_period_start(1_700_000_000), "2023-11-01");
    // 2024-03-05T00:00:00Z
    assert_eq!(billing_period_start(1_709_596_800), "2024-03-01");
    assert_eq!(billing_period_end(1_709_596_800), Some(s("2024-03-05")));
    // 2024-02-29T23:59:59Z, the last second of a leap February
    assert_eq!(billing_period_start(1_709_251_199), "2024-02-01");
    assert_eq!(billing_period_end(1_709_251_199), Some(s("2024-02-29")));
    // Beyond i64 the time wraps to one second before the epoch.
    assert_eq!(billing_period_start(u64::MAX), "1969-12-01");
    assert_eq!(month_start_or_default(None), "2024-01-01");
    assert_eq!(month_start_or_default(Some(s("2025-02-17"))), "2025-02-01");
}

#[test]
fn cost_query_body_and_reply() {
    let body = cost_request_body(&s("2024-05-01"), &s("2024-05-17"));
    assert_eq!(
        body,
        obj(vec![
            ("TimePeriod", obj(vec![("Start", text("2024-05-01")), ("End", text("2024-05-17"))])),
            ("Granularity", text("MONTHLY")),
            ("Metrics", JsonValue::Array(vec![text("BlendedCost")])),
        ])
    );
    let reply = obj(vec![(
        "ResultsByTime",
        JsonValue::Array(vec![obj(vec![("Total", obj(vec![("BlendedCost", obj(vec![("Amount", text("12.34"))]))]))])]),
    )]);
    assert_eq!(cost_amount_text(&reply), Some(s("12.34")));
    assert_eq!(cost_amount_text(&obj(vec![("ResultsByTime", JsonValue::Array(vec![]))])), None);
    assert_eq!(cost_amount_text(&JsonValue::Null), None);
}

#[test]
fn build_checker_dispatches_on_type() {
    assert!(matches!(build_checker(&s("http"), &obj(vec![("url", text("u"))])), Ok(Checker::Http(_))));
    assert!(matches!(build_checker(&s("preflight"), &obj(vec![("command", text("c"))])), Ok(Checker::Preflight(_))));
    let aws = obj(vec![("region", text("r")), ("access_key_id", text("a")), ("secret_access_key", text("k"))]);
    assert!(matches!(build_checker(&s("aws_billing"), &aws), Ok(Checker::AwsBilling(_))));
    assert_eq!(invalid_message(build_checker(&s("http"), &obj(vec![]))), "http checker requires 'url'");
    match build_checker(&s("ftp"), &obj(vec![])) {
        Err(e) => assert_eq!(e.message(), "unknown service type: ftp"),
        Ok(_) => panic!("an unknown type must be refused"),
    }
}
