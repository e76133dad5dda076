//! The HTTP checker: requests a URL and compares the status code it gets.

use vstd::prelude::*;
use crate::json::{JsonNumber, JsonValue, json_as_str, json_as_u64, json_field, json_string_members};
use crate::models::check_result::{CheckStatus, classify, spec_classify};
use crate::text::{to_uppercase, uppercase_of};
use super::{CheckOutput, ConfigError, is_invalid_config, object_view, or_default};

verus! {

/// An HTTP check: the request to make and what counts as healthy.
#[derive(Debug)]
pub struct HttpChecker {
    pub url: String,
    pub method: String,
    pub expected_status: u16,
    pub timeout_ms: u64,
    pub degraded_ms: Option<u64>,
    pub headers: Vec<(String, String)>,
}

/// The outside type of an HTTP request method.
#[verifier::external_type_specification]
#[verifier::external_body]
pub struct ExMethod(reqwest::Method);

/// Whether a character may stand in an HTTP method: a token character of
/// RFC 9110 (letters, digits and ``!#$%&'*+-.^_`|~``).
pub open spec fn is_method_char(c: char) -> bool {
    ('a' <= c <= 'z') || ('A' <= c <= 'Z') || ('0' <= c <= '9') || c == '!' || c == '#' || c == '$'
        || c == '%' || c == '&' || c == '\'' || c == '*' || c == '+' || c == '-' || c == '.' || c == '^'
        || c == '_' || c == '`' || c == '|' || c == '~'
}

/// Whether a text parses as an HTTP method: one or more method characters.
pub open spec fn is_method_token(text: Seq<char>) -> bool {
    text.len() > 0 && forall|i: int| 0 <= i < text.len() ==> is_method_char(#[trigger] text[i])
}

/// The method that `reqwest::Method` (the `http` crate's `Method`) parses a
/// valid method text to.
pub uninterp spec fn parsed_method(text: Seq<char>) -> reqwest::Method;

/// Calls `str::parse::<reqwest::Method>` (`http::Method::from_bytes`). The
/// contract claims, from the `http` crate's source, that the text parses
/// exactly where it is one or more token characters, and names the method
/// it parses to as [`parsed_method`] of the text.
#[verifier::external_body]
fn parse_method(text: &str) -> (res: Option<reqwest::Method>)
    ensures
        match res {
            Some(m) => is_method_token(text@) && m == parsed_method(text@),
            None => !is_method_token(text@),
        },
{
    match text.parse::<reqwest::Method>() {
        Ok(m) => Some(m),
        Err(_) => None,
    }
}

/// The message for a configuration without a URL.
pub open spec fn http_missing_url() -> Seq<char> {
    "http checker requires 'url'"@
}

/// The checker that a configuration describes, where it holds a URL: the
/// method upper-cased (`GET` by default), the expected status (200 by
/// default, kept to its low 16 bits), the timeout (10 000 ms by default),
/// the optional degraded threshold, and the string-valued headers.
pub open spec fn http_checker_matches(c: HttpChecker, config: JsonValue, url: Seq<char>) -> bool {
    &&& c.url@ == url
    &&& c.method@ == uppercase_of(or_default(json_as_str(json_field(config, "method"@)), "GET"@))
    &&& c.expected_status == (or_default(json_as_u64(json_field(config, "expected_status"@)), 200u64) as u16)
    &&& c.timeout_ms == or_default(json_as_u64(json_field(config, "timeout_ms"@)), 10000u64)
    &&& c.degraded_ms == json_as_u64(json_field(config, "degraded_ms"@))
    &&& c.headers.deep_view() == json_string_members(json_field(config, "headers"@))
}

/// A configuration's URL is used as given; its method, where it is a
/// string, is upper-cased, and is `GET` otherwise; its expected status,
/// where it is a non-negative integer, is kept to 16 bits, and is 200
/// otherwise; its timeout is the given integer or 10 000 ms; a configuration
/// without a URL is refused with the message naming `url`.
pub proof fn lemma_http_config_fields(c: HttpChecker, config: JsonValue, url: Seq<char>)
    requires
        http_checker_matches(c, config, url),
    ensures
        c.url@ == url,
        forall|m: String| json_field(config, "method"@) == JsonValue::String(m) ==> c.method@ == uppercase_of(m@),
        !(json_field(config, "method"@) is String) ==> c.method@ == uppercase_of("GET"@),
        forall|n: u64|
            json_field(config, "expected_status"@) == JsonValue::Number(JsonNumber::PosInt(n))
                ==> c.expected_status == n as u16,
        json_as_u64(json_field(config, "expected_status"@)) is None ==> c.expected_status == 200,
        forall|t: u64|
            json_field(config, "timeout_ms"@) == JsonValue::Number(JsonNumber::PosInt(t)) ==> c.timeout_ms == t,
        json_as_u64(json_field(config, "timeout_ms"@)) is None ==> c.timeout_ms == 10000,
        http_missing_url() == "http checker requires 'url'"@,
{
}

/// The detail of a completed request: its status code.
pub open spec fn http_detail(code: u16) -> Seq<(Seq<char>, JsonValue)> {
    seq![("http_status"@, JsonValue::Number(JsonNumber::PosInt(code as u64)))]
}

impl HttpChecker {
    /// Reads an HTTP checker from its configuration. Fails exactly where
    /// `url` is missing or not a string.
    pub fn from_config(config: &JsonValue) -> (res: Result<HttpChecker, ConfigError>)
        ensures
            match json_as_str(json_field(*config, "url"@)) {
                None => is_invalid_config(res, http_missing_url()),
                Some(url) => res matches Ok(c) && http_checker_matches(c, *config, url),
            },
            res matches Ok(c) ==> c.degraded_ms == json_as_u64(json_field(*config, "degraded_ms"@))
                && c.timeout_ms == or_default(json_as_u64(json_field(*config, "timeout_ms"@)), 10000u64)
                && c.headers.deep_view() == json_string_members(json_field(*config, "headers"@)),
    {
        let url = match config.str_member(&String::from_str("url")) {
            Some(u) => u,
            None => {
                return Err(ConfigError::InvalidConfig(String::from_str("http checker requires 'url'")));
            },
        };
        let method = match config.str_member(&String::from_str("method")) {
            Some(m) => to_uppercase(m.as_str()),
            None => to_uppercase("GET"),
        };
        let expected_status = match config.u64_member(&String::from_str("expected_status")) {
            Some(v) => v as u16,
            None => 200u16,
        };
        let timeout_ms = match config.u64_member(&String::from_str("timeout_ms")) {
            Some(v) => v,
            None => 10000u64,
        };
        let degraded_ms = config.u64_member(&String::from_str("degraded_ms"));
        let headers = config.string_members_member(&String::from_str("headers"));
        Ok(HttpChecker { url, method, expected_status, timeout_ms, degraded_ms, headers })
    }

    /// The method the request is made with: the configured one where it
    /// parses as an HTTP method, `GET` otherwise.
    pub fn request_method(&self) -> (res: reqwest::Method)
        ensures
            res == parsed_method(if is_method_token(self.method@) { self.method@ } else { "GET"@ }),
    {
        match parse_method(self.method.as_str()) {
            Some(m) => m,
            None => {
                proof {
                    reveal_strlit("GET");
                    assert(is_method_char("GET"@[0]) && is_method_char("GET"@[1]) && is_method_char("GET"@[2]));
                }
                match parse_method("GET") {
                    Some(m) => m,
                    None => unreached(),
                }
            },
        }
    }

    /// The outcome of a check, given how the request went: `Err` with the
    /// error's text where it failed, or the status code it got, and the time
    /// it took. A failed request is `Down` with the error's text; a completed
    /// one is classified by whether its code is the expected one.
    pub fn evaluate(&self, response: Result<u16, String>, elapsed_ms: u64) -> (res: CheckOutput)
        ensures
            res.response_ms == Some(elapsed_ms),
            match response {
                Err(e) => {
                    &&& res.status == CheckStatus::Down
                    &&& res.detail is None
                    &&& res.error_message matches Some(m) && m@ == e@
                },
                Ok(code) => {
                    &&& res.status == spec_classify(code == self.expected_status, self.degraded_ms, elapsed_ms)
                    &&& res.detail matches Some(d) && object_view(d) == Some(http_detail(code))
                    &&& res.error_message is None
                },
            },
            response matches Ok(code) ==> res.detail matches Some(d) && json_field(d, "http_status"@)
                == JsonValue::Number(JsonNumber::PosInt(code as u64)),
    {
        match response {
            Err(e) => CheckOutput {
                status: CheckStatus::Down,
                response_ms: Some(elapsed_ms),
                detail: None,
                error_message: Some(e),
            },
            Ok(code) => {
                let status = classify(code == self.expected_status, self.degraded_ms, elapsed_ms);
                let mut entries: Vec<(String, JsonValue)> = Vec::new();
                entries.push((String::from_str("http_status"), JsonValue::Number(JsonNumber::PosInt(code as u64))));
                proof {
                    crate::json::lemma_field_of_first_member(entries, "http_status"@, 0);
                }
                let detail = JsonValue::Object(entries);
                assert(object_view(detail) =~= Some(http_detail(code)));
                CheckOutput {
                    status,
                    response_ms: Some(elapsed_ms),
                    detail: Some(detail),
                    error_message: None,
                }
            },
        }
    }
}

} // verus!
