//! Checkers: their configuration, read from JSON, and how each turns the
//! result of its probe into a check outcome.

pub mod http;
pub mod preflight;
pub mod aws_billing;

use vstd::prelude::*;
use crate::json::{JsonValue, json_as_str, json_field};
use crate::models::check_result::CheckStatus;
use self::aws_billing::{AwsCredentials, aws_credentials_from_config};
use self::http::{HttpChecker, http_missing_url};
use self::preflight::{PreflightChecker, preflight_missing_command};

verus! {

/// A configuration that a checker cannot be built from.
#[derive(Debug)]
pub enum ConfigError {
    /// The configuration lacks something the checker needs.
    InvalidConfig(String),
    /// No checker has this type.
    UnknownServiceType(String),
}

/// The text of a configuration error.
pub open spec fn config_error_text(e: ConfigError) -> Seq<char> {
    match e {
        ConfigError::InvalidConfig(m) => m@,
        ConfigError::UnknownServiceType(t) => "unknown service type: "@ + t@,
    }
}

/// A configuration error reads as its message, and an unknown type reads as
/// `unknown service type: ` followed by the type as given.
pub proof fn lemma_config_error_text(m: String, t: String)
    ensures
        config_error_text(ConfigError::InvalidConfig(m)) == m@,
        config_error_text(ConfigError::UnknownServiceType(t)) == "unknown service type: "@ + t@,
{
}

impl ConfigError {
    /// The text of this error, as a request that caused it is answered.
    pub fn message(&self) -> (res: String)
        ensures
            res@ == config_error_text(*self),
    {
        match self {
            ConfigError::InvalidConfig(m) => m.clone(),
            ConfigError::UnknownServiceType(t) => {
                let mut s = String::from_str("unknown service type: ");
                s.append(t.as_str());
                s
            },
        }
    }
}

/// A checker, of any of the known types.
#[derive(Debug)]
pub enum Checker {
    Http(HttpChecker),
    Preflight(PreflightChecker),
    AwsBilling(AwsCredentials),
}

/// Builds the checker that a service type and configuration describe:
/// `http`, `preflight` or `aws_billing`, each read from the configuration
/// as its own `from_config` reads it; any other type is refused.
pub fn build_checker(service_type: &String, config: &JsonValue) -> (res: Result<Checker, ConfigError>)
    ensures
        if service_type@ == "http"@ {
            match json_as_str(json_field(*config, "url"@)) {
                None => is_invalid_config(res, http_missing_url()),
                Some(url) => res matches Ok(Checker::Http(c)) && http::http_checker_matches(c, *config, url),
            }
        } else if service_type@ == "preflight"@ {
            match json_as_str(json_field(*config, "command"@)) {
                None => is_invalid_config(res, preflight_missing_command()),
                Some(command) => res matches Ok(Checker::Preflight(c))
                    && preflight::preflight_checker_matches(c, *config, command),
            }
        } else if service_type@ == "aws_billing"@ {
            match (
                json_as_str(json_field(*config, "region"@)),
                json_as_str(json_field(*config, "access_key_id"@)),
                json_as_str(json_field(*config, "secret_access_key"@)),
            ) {
                (None, _, _) => is_invalid_config(res, "aws_billing requires 'region'"@),
                (Some(_), None, _) => is_invalid_config(res, "aws_billing requires 'access_key_id'"@),
                (Some(_), Some(_), None) => is_invalid_config(res, "aws_billing requires 'secret_access_key'"@),
                (Some(r), Some(a), Some(s)) => res matches Ok(Checker::AwsBilling(c)) && c.region@ == r
                    && c.access_key_id@ == a && c.secret_access_key@ == s,
            }
        } else {
            res matches Err(ConfigError::UnknownServiceType(t)) && t@ == service_type@
        },
{
    if *service_type == String::from_str("http") {
        match HttpChecker::from_config(config) {
            Ok(c) => Ok(Checker::Http(c)),
            Err(e) => Err(e),
        }
    } else if *service_type == String::from_str("preflight") {
        match PreflightChecker::from_config(config) {
            Ok(c) => Ok(Checker::Preflight(c)),
            Err(e) => Err(e),
        }
    } else if *service_type == String::from_str("aws_billing") {
        match aws_credentials_from_config(config) {
            Ok(c) => Ok(Checker::AwsBilling(c)),
            Err(e) => Err(e),
        }
    } else {
        Err(ConfigError::UnknownServiceType(service_type.clone()))
    }
}

/// Whether a result is the configuration error with the given message.
pub open spec fn is_invalid_config<T>(res: Result<T, ConfigError>, message: Seq<char>) -> bool {
    res matches Err(ConfigError::InvalidConfig(m)) && m@ == message
}

/// What one check found.
#[derive(Debug)]
pub struct CheckOutput {
    pub status: CheckStatus,
    pub response_ms: Option<u64>,
    pub detail: Option<JsonValue>,
    pub error_message: Option<String>,
}

/// Both checkers that run a probe read the degraded threshold alike: a
/// configuration whose `degraded_ms` is the non-negative integer `d` gives
/// the threshold `d`, and one whose `degraded_ms` is absent or anything else
/// gives none. A configured threshold is never dropped or altered.
pub proof fn lemma_degraded_threshold_read(
    config: JsonValue,
    url: Seq<char>,
    command: Seq<char>,
    h: HttpChecker,
    p: PreflightChecker,
)
    requires
        http::http_checker_matches(h, config, url),
        preflight::preflight_checker_matches(p, config, command),
    ensures
        h.degraded_ms == p.degraded_ms,
        forall|d: u64| json_field(config, "degraded_ms"@) == JsonValue::Number(crate::json::JsonNumber::PosInt(d))
            ==> p.degraded_ms == Some(d),
        !(json_field(config, "degraded_ms"@) matches JsonValue::Number(crate::json::JsonNumber::PosInt(_)))
            ==> p.degraded_ms is None,
        forall|t: u64| json_field(config, "timeout_ms"@) == JsonValue::Number(crate::json::JsonNumber::PosInt(t))
            ==> h.timeout_ms == t && p.timeout_ms == t,
{
}

/// A value, or a default where there is none.
pub open spec fn or_default<T>(o: Option<T>, d: T) -> T {
    match o {
        Some(x) => x,
        None => d,
    }
}

/// The members of an object as key texts and values.
pub open spec fn object_view(v: JsonValue) -> Option<Seq<(Seq<char>, JsonValue)>> {
    match v {
        JsonValue::Object(entries) => Some(entries@.map_values(|e: (String, JsonValue)| (e.0@, e.1))),
        _ => None,
    }
}

} // verus!
