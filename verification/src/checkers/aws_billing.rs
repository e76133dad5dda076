//! The AWS billing checker's configuration and the parts of its cost query
//! that are computed rather than fetched.

use vstd::prelude::*;
use crate::json::{JsonValue, json_as_str, json_field, json_index};
use super::{ConfigError, is_invalid_config, object_view, or_default};

verus! {

/// The credentials and region that the AWS billing checker queries with.
#[derive(Debug)]
pub struct AwsCredentials {
    pub region: String,
    pub access_key_id: String,
    pub secret_access_key: String,
}

/// Reads the region and credentials of an AWS billing checker. Each must be
/// a string; the first one missing, in the order region, access key id,
/// secret access key, names the error.
pub fn aws_credentials_from_config(config: &JsonValue) -> (res: Result<AwsCredentials, ConfigError>)
    ensures
        match (
            json_as_str(json_field(*config, "region"@)),
            json_as_str(json_field(*config, "access_key_id"@)),
            json_as_str(json_field(*config, "secret_access_key"@)),
        ) {
            (None, _, _) => is_invalid_config(res, "aws_billing requires 'region'"@),
            (Some(_), None, _) => is_invalid_config(res, "aws_billing requires 'access_key_id'"@),
            (Some(_), Some(_), None) => is_invalid_config(res, "aws_billing requires 'secret_access_key'"@),
            (Some(r), Some(a), Some(s)) => res matches Ok(c) && c.region@ == r && c.access_key_id@ == a
                && c.secret_access_key@ == s,
        },
{
    let region = match config.str_member(&String::from_str("region")) {
        Some(v) => v,
        None => {
            return Err(ConfigError::InvalidConfig(String::from_str("aws_billing requires 'region'")));
        },
    };
    let access_key_id = match config.str_member(&String::from_str("access_key_id")) {
        Some(v) => v,
        None => {
            return Err(ConfigError::InvalidConfig(String::from_str("aws_billing requires 'access_key_id'")));
        },
    };
    let secret_access_key = match config.str_member(&String::from_str("secret_access_key")) {
        Some(v) => v,
        None => {
            return Err(
                ConfigError::InvalidConfig(String::from_str("aws_billing requires 'secret_access_key'")),
            );
        },
    };
    Ok(AwsCredentials { region, access_key_id, secret_access_key })
}

/// What chrono writes as `%Y-%m-%d` for the UTC time `ts` seconds after the
/// Unix epoch: the date of that day, where the time is in chrono's range.
pub uninterp spec fn utc_date_label(ts: i64) -> Option<Seq<char>>;

/// Calls chrono's `DateTime::<Utc>::from_timestamp(ts, 0)` and writes the
/// date it gives with `format("%Y-%m-%d")`. The contract names the result as
/// [`utc_date_label`] of `ts` and claims, from chrono's source, that every
/// time from the epoch to the end of the year 9999 has a date; the calendar
/// arithmetic and the exact range are not restated.
#[verifier::external_body]
fn utc_date(ts: i64) -> (res: Option<String>)
    ensures
        res.deep_view() == utc_date_label(ts),
        0 <= ts <= 253402300799 ==> res is Some,
{
    match chrono::DateTime::<chrono::Utc>::from_timestamp(ts, 0) {
        Some(d) => Some(d.format("%Y-%m-%d").to_string()),
        None => None,
    }
}

/// The first day of the month of a `YYYY-MM-DD` date: its day replaced by `01`.
pub open spec fn month_start_of(date: Seq<char>) -> Seq<char> {
    if date.len() >= 2 {
        date.subrange(0, date.len() - 2) + "01"@
    } else {
        date
    }
}

/// The first of the month keeps a date's year and month and sets its day to
/// `01`: for a `YYYY-MM-DD` date, the first eight characters stay and the
/// last two become `0` and `1`.
pub proof fn lemma_month_start_of(date: Seq<char>)
    requires
        date.len() >= 2,
    ensures
        month_start_of(date).len() == date.len(),
        forall|i: int| 0 <= i < date.len() - 2 ==> #[trigger] month_start_of(date)[i] == date[i],
        month_start_of(date)[date.len() - 2] == '0',
        month_start_of(date)[date.len() - 1] == '1',
{
    reveal_strlit("01");
}

/// The start date of a month-to-date query, given the date of today where
/// there is one: the first of its month, or `2024-01-01` where there is none.
pub fn month_start_or_default(date: Option<String>) -> (res: String)
    ensures
        res@ == match date.deep_view() {
            Some(d) => month_start_of(d),
            None => "2024-01-01"@,
        },
{
    match date {
        Some(d) => {
            let cs = crate::text::chars_of(d.as_str());
            let n = cs.len();
            if n >= 2 {
                let head = vstd::slice::slice_subrange(cs.as_slice(), 0, n - 2);
                let mut out = crate::text::string_from_chars(head);
                out.append("01");
                out
            } else {
                d
            }
        },
        None => String::from_str("2024-01-01"),
    }
}

/// The start date of the month-to-date cost query at the time `now_secs`
/// (seconds since the epoch): the first day of the current UTC month, or
/// `2024-01-01` where chrono has no date for that time.
pub fn billing_period_start(now_secs: u64) -> (res: String)
    ensures
        res@ == match utc_date_label(now_secs as i64) {
            Some(d) => month_start_of(d),
            None => "2024-01-01"@,
        },
{
    month_start_or_default(utc_date(now_secs as i64))
}

/// The end date of the month-to-date cost query at the time `now_secs`: the
/// current UTC date, where chrono has one for that time.
pub fn billing_period_end(now_secs: u64) -> (res: Option<String>)
    ensures
        res.deep_view() == utc_date_label(now_secs as i64),
        now_secs <= 253402300799 ==> res is Some,
{
    utc_date(now_secs as i64)
}

/// Whether `body` is the cost query for the period from `start` to `end`:
/// `{"TimePeriod": {"Start": start, "End": end}, "Granularity": "MONTHLY",
/// "Metrics": ["BlendedCost"]}`.
pub open spec fn is_cost_request(body: JsonValue, start: Seq<char>, end: Seq<char>) -> bool {
    object_view(body) matches Some(m) && {
        &&& m.len() == 3
        &&& m[0].0 == "TimePeriod"@
        &&& object_view(m[0].1) matches Some(tp) && {
            &&& tp.len() == 2
            &&& tp[0].0 == "Start"@ && json_as_str(tp[0].1) == Some(start)
            &&& tp[1].0 == "End"@ && json_as_str(tp[1].1) == Some(end)
        }
        &&& m[1].0 == "Granularity"@ && json_as_str(m[1].1) == Some("MONTHLY"@)
        &&& m[2].0 == "Metrics"@
        &&& m[2].1 matches JsonValue::Array(items) && items@.len() == 1
            && json_as_str(items@[0]) == Some("BlendedCost"@)
    }
}

/// The body of the month-to-date cost query.
pub fn cost_request_body(start: &String, end: &String) -> (res: JsonValue)
    ensures
        is_cost_request(res, start@, end@),
        json_as_str(json_field(json_field(res, "TimePeriod"@), "Start"@)) == Some(start@),
        json_as_str(json_field(json_field(res, "TimePeriod"@), "End"@)) == Some(end@),
        json_as_str(json_field(res, "Granularity"@)) == Some("MONTHLY"@),
        json_as_str(json_index(json_field(res, "Metrics"@), 0)) == Some("BlendedCost"@),
{
    let mut period: Vec<(String, JsonValue)> = Vec::new();
    period.push((String::from_str("Start"), JsonValue::String(start.clone())));
    period.push((String::from_str("End"), JsonValue::String(end.clone())));
    proof {
        reveal_strlit("Start");
        reveal_strlit("End");
        assert("End"@[0] != "Start"@[0]);
        crate::json::lemma_field_of_first_member(period, "Start"@, 0);
        crate::json::lemma_field_of_first_member(period, "End"@, 1);
    }
    let mut metrics: Vec<JsonValue> = Vec::new();
    metrics.push(JsonValue::String(String::from_str("BlendedCost")));
    let mut body: Vec<(String, JsonValue)> = Vec::new();
    body.push((String::from_str("TimePeriod"), JsonValue::Object(period)));
    body.push((String::from_str("Granularity"), JsonValue::String(String::from_str("MONTHLY"))));
    body.push((String::from_str("Metrics"), JsonValue::Array(metrics)));
    proof {
        reveal_strlit("TimePeriod");
        reveal_strlit("Granularity");
        reveal_strlit("Metrics");
        assert("Granularity"@[0] != "TimePeriod"@[0]);
        assert("Metrics"@[0] != "TimePeriod"@[0]);
        assert("Metrics"@[0] != "Granularity"@[0]);
        crate::json::lemma_field_of_first_member(body, "TimePeriod"@, 0);
        crate::json::lemma_field_of_first_member(body, "Granularity"@, 1);
        crate::json::lemma_field_of_first_member(body, "Metrics"@, 2);
    }
    JsonValue::Object(body)
}

/// The text at `ResultsByTime[0].Total.BlendedCost.Amount` of a cost reply.
pub open spec fn spec_cost_amount(reply: JsonValue) -> Option<Seq<char>> {
    json_as_str(
        json_field(
            json_field(json_field(json_index(json_field(reply, "ResultsByTime"@), 0), "Total"@), "BlendedCost"@),
            "Amount"@,
        ),
    )
}

/// The amount text of a cost reply, where it is there and a string.
pub fn cost_amount_text(reply: &JsonValue) -> (res: Option<String>)
    ensures
        res.deep_view() == spec_cost_amount(*reply),
        res.deep_view() == json_as_str(
            json_field(
                json_field(json_field(json_index(json_field(*reply, "ResultsByTime"@), 0), "Total"@), "BlendedCost"@),
                "Amount"@,
            ),
        ),
{
    let results = match reply.member(&String::from_str("ResultsByTime")) {
        Some(v) => v,
        None => {
            return None;
        },
    };
    let first = match results.element(0) {
        Some(v) => v,
        None => {
            return None;
        },
    };
    let total = match first.member(&String::from_str("Total")) {
        Some(v) => v,
        None => {
            return None;
        },
    };
    let blended = match total.member(&String::from_str("BlendedCost")) {
        Some(v) => v,
        None => {
            return None;
        },
    };
    blended.str_member(&String::from_str("Amount"))
}

} // verus!
