//! The rules of the check-history route.

use vstd::prelude::*;
use crate::checkers::or_default;
use crate::text::{int_decimal, lemma_parse_decimal_round_trip, parse_i64, spec_parse_i64};

verus! {

/// The page size a request asks for: its `limit` where that parses as an
/// integer, else 50.
pub open spec fn spec_limit(param: Option<Seq<char>>) -> i64 {
    match param {
        Some(p) => or_default(spec_parse_i64(p), 50i64),
        None => 50,
    }
}

/// A request's `limit` is taken as the integer it reads as, whatever that
/// integer is; 50 stands only for a `limit` that is absent or not an
/// integer. In particular every `i64`, written in decimal, is the page size
/// it names.
pub proof fn lemma_limit_is_the_given_integer(p: Seq<char>, v: i64, w: i64)
    ensures
        spec_parse_i64(p) == Some(v) ==> spec_limit(Some(p)) == v,
        spec_parse_i64(p) is None ==> spec_limit(Some(p)) == 50,
        spec_limit(None) == 50,
        spec_limit(Some(int_decimal(w as int))) == w,
{
    lemma_parse_decimal_round_trip(w);
}

/// Reads the page size of a check-history request (see [`spec_limit`]).
pub fn parse_limit(param: Option<&String>) -> (res: i64)
    ensures
        res == spec_limit(param.deep_view()),
        match param {
            Some(p) => match spec_parse_i64(p@) {
                Some(v) => res == v,
                None => res == 50,
            },
            None => res == 50,
        },
{
    match param {
        Some(p) => match parse_i64(p.as_str()) {
            Some(v) => v,
            None => 50,
        },
        None => 50,
    }
}

/// Which page of a service's checks a request gets, newest first.
#[derive(Debug)]
pub enum ChecksQuery {
    /// The newest `limit` checks.
    Latest { limit: i64 },
    /// The newest `limit` checks made before `checked_at`.
    Before { checked_at: String, limit: i64 },
    /// No checks: the request names a check to page from that does not exist.
    Empty,
}

/// Decides the page of checks a request gets, from its `limit` and what is
/// known of its `before_id`: `None` where it gives none, `Some(None)` where
/// no check has that id, and `Some(Some(t))` where that check was made at `t`.
pub fn checks_query(limit: Option<&String>, cursor: Option<Option<String>>) -> (res: ChecksQuery)
    ensures
        match cursor {
            None => res == ChecksQuery::Latest { limit: spec_limit(limit.deep_view()) },
            Some(None) => res is Empty,
            Some(Some(at)) => res matches ChecksQuery::Before { checked_at, limit: l } && checked_at@ == at@
                && l == spec_limit(limit.deep_view()),
        },
{
    let page = parse_limit(limit);
    match cursor {
        None => ChecksQuery::Latest { limit: page },
        Some(None) => ChecksQuery::Empty,
        Some(Some(at)) => ChecksQuery::Before { checked_at: at, limit: page },
    }
}

} // verus!
