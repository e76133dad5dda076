//! The rules of the service routes: defaults on creation, how an update is
//! merged into a stored service, what the scheduler does after it, and the
//! uptime windows.

use vstd::prelude::*;
use crate::checkers::{object_view, or_default};
use crate::json::{JsonNumber, JsonValue, json_as_i64, json_as_str, json_field, spec_number_from_i64};
use crate::models::service::{Service, UpdateService};
use crate::ws::messages::{json_opt_text, opt_string_value};

verus! {

/// The check interval of a new service: the one given, else 60 seconds.
pub fn interval_or_default(interval_secs: Option<i64>) -> (res: i64)
    ensures
        res == or_default(interval_secs, 60i64),
        interval_secs matches Some(i) ==> res == i,
        interval_secs is None ==> res == 60,
{
    match interval_secs {
        Some(i) => i,
        None => 60,
    }
}

/// The number of days an uptime window covers: `24h` is 1, `30d` 30, `90d`
/// 90, and anything else 7.
pub open spec fn spec_window_days(window: Seq<char>) -> i64 {
    if window == "24h"@ {
        1
    } else if window == "30d"@ {
        30
    } else if window == "90d"@ {
        90
    } else {
        7
    }
}

/// The windows cover one day (`24h`), 30 days (`30d`), 90 days (`90d`) and,
/// for any other name and the default `7d`, a week.
pub proof fn lemma_window_days(window: Seq<char>)
    ensures
        spec_window_days("24h"@) == 1,
        spec_window_days("30d"@) == 30,
        spec_window_days("90d"@) == 90,
        spec_window_days("7d"@) == 7,
        window != "24h"@ && window != "30d"@ && window != "90d"@ ==> spec_window_days(window) == 7,
{
    reveal_strlit("24h");
    reveal_strlit("30d");
    reveal_strlit("90d");
    reveal_strlit("7d");
    assert("30d"@[0] != "24h"@[0]);
    assert("90d"@[0] != "24h"@[0]);
    assert("90d"@[0] != "30d"@[0]);
    assert("7d"@.len() != "24h"@.len());
}

/// The uptime window a request asks for (`7d` where it names none) and the
/// number of days it covers.
pub fn uptime_window(param: Option<&String>) -> (res: (String, i64))
    ensures
        res.0@ == or_default(param.deep_view(), "7d"@),
        res.1 == spec_window_days(res.0@),
{
    let window = match param {
        Some(w) => w.clone(),
        None => String::from_str("7d"),
    };
    let days: i64 = if window == String::from_str("24h") {
        1
    } else if window == String::from_str("30d") {
        30
    } else if window == String::from_str("90d") {
        90
    } else {
        7
    };
    (window, days)
}

/// The stored fields of a service that an update reads.
#[derive(Debug)]
pub struct ServiceRecord {
    pub id: String,
    pub name: String,
    pub config: String,
    pub interval_secs: i64,
    pub enabled: i64,
    pub system_id: Option<String>,
}

/// The fields of a service that an update can change, as texts and numbers.
pub struct ServiceFields {
    pub name: Seq<char>,
    pub config: Seq<char>,
    pub interval_secs: i64,
    pub enabled: i64,
    pub system_id: Option<Seq<char>>,
}

/// An update to a service, as texts and numbers.
pub struct ServiceUpdateView {
    pub name: Option<Seq<char>>,
    pub config: Option<Seq<char>>,
    pub interval_secs: Option<i64>,
    pub enabled: Option<bool>,
    pub system_id: Option<Option<Seq<char>>>,
}

impl ServiceRecord {
    /// The fields of this service that an update can change.
    pub open spec fn fields(&self) -> ServiceFields {
        ServiceFields {
            name: self.name@,
            config: self.config@,
            interval_secs: self.interval_secs,
            enabled: self.enabled,
            system_id: self.system_id.deep_view(),
        }
    }
}

impl UpdateService {
    /// The changes this update asks for.
    pub open spec fn changes(&self) -> ServiceUpdateView {
        ServiceUpdateView {
            name: self.name.deep_view(),
            config: self.config.deep_view(),
            interval_secs: self.interval_secs,
            enabled: self.enabled,
            system_id: self.system_id.deep_view(),
        }
    }
}

/// The stored flag for an `enabled` value: 1 for true, 0 for false.
pub open spec fn enabled_flag(e: bool) -> i64 {
    if e {
        1
    } else {
        0
    }
}

/// A service after an update: each field the update gives replaces the
/// stored one (`enabled` stored as 1 or 0); the others stay.
pub open spec fn spec_apply_service_update(current: ServiceFields, update: ServiceUpdateView) -> ServiceFields {
    ServiceFields {
        name: or_default(update.name, current.name),
        config: or_default(update.config, current.config),
        interval_secs: or_default(update.interval_secs, current.interval_secs),
        enabled: match update.enabled {
            Some(e) => enabled_flag(e),
            None => current.enabled,
        },
        system_id: or_default(update.system_id, current.system_id),
    }
}

/// What the scheduler does with a service's check loop after an update.
#[derive(Debug, Clone, Copy, PartialEq, Eq, Structural)]
pub enum SchedulerAction {
    /// (Re)start the loop.
    Spawn,
    /// Stop the loop.
    Abort,
}

/// A service's check loop runs exactly where its stored flag is 1.
pub open spec fn spec_action(enabled: i64) -> SchedulerAction {
    if enabled == 1 {
        SchedulerAction::Spawn
    } else {
        SchedulerAction::Abort
    }
}

/// The merged fields of an updated service, and what follows from them.
#[derive(Debug)]
pub struct ServiceChange {
    pub name: String,
    pub config: String,
    pub interval_secs: i64,
    pub enabled: i64,
    /// The change of system the update asks for, as given.
    pub system_id: Option<Option<String>>,
    /// The system the service belongs to after the update.
    pub effective_system_id: Option<String>,
    pub action: SchedulerAction,
}

impl ServiceChange {
    /// The fields of the service after the update.
    pub open spec fn fields(&self) -> ServiceFields {
        ServiceFields {
            name: self.name@,
            config: self.config@,
            interval_secs: self.interval_secs,
            enabled: self.enabled,
            system_id: self.effective_system_id.deep_view(),
        }
    }
}

fn clone_opt(s: &Option<String>) -> (res: Option<String>)
    ensures
        res.deep_view() == s.deep_view(),
{
    match s {
        Some(x) => Some(x.clone()),
        None => None,
    }
}

/// Merges an update into a stored service: the fields to store, the system
/// the service ends in, and whether its check loop is to run.
pub fn merge_service_update(current: &ServiceRecord, body: UpdateService) -> (res: ServiceChange)
    ensures
        res.fields() == spec_apply_service_update(current.fields(), body.changes()),
        res.system_id.deep_view() == body.changes().system_id,
        res.action == spec_action(res.enabled),
        res.name@ == (if body.name is Some { body.name.deep_view()->0 } else { current.name@ }),
        res.config@ == (if body.config is Some { body.config.deep_view()->0 } else { current.config@ }),
        res.interval_secs == (if body.interval_secs is Some { body.interval_secs->0 } else { current.interval_secs }),
        res.enabled == (if body.enabled is Some { if body.enabled->0 { 1i64 } else { 0i64 } } else { current.enabled }),
        res.effective_system_id.deep_view() == (if body.system_id is Some {
            body.system_id.deep_view()->0
        } else {
            current.system_id.deep_view()
        }),
        (res.action == SchedulerAction::Spawn) == (res.enabled == 1),
{
    let name = match body.name {
        Some(n) => n,
        None => current.name.clone(),
    };
    let config = match body.config {
        Some(c) => c,
        None => current.config.clone(),
    };
    let interval_secs = match body.interval_secs {
        Some(i) => i,
        None => current.interval_secs,
    };
    let enabled: i64 = match body.enabled {
        Some(e) => if e {
            1
        } else {
            0
        },
        None => current.enabled,
    };
    let effective_system_id = match &body.system_id {
        Some(sid) => clone_opt(sid),
        None => clone_opt(&current.system_id),
    };
    let action = if enabled == 1 {
        SchedulerAction::Spawn
    } else {
        SchedulerAction::Abort
    };
    ServiceChange { name, config, interval_secs, enabled, system_id: body.system_id, effective_system_id, action }
}

/// Each field an update gives is stored exactly as given, whatever its
/// value; each field it leaves out keeps its stored value. `enabled` is
/// stored as 1 for true and 0 for false.
pub proof fn lemma_service_update_fields(current: ServiceFields, update: ServiceUpdateView)
    ensures
        forall|n: Seq<char>| update.name == Some(n) ==> spec_apply_service_update(current, update).name == n,
        update.name is None ==> spec_apply_service_update(current, update).name == current.name,
        forall|c: Seq<char>| update.config == Some(c) ==> spec_apply_service_update(current, update).config == c,
        update.config is None ==> spec_apply_service_update(current, update).config == current.config,
        forall|i: i64| update.interval_secs == Some(i) ==> spec_apply_service_update(current, update).interval_secs == i,
        update.interval_secs is None ==> spec_apply_service_update(current, update).interval_secs
            == current.interval_secs,
        update.enabled == Some(true) ==> spec_apply_service_update(current, update).enabled == 1,
        update.enabled == Some(false) ==> spec_apply_service_update(current, update).enabled == 0,
        update.enabled is None ==> spec_apply_service_update(current, update).enabled == current.enabled,
        forall|sid: Option<Seq<char>>| update.system_id == Some(sid) ==> spec_apply_service_update(current, update).system_id
            == sid,
        update.system_id is None ==> spec_apply_service_update(current, update).system_id == current.system_id,
{
}

/// An update that gives no field leaves a service as it is.
pub proof fn lemma_service_empty_update(current: ServiceFields)
    ensures
        spec_apply_service_update(
            current,
            ServiceUpdateView { name: None, config: None, interval_secs: None, enabled: None, system_id: None },
        ) == current,
{
}

/// Applying the same update twice is the same as applying it once.
pub proof fn lemma_service_update_idempotent(current: ServiceFields, update: ServiceUpdateView)
    ensures
        spec_apply_service_update(spec_apply_service_update(current, update), update)
            == spec_apply_service_update(current, update),
{
}

/// Two updates in turn are one update holding, for each field, the later
/// value where the later update gives one and the earlier value otherwise.
pub proof fn lemma_service_updates_compose(current: ServiceFields, first: ServiceUpdateView, second: ServiceUpdateView)
    ensures
        spec_apply_service_update(spec_apply_service_update(current, first), second)
            == spec_apply_service_update(
            current,
            ServiceUpdateView {
                name: if second.name is Some { second.name } else { first.name },
                config: if second.config is Some { second.config } else { first.config },
                interval_secs: if second.interval_secs is Some { second.interval_secs } else { first.interval_secs },
                enabled: if second.enabled is Some { second.enabled } else { first.enabled },
                system_id: if second.system_id is Some { second.system_id } else { first.system_id },
            },
        ),
{
}

/// Enabling a service starts its check loop and disabling it stops it,
/// whatever else the update holds.
pub proof fn lemma_enabled_decides_loop(current: ServiceFields, update: ServiceUpdateView, e: bool)
    requires
        update.enabled == Some(e),
    ensures
        spec_action(spec_apply_service_update(current, update).enabled) == if e {
            SchedulerAction::Spawn
        } else {
            SchedulerAction::Abort
        },
{
}

/// The latest check of a service, as a service listing shows it.
#[derive(Debug)]
pub struct LatestCheck {
    pub id: String,
    pub checked_at: String,
    pub status: String,
    pub response_ms: Option<i64>,
    pub error_message: Option<String>,
}

/// An optional integer value: the number, or `Null`.
pub open spec fn json_opt_int(v: JsonValue, n: Option<i64>) -> bool {
    match n {
        Some(x) => v == JsonValue::Number(spec_number_from_i64(x)),
        None => v == JsonValue::Null,
    }
}

/// An optional integer is shown as a number that reads back as it, or as
/// `Null` for none.
pub proof fn lemma_opt_int(v: JsonValue, x: i64)
    ensures
        json_opt_int(v, Some(x)) ==> json_as_i64(v) == Some(x),
        json_opt_int(v, None) == (v == JsonValue::Null),
{
}

/// The JSON value of an optional integer: the number, or `Null`.
pub fn opt_int_value(n: Option<i64>) -> (res: JsonValue)
    ensures
        json_opt_int(res, n),
{
    match n {
        Some(x) => JsonValue::Number(JsonNumber::from_i64(x)),
        None => JsonValue::Null,
    }
}

/// Whether `v` shows a latest check: its id, time, status, response time
/// and error message.
pub open spec fn is_latest_check_value(v: JsonValue, c: LatestCheck) -> bool {
    object_view(v) matches Some(m) && {
        &&& m.len() == 5
        &&& m[0].0 == "id"@ && json_as_str(m[0].1) == Some(c.id@)
        &&& m[1].0 == "checked_at"@ && json_as_str(m[1].1) == Some(c.checked_at@)
        &&& m[2].0 == "status"@ && json_as_str(m[2].1) == Some(c.status@)
        &&& m[3].0 == "response_ms"@ && json_opt_int(m[3].1, c.response_ms)
        &&& m[4].0 == "error_message"@ && json_opt_text(m[4].1, c.error_message.deep_view())
    }
}

/// The JSON value of a latest check.
pub fn latest_check_value(c: &LatestCheck) -> (res: JsonValue)
    ensures
        is_latest_check_value(res, *c),
        json_as_str(json_field(res, "id"@)) == Some(c.id@),
        json_as_str(json_field(res, "checked_at"@)) == Some(c.checked_at@),
        json_as_str(json_field(res, "status"@)) == Some(c.status@),
        json_opt_int(json_field(res, "response_ms"@), c.response_ms),
        json_opt_text(json_field(res, "error_message"@), c.error_message.deep_view()),
{
    let mut m: Vec<(String, JsonValue)> = Vec::new();
    m.push((String::from_str("id"), JsonValue::String(c.id.clone())));
    m.push((String::from_str("checked_at"), JsonValue::String(c.checked_at.clone())));
    m.push((String::from_str("status"), JsonValue::String(c.status.clone())));
    m.push((String::from_str("response_ms"), opt_int_value(c.response_ms)));
    m.push((String::from_str("error_message"), opt_string_value(&c.error_message)));
    proof {
        reveal_strlit("id");
        reveal_strlit("checked_at");
        reveal_strlit("status");
        reveal_strlit("response_ms");
        reveal_strlit("error_message");
        assert("id"@[0] == 'i' && "id"@[1] == 'd');
        assert("checked_at"@[0] == 'c' && "checked_at"@[1] == 'h');
        assert("status"@[0] == 's' && "status"@[1] == 't');
        assert("response_ms"@[0] == 'r' && "response_ms"@[1] == 'e');
        assert("error_message"@[0] == 'e' && "error_message"@[1] == 'r');
        crate::json::lemma_field_of_first_member(m, "id"@, 0);
        crate::json::lemma_field_of_first_member(m, "checked_at"@, 1);
        crate::json::lemma_field_of_first_member(m, "status"@, 2);
        crate::json::lemma_field_of_first_member(m, "response_ms"@, 3);
        crate::json::lemma_field_of_first_member(m, "error_message"@, 4);
    }
    JsonValue::Object(m)
}

/// Whether the first members of `m` show a service: its id, name, type,
/// configuration, interval, whether it is enabled (its flag is 1), its
/// system, and its times of creation and update.
pub open spec fn shows_service(
    m: Seq<(Seq<char>, JsonValue)>,
    s: Service,
    system_id: Option<Seq<char>>,
    config: JsonValue,
) -> bool {
    &&& m.len() >= 9
    &&& m[0].0 == "id"@ && json_as_str(m[0].1) == Some(s.id@)
    &&& m[1].0 == "name"@ && json_as_str(m[1].1) == Some(s.name@)
    &&& m[2].0 == "service_type"@ && json_as_str(m[2].1) == Some(s.service_type@)
    &&& m[3].0 == "config"@ && m[3].1 == config
    &&& m[4].0 == "interval_secs"@ && json_as_i64(m[4].1) == Some(s.interval_secs)
    &&& m[5].0 == "enabled"@ && m[5].1 == JsonValue::Bool(s.enabled == 1)
    &&& m[6].0 == "system_id"@ && json_opt_text(m[6].1, system_id)
    &&& m[7].0 == "created_at"@ && json_as_str(m[7].1) == Some(s.created_at@)
    &&& m[8].0 == "updated_at"@ && json_as_str(m[8].1) == Some(s.updated_at@)
}

/// The JSON value of a service, with its configuration already read (`Null`
/// where its stored text is not JSON). A listing also shows the latest
/// check (`Some`, with `None` for a service never checked); a single service
/// is shown without that member (`None`).
pub fn service_value(
    service: &Service,
    system_id: &Option<String>,
    config: JsonValue,
    latest_check: Option<Option<LatestCheck>>,
) -> (res: JsonValue)
    ensures
        object_view(res) matches Some(m) && shows_service(m, *service, system_id.deep_view(), config) && match latest_check {
            None => m.len() == 9,
            Some(None) => m.len() == 10 && m[9].0 == "latest_check"@ && m[9].1 == JsonValue::Null,
            Some(Some(c)) => m.len() == 10 && m[9].0 == "latest_check"@ && is_latest_check_value(m[9].1, c),
        },
        object_view(res) matches Some(m) && m.len() >= 9 && m[5] == ("enabled"@, JsonValue::Bool(service.enabled == 1))
            && m[0] == ("id"@, JsonValue::String(service.id)) && m[3] == ("config"@, config)
            && m[4] == ("interval_secs"@, JsonValue::Number(spec_number_from_i64(service.interval_secs))),
        json_as_str(json_field(res, "id"@)) == Some(service.id@),
        json_as_str(json_field(res, "name"@)) == Some(service.name@),
        json_as_str(json_field(res, "service_type"@)) == Some(service.service_type@),
        json_field(res, "config"@) == config,
        json_as_i64(json_field(res, "interval_secs"@)) == Some(service.interval_secs),
        json_field(res, "enabled"@) == JsonValue::Bool(service.enabled == 1),
        json_opt_text(json_field(res, "system_id"@), system_id.deep_view()),
        json_as_str(json_field(res, "created_at"@)) == Some(service.created_at@),
        json_as_str(json_field(res, "updated_at"@)) == Some(service.updated_at@),
{
    let mut m: Vec<(String, JsonValue)> = Vec::new();
    m.push((String::from_str("id"), JsonValue::String(service.id.clone())));
    m.push((String::from_str("name"), JsonValue::String(service.name.clone())));
    m.push((String::from_str("service_type"), JsonValue::String(service.service_type.clone())));
    m.push((String::from_str("config"), config));
    m.push((String::from_str("interval_secs"), JsonValue::Number(JsonNumber::from_i64(service.interval_secs))));
    m.push((String::from_str("enabled"), JsonValue::Bool(service.enabled == 1)));
    m.push((String::from_str("system_id"), opt_string_value(system_id)));
    m.push((String::from_str("created_at"), JsonValue::String(service.created_at.clone())));
    m.push((String::from_str("updated_at"), JsonValue::String(service.updated_at.clone())));
    match latest_check {
        None => {},
        Some(None) => {
            m.push((String::from_str("latest_check"), JsonValue::Null));
        },
        Some(Some(c)) => {
            m.push((String::from_str("latest_check"), latest_check_value(&c)));
        },
    }
    proof {
        reveal_strlit("id");
        reveal_strlit("name");
        reveal_strlit("service_type");
        reveal_strlit("config");
        reveal_strlit("interval_secs");
        reveal_strlit("enabled");
        reveal_strlit("system_id");
        reveal_strlit("created_at");
        reveal_strlit("updated_at");
        assert("id"@[0] == 'i' && "id"@[1] == 'd');
        assert("name"@[0] == 'n' && "name"@[1] == 'a');
        assert("service_type"@[0] == 's' && "service_type"@[1] == 'e');
        assert("config"@[0] == 'c' && "config"@[1] == 'o');
        assert("interval_secs"@[0] == 'i' && "interval_secs"@[1] == 'n');
        assert("enabled"@[0] == 'e' && "enabled"@[1] == 'n');
        assert("system_id"@[0] == 's' && "system_id"@[1] == 'y');
        assert("created_at"@[0] == 'c' && "created_at"@[1] == 'r');
        assert("updated_at"@[0] == 'u' && "updated_at"@[1] == 'p');
        crate::json::lemma_field_of_first_member(m, "id"@, 0);
        crate::json::lemma_field_of_first_member(m, "name"@, 1);
        crate::json::lemma_field_of_first_member(m, "service_type"@, 2);
        crate::json::lemma_field_of_first_member(m, "config"@, 3);
        crate::json::lemma_field_of_first_member(m, "interval_secs"@, 4);
        crate::json::lemma_field_of_first_member(m, "enabled"@, 5);
        crate::json::lemma_field_of_first_member(m, "system_id"@, 6);
        crate::json::lemma_field_of_first_member(m, "created_at"@, 7);
        crate::json::lemma_field_of_first_member(m, "updated_at"@, 8);
    }
    JsonValue::Object(m)
}

/// A listed service shows `enabled: true` exactly when its stored flag is
/// 1, so an enabled service shows `true` and any other flag `false`; and
/// after an update that enables or disables a service, both the listing and
/// the update message show what the update asked for.
pub proof fn lemma_enabled_shown(
    m: Seq<(Seq<char>, JsonValue)>,
    s: Service,
    system_id: Option<Seq<char>>,
    config: JsonValue,
    current: ServiceFields,
    update: ServiceUpdateView,
    e: bool,
)
    requires
        shows_service(m, s, system_id, config),
    ensures
        m[5] == ("enabled"@, JsonValue::Bool(s.enabled == 1)),
        s.enabled == 1 ==> m[5].1 == JsonValue::Bool(true),
        s.enabled != 1 ==> m[5].1 == JsonValue::Bool(false),
        update.enabled == Some(e) && s.enabled == spec_apply_service_update(current, update).enabled
            ==> m[5].1 == JsonValue::Bool(e),
{
}

/// Whether `v` is the reply to a created service: its id, name, system and
/// time of creation.
pub open spec fn is_created_service_reply(
    v: JsonValue,
    id: Seq<char>,
    name: Seq<char>,
    system_id: Option<Seq<char>>,
    created_at: Seq<char>,
) -> bool {
    object_view(v) matches Some(m) && {
        &&& m.len() == 4
        &&& m[0].0 == "id"@ && json_as_str(m[0].1) == Some(id)
        &&& m[1].0 == "name"@ && json_as_str(m[1].1) == Some(name)
        &&& m[2].0 == "system_id"@ && json_opt_text(m[2].1, system_id)
        &&& m[3].0 == "created_at"@ && json_as_str(m[3].1) == Some(created_at)
    }
}

/// The reply to a created service.
pub fn created_service_reply(id: &String, name: &String, system_id: &Option<String>, created_at: &String) -> (res: JsonValue)
    ensures
        is_created_service_reply(res, id@, name@, system_id.deep_view(), created_at@),
{
    let mut m: Vec<(String, JsonValue)> = Vec::new();
    m.push((String::from_str("id"), JsonValue::String(id.clone())));
    m.push((String::from_str("name"), JsonValue::String(name.clone())));
    m.push((String::from_str("system_id"), opt_string_value(system_id)));
    m.push((String::from_str("created_at"), JsonValue::String(created_at.clone())));
    JsonValue::Object(m)
}

/// The reply to an updated service: its id and time of update.
pub fn updated_service_reply(id: &String, updated_at: &String) -> (res: JsonValue)
    ensures
        object_view(res) matches Some(m) && m.len() == 2 && m[0].0 == "id"@ && json_as_str(m[0].1) == Some(id@)
            && m[1].0 == "updated_at"@ && json_as_str(m[1].1) == Some(updated_at@),
{
    let mut m: Vec<(String, JsonValue)> = Vec::new();
    m.push((String::from_str("id"), JsonValue::String(id.clone())));
    m.push((String::from_str("updated_at"), JsonValue::String(updated_at.clone())));
    JsonValue::Object(m)
}

} // verus!
