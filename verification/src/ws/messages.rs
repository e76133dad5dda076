//! The messages pushed to WebSocket clients, and the ones the library
//! composes from an update.

use vstd::prelude::*;
use crate::checkers::object_view;
use crate::json::{JsonValue, json_as_str, json_as_i64, json_field};
use crate::routes::services::ServiceChange;

verus! {

/// A message to WebSocket clients.
#[derive(Debug)]
pub enum WsMessage {
    CheckCompleted {
        service_id: String,
        check_id: String,
        checked_at: String,
        status: String,
        response_ms: Option<i64>,
        detail: Option<JsonValue>,
        error_message: Option<String>,
    },
    IncidentOpened { incident_id: String, service_id: String, started_at: String, trigger_status: String },
    IncidentResolved { incident_id: String, service_id: String, resolved_at: String },
    ServiceUpdated { service_id: String, fields: JsonValue },
    SystemUpdated { system_id: String, fields: JsonValue },
    Ping { ts: String },
}

/// The message announcing that an incident of a service was resolved.
pub fn incident_resolved_message(incident_id: &String, service_id: &String, resolved_at: &String) -> (res: WsMessage)
    ensures
        res matches WsMessage::IncidentResolved { incident_id: i, service_id: s, resolved_at: t } && i@ == incident_id@
            && s@ == service_id@ && t@ == resolved_at@,
{
    WsMessage::IncidentResolved {
        incident_id: incident_id.clone(),
        service_id: service_id.clone(),
        resolved_at: resolved_at.clone(),
    }
}

/// A string value, or `Null` for none.
pub open spec fn json_opt_text(v: JsonValue, text: Option<Seq<char>>) -> bool {
    match text {
        Some(t) => json_as_str(v) == Some(t),
        None => v == JsonValue::Null,
    }
}

/// An optional text is shown as a string holding it, or as `Null` for none.
pub proof fn lemma_opt_text(v: JsonValue, t: Seq<char>)
    ensures
        json_opt_text(v, Some(t)) == (json_as_str(v) == Some(t)),
        json_opt_text(v, None) == (v == JsonValue::Null),
{
}

/// The JSON value of an optional text: the string, or `Null`.
pub fn opt_string_value(s: &Option<String>) -> (res: JsonValue)
    ensures
        json_opt_text(res, s.deep_view()),
{
    match s {
        Some(t) => JsonValue::String(t.clone()),
        None => JsonValue::Null,
    }
}

/// Whether `fields` lists a service's name, interval, whether it is enabled,
/// and its system, as a service update announces them.
pub open spec fn is_service_update_fields(fields: JsonValue, change: ServiceChange) -> bool {
    object_view(fields) matches Some(m) && {
        &&& m.len() == 4
        &&& m[0].0 == "name"@ && json_as_str(m[0].1) == Some(change.name@)
        &&& m[1].0 == "interval_secs"@ && json_as_i64(m[1].1) == Some(change.interval_secs)
        &&& m[2].0 == "enabled"@ && m[2].1 == JsonValue::Bool(change.enabled == 1)
        &&& m[3].0 == "system_id"@ && json_opt_text(m[3].1, change.effective_system_id.deep_view())
    }
}

/// The message announcing an update to a service.
pub fn service_updated_message(service_id: &String, change: &ServiceChange) -> (res: WsMessage)
    ensures
        res matches WsMessage::ServiceUpdated { service_id: id, fields } && id@ == service_id@
            && is_service_update_fields(fields, *change),
        res matches WsMessage::ServiceUpdated { fields, .. } && object_view(fields) matches Some(m) && m.len() == 4
            && m[2] == ("enabled"@, JsonValue::Bool(change.enabled == 1)),
        res matches WsMessage::ServiceUpdated { fields, .. } && json_as_str(json_field(fields, "name"@)) == Some(
            change.name@,
        ) && json_as_i64(json_field(fields, "interval_secs"@)) == Some(change.interval_secs) && json_field(
            fields,
            "enabled"@,
        ) == JsonValue::Bool(change.enabled == 1) && json_opt_text(
            json_field(fields, "system_id"@),
            change.effective_system_id.deep_view(),
        ),
{
    let mut m: Vec<(String, JsonValue)> = Vec::new();
    m.push((String::from_str("name"), JsonValue::String(change.name.clone())));
    m.push(
        (
            String::from_str("interval_secs"),
            JsonValue::Number(crate::json::JsonNumber::from_i64(change.interval_secs)),
        ),
    );
    m.push((String::from_str("enabled"), JsonValue::Bool(change.enabled == 1)));
    m.push((String::from_str("system_id"), opt_string_value(&change.effective_system_id)));
    proof {
        reveal_strlit("name");
        reveal_strlit("interval_secs");
        reveal_strlit("enabled");
        reveal_strlit("system_id");
        assert("name"@[0] == 'n' && "name"@[1] == 'a');
        assert("interval_secs"@[0] == 'i' && "interval_secs"@[1] == 'n');
        assert("enabled"@[0] == 'e' && "enabled"@[1] == 'n');
        assert("system_id"@[0] == 's' && "system_id"@[1] == 'y');
        crate::json::lemma_field_of_first_member(m, "name"@, 0);
        crate::json::lemma_field_of_first_member(m, "interval_secs"@, 1);
        crate::json::lemma_field_of_first_member(m, "enabled"@, 2);
        crate::json::lemma_field_of_first_member(m, "system_id"@, 3);
    }
    WsMessage::ServiceUpdated { service_id: service_id.clone(), fields: JsonValue::Object(m) }
}

/// Whether `fields` lists a system's name, description and time of update,
/// as a system update announces them.
pub open spec fn is_system_update_fields(
    fields: JsonValue,
    name: Seq<char>,
    description: Option<Seq<char>>,
    updated_at: Seq<char>,
) -> bool {
    object_view(fields) matches Some(m) && {
        &&& m.len() == 3
        &&& m[0].0 == "name"@ && json_as_str(m[0].1) == Some(name)
        &&& m[1].0 == "description"@ && json_opt_text(m[1].1, description)
        &&& m[2].0 == "updated_at"@ && json_as_str(m[2].1) == Some(updated_at)
    }
}

/// The message announcing an update to a system.
pub fn system_updated_message(
    system_id: &String,
    name: &String,
    description: &Option<String>,
    updated_at: &String,
) -> (res: WsMessage)
    ensures
        res matches WsMessage::SystemUpdated { system_id: id, fields } && id@ == system_id@
            && is_system_update_fields(fields, name@, description.deep_view(), updated_at@),
        res matches WsMessage::SystemUpdated { fields, .. } && json_as_str(json_field(fields, "name"@)) == Some(name@)
            && json_opt_text(json_field(fields, "description"@), description.deep_view()) && json_as_str(
            json_field(fields, "updated_at"@),
        ) == Some(updated_at@),
{
    let mut m: Vec<(String, JsonValue)> = Vec::new();
    m.push((String::from_str("name"), JsonValue::String(name.clone())));
    m.push((String::from_str("description"), opt_string_value(description)));
    m.push((String::from_str("updated_at"), JsonValue::String(updated_at.clone())));
    proof {
        reveal_strlit("name");
        reveal_strlit("description");
        reveal_strlit("updated_at");
        assert("name"@[0] == 'n' && "name"@[1] == 'a');
        assert("description"@[0] == 'd' && "description"@[1] == 'e');
        assert("updated_at"@[0] == 'u' && "updated_at"@[1] == 'p');
        crate::json::lemma_field_of_first_member(m, "name"@, 0);
        crate::json::lemma_field_of_first_member(m, "description"@, 1);
        crate::json::lemma_field_of_first_member(m, "updated_at"@, 2);
    }
    WsMessage::SystemUpdated { system_id: system_id.clone(), fields: JsonValue::Object(m) }
}

} // verus!
