use backend::json::{JsonNumber, JsonValue};
use backend::models::check_result::{classify, CheckStatus};
use backend::models::service::{Service, UpdateService};
use backend::models::system::UpdateSystem;
use backend::routes::check_results::{checks_query, parse_limit, ChecksQuery};
use backend::routes::services::{
    created_service_reply, interval_or_default, latest_check_value, merge_service_update, service_value,
    updated_service_reply, uptime_window, LatestCheck, SchedulerAction, ServiceRecord,
};
use backend::routes::systems::{derive_health, merge_system_update, system_value, updated_system_reply, SystemRecord};
use backend::scheduler::TaskRegistry;
use backend::ws::messages::{incident_resolved_message, service_updated_message, system_updated_message, WsMessage};

fn s(x: &str) -> String {
    x.to_string()
}

fn text(x: &str) -> JsonValue {
    JsonValue::String(s(x))
}

fn num(n: i64) -> JsonValue {
    JsonValue::Number(JsonNumber::from_i64(n))
}

fn obj(members: Vec<(&str, JsonValue)>) -> JsonValue {
    JsonValue::Object(members.into_iter().map(|(k, v)| (s(k), v)).collect())
}

fn statuses(xs: &[&str]) -> Vec<String> {
    xs.iter().map(|x| s(x)).collect()
}

#[test]
fn health_of_systems() {
    assert_eq!(derive_health(&statuses(&[])), "unknown");
    assert_eq!(derive_health(&statuses(&["up", "up"])), "up");
    assert_eq!(derive_health(&statuses(&["up", "degraded", "up"])), "degraded");
    assert_eq!(derive_health(&statuses(&["degraded", "down", "up"])), "down");
    assert_eq!(derive_health(&statuses(&["paused"])), "up");
}

#[test]
fn health_ignores_order_and_takes_the_worse_of_groups() {
    let a = statuses(&["up", "degraded"]);
    let b = statuses(&["degraded", "up"]);
    assert_eq!(derive_health(&a), derive_health(&b));
    let c = statuses(&["down"]);
    let mut ac = a.clone();
    ac.extend(c.clone());
    assert_eq!(derive_health(&ac), "down");
    let mut a_empty = a.clone();
    a_empty.extend(statuses(&[]));
    assert_eq!(derive_health(&a_empty), derive_health(&a));
}

#[test]
fn classify_statuses() {
    assert_eq!(classify(false, Some(1), 0), CheckStatus::Down);
    assert_eq!(classify(true, Some(10), 11), CheckStatus::Degraded);
    assert_eq!(classify(true, Some(10), 10), CheckStatus::Up);
    assert_eq!(CheckStatus::Degraded.as_str(), "degraded");
    assert_eq!(CheckStatus::Up.as_str(), "up");
    assert_eq!(CheckStatus::Down.as_str(), "down");
}

#[test]
fn limits_and_windows() {
    assert_eq!(parse_limit(None), 50);
    assert_eq!(parse_limit(Some(&s("10"))), 10);
    assert_eq!(parse_limit(Some(&s("-3"))), -3);
    assert_eq!(parse_limit(Some(&s("ten"))), 50);
    assert_eq!(parse_limit(Some(&s("99999999999999999999"))), 50);
    assert_eq!(uptime_window(None), (s("7d"), 7));
    assert_eq!(uptime_window(Some(&s("24h"))), (s("24h"), 1));
    assert_eq!(uptime_window(Some(&s("30d"))), (s("30d"), 30));
    assert_eq!(uptime_window(Some(&s("90d"))), (s("90d"), 90));
    assert_eq!(uptime_window(Some(&s("1y"))), (s("1y"), 7));
    assert_eq!(interval_or_default(None), 60);
    assert_eq!(interval_or_default(Some(15)), 15);
}

fn record() -> ServiceRecord {
    ServiceRecord {
        id: s("svc"),
        name: s("api"),
        config: s("{\"url\":\"u\"}"),
        interval_secs: 60,
        enabled: 1,
        system_id: Some(s("sys")),
    }
}

fn no_change() -> UpdateService {
    UpdateService { name: None, config: None, interval_secs: None, enabled: None, system_id: None }
}

#[test]
fn empty_service_update_keeps_everything() {
    let c = merge_service_update(&record(), no_change());
    assert_eq!(c.name, "api");
    assert_eq!(c.config, "{\"url\":\"u\"}");
    assert_eq!(c.interval_secs, 60);
    assert_eq!(c.enabled, 1);
    assert_eq!(c.system_id, None);
    assert_eq!(c.effective_system_id, Some(s("sys")));
    assert_eq!(c.action, SchedulerAction::Spawn);
}

#[test]
fn service_update_replaces_given_fields() {
    let u = UpdateService {
        name: Some(s("web")),
        config: Some(s("{}")),
        interval_secs: Some(30),
        enabled: Some(false),
        system_id: Some(None),
    };
    let c = merge_service_update(&record(), u);
    assert_eq!(c.name, "web");
    assert_eq!(c.config, "{}");
    assert_eq!(c.interval_secs, 30);
    assert_eq!(c.enabled, 0);
    assert_eq!(c.system_id, Some(None));
    assert_eq!(c.effective_system_id, None);
    assert_eq!(c.action, SchedulerAction::Abort);
    let u = UpdateService { system_id: Some(Some(s("other"))), enabled: Some(true), ..no_change() };
    let mut disabled = record();
    disabled.enabled = 0;
    let c = merge_service_update(&disabled, u);
    assert_eq!(c.effective_system_id, Some(s("other")));
    assert_eq!(c.enabled, 1);
    assert_eq!(c.action, SchedulerAction::Spawn);
}

#[test]
fn service_update_applied_twice_is_applied_once() {
    let u = || UpdateService { name: Some(s("web")), interval_secs: Some(5), ..no_change() };
    let once = merge_service_update(&record(), u());
    let again_record = ServiceRecord {
        id: s("svc"),
        name: once.name.clone(),
        config: once.config.clone(),
        interval_secs: once.interval_secs,
        enabled: once.enabled,
        system_id: once.effective_system_id.clone(),
    };
    let twice = merge_service_update(&again_record, u());
    assert_eq!((twice.name, twice.config, twice.interval_secs, twice.enabled), (once.name, once.config, once.interval_secs, once.enabled));
    assert_eq!(twice.effective_system_id, once.effective_system_id);
}

#[test]
fn a_stored_flag_other_than_one_stops_the_loop() {
    let mut r = record();
    r.enabled = 2;
    assert_eq!(merge_service_update(&r, no_change()).action, SchedulerAction::Abort);
}

#[test]
fn system_update_merges() {
    let r = SystemRecord { id: s("sys"), name: s("Payments"), description: Some(s("card flow")) };
    assert_eq!(merge_system_update(&r, UpdateSystem { name: None, description: None }), (s("Payments"), Some(s("card flow"))));
    assert_eq!(
        merge_system_update(&r, UpdateSystem { name: Some(s("Billing")), description: Some(s("new")) }),
        (s("Billing"), Some(s("new")))
    );
    let bare = SystemRecord { id: s("sys"), name: s("X"), description: None };
    assert_eq!(merge_system_update(&bare, UpdateSystem { name: None, description: None }), (s("X"), None));
}

#[test]
fn registry_keeps_one_handle_per_service() {
    let mut reg: TaskRegistry<u32> = TaskRegistry::new();
    assert_eq!(reg.len(), 0);
    assert_eq!(reg.insert(s("a"), 1), None);
    assert_eq!(reg.insert(s("b"), 2), None);
    assert_eq!(reg.len(), 2);
    assert_eq!(reg.insert(s("a"), 3), Some(1));
    assert_eq!(reg.len(), 2);
    assert!(reg.contains(&s("a")));
    assert_eq!(reg.remove(&s("a")), Some(3));
    assert!(!reg.contains(&s("a")));
    assert_eq!(reg.remove(&s("a")), None);
    assert_eq!(reg.remove(&s("b")), Some(2));
    assert_eq!(reg.len(), 0);
}

#[test]
fn restart_then_stop() {
    let mut reg: TaskRegistry<&str> = TaskRegistry::new();
    reg.insert(s("svc"), "first");
    // Restarting: the old handle comes out to be aborted, the new one goes in.
    assert_eq!(reg.remove(&s("svc")), Some("first"));
    assert_eq!(reg.insert(s("svc"), "second"), None);
    assert_eq!(reg.remove(&s("svc")), Some("second"));
    assert_eq!(reg.len(), 0);
}

#[test]
fn update_messages() {
    let c = merge_service_update(&record(), UpdateService { enabled: Some(false), ..no_change() });
    match service_updated_message(&s("svc"), &c) {
        WsMessage::ServiceUpdated { service_id, fields } => {
            assert_eq!(service_id, "svc");
            assert_eq!(
                fields,
                obj(vec![("name", text("api")), ("interval_secs", num(60)), ("enabled", JsonValue::Bool(false)), ("system_id", text("sys"))])
            );
        },
        _ => panic!("expected a service update"),
    }
    match system_updated_message(&s("sys"), &s("Payments"), &None, &s("2024-01-01T00:00:00Z")) {
        WsMessage::SystemUpdated { system_id, fields } => {
            assert_eq!(system_id, "sys");
            assert_eq!(
                fields,
                obj(vec![("name", text("Payments")), ("description", JsonValue::Null), ("updated_at", text("2024-01-01T00:00:00Z"))])
            );
        },
        _ => panic!("expected a system update"),
    }
}

fn service() -> Service {
    Service {
        id: s("svc"),
        name: s("api"),
        service_type: s("http"),
        config: s("{\"url\":\"u\"}"),
        interval_secs: 60,
        enabled: 0,
        created_at: s("t0"),
        updated_at: s("t1"),
    }
}

#[test]
fn service_replies() {
    let config = obj(vec![("url", text("u"))]);
    let single = service_value(&service(), &None, config, None);
    let expected_head = vec![
        ("id", text("svc")),
        ("name", text("api")),
        ("service_type", text("http")),
        ("config", obj(vec![("url", text("u"))])),
        ("interval_secs", num(60)),
        ("enabled", JsonValue::Bool(false)),
        ("system_id", JsonValue::Null),
        ("created_at", text("t0")),
        ("updated_at", text("t1")),
    ];
    assert_eq!(single, obj(expected_head));
    let listed = service_value(&service(), &Some(s("sys")), JsonValue::Null, Some(None));
    match listed {
        JsonValue::Object(m) => {
            assert_eq!(m.len(), 10);
            assert_eq!(m[3], (s("config"), JsonValue::Null));
            assert_eq!(m[6], (s("system_id"), text("sys")));
            assert_eq!(m[9], (s("latest_check"), JsonValue::Null));
        },
        _ => panic!("expected an object"),
    }
    let check = LatestCheck { id: s("c1"), checked_at: s("t2"), status: s("up"), response_ms: Some(42), error_message: None };
    assert_eq!(
        latest_check_value(&check),
        obj(vec![("id", text("c1")), ("checked_at", text("t2")), ("status", text("up")), ("response_ms", num(42)), ("error_message", JsonValue::Null)])
    );
    assert_eq!(
        created_service_reply(&s("svc"), &s("api"), &None, &s("t0")),
        obj(vec![("id", text("svc")), ("name", text("api")), ("system_id", JsonValue::Null), ("created_at", text("t0"))])
    );
    assert_eq!(updated_service_reply(&s("svc"), &s("t3")), obj(vec![("id", text("svc")), ("updated_at", text("t3"))]));
}

#[test]
fn system_replies() {
    assert_eq!(
        system_value(&s("sys"), &s("Payments"), &None, "unknown", 0, &s("t0"), &s("t0")),
        obj(vec![
            ("id", text("sys")),
            ("name", text("Payments")),
            ("description", JsonValue::Null),
            ("health", text("unknown")),
            ("service_count", num(0)),
            ("created_at", text("t0")),
            ("updated_at", text("t0")),
        ])
    );
    assert_eq!(
        updated_system_reply(&s("sys"), &s("P"), &s("t1")),
        obj(vec![("id", text("sys")), ("name", text("P")), ("updated_at", text("t1"))])
    );
}

#[test]
fn two_service_updates_compose() {
    let first = || UpdateService { name: Some(s("one")), interval_secs: Some(10), ..no_change() };
    let second = || UpdateService { interval_secs: Some(20), enabled: Some(false), ..no_change() };
    let a = merge_service_update(&record(), first());
    let between = ServiceRecord {
        id: s("svc"),
        name: a.name.clone(),
        config: a.config.clone(),
        interval_secs: a.interval_secs,
        enabled: a.enabled,
        system_id: a.effective_system_id.clone(),
    };
    let b = merge_service_update(&between, second());
    let combined = UpdateService { name: Some(s("one")), interval_secs: Some(20), enabled: Some(false), ..no_change() };
    let c = merge_service_update(&record(), combined);
    assert_eq!((b.name, b.config, b.interval_secs, b.enabled, b.effective_system_id), (c.name, c.config, c.interval_secs, c.enabled, c.effective_system_id));
}

#[test]
fn two_system_updates_compose() {
    let r = SystemRecord { id: s("sys"), name: s("A"), description: Some(s("d")) };
    let (n1, d1) = merge_system_update(&r, UpdateSystem { name: Some(s("B")), description: None });
    let between = SystemRecord { id: s("sys"), name: n1, description: d1 };
    let twice = merge_system_update(&between, UpdateSystem { name: None, description: Some(s("e")) });
    let once = merge_system_update(&r, UpdateSystem { name: Some(s("B")), description: Some(s("e")) });
    assert_eq!(twice, once);
}

#[test]
fn check_pages() {
    assert!(matches!(checks_query(None, None), ChecksQuery::Latest { limit: 50 }));
    assert!(matches!(checks_query(Some(&s("5")), None), ChecksQuery::Latest { limit: 5 }));
    assert!(matches!(checks_query(Some(&s("5")), Some(None)), ChecksQuery::Empty));
    match checks_query(Some(&s("x")), Some(Some(s("t9")))) {
        ChecksQuery::Before { checked_at, limit } => {
            assert_eq!(checked_at, "t9");
            assert_eq!(limit, 50);
        },
        other => panic!("unexpected page {:?}", other),
    }
}

#[test]
fn incident_resolved() {
    match incident_resolved_message(&s("inc"), &s("svc"), &s("t")) {
        WsMessage::IncidentResolved { incident_id, service_id, resolved_at } => {
            assert_eq!((incident_id.as_str(), service_id.as_str(), resolved_at.as_str()), ("inc", "svc", "t"));
        },
        _ => panic!("expected an incident resolution"),
    }
}
