//! Systems group services: their health, derived from the latest check of
//! each service in them, and how an update to a system is merged.

use vstd::prelude::*;
use crate::checkers::{object_view, or_default};
use crate::json::{JsonNumber, JsonValue, json_as_i64, json_as_str, json_field};
use crate::models::system::UpdateSystem;
use crate::ws::messages::{json_opt_text, opt_string_value};

verus! {

/// Whether `v` shows a system: its id, name, description, health, number of
/// services, and times of creation and update.
pub open spec fn is_system_value(
    v: JsonValue,
    id: Seq<char>,
    name: Seq<char>,
    description: Option<Seq<char>>,
    health: Seq<char>,
    service_count: i64,
    created_at: Seq<char>,
    updated_at: Seq<char>,
) -> bool {
    object_view(v) matches Some(m) && {
        &&& m.len() == 7
        &&& m[0].0 == "id"@ && json_as_str(m[0].1) == Some(id)
        &&& m[1].0 == "name"@ && json_as_str(m[1].1) == Some(name)
        &&& m[2].0 == "description"@ && json_opt_text(m[2].1, description)
        &&& m[3].0 == "health"@ && json_as_str(m[3].1) == Some(health)
        &&& m[4].0 == "service_count"@ && json_as_i64(m[4].1) == Some(service_count)
        &&& m[5].0 == "created_at"@ && json_as_str(m[5].1) == Some(created_at)
        &&& m[6].0 == "updated_at"@ && json_as_str(m[6].1) == Some(updated_at)
    }
}

/// The JSON value of a system, as listed. A system just created is shown
/// with health `unknown` and no services.
pub fn system_value(
    id: &String,
    name: &String,
    description: &Option<String>,
    health: &str,
    service_count: i64,
    created_at: &String,
    updated_at: &String,
) -> (res: JsonValue)
    ensures
        is_system_value(res, id@, name@, description.deep_view(), health@, service_count, created_at@, updated_at@),
        json_as_str(json_field(res, "id"@)) == Some(id@),
        json_as_str(json_field(res, "name"@)) == Some(name@),
        json_opt_text(json_field(res, "description"@), description.deep_view()),
        json_as_str(json_field(res, "health"@)) == Some(health@),
        json_as_i64(json_field(res, "service_count"@)) == Some(service_count),
{
    let mut m: Vec<(String, JsonValue)> = Vec::new();
    m.push((String::from_str("id"), JsonValue::String(id.clone())));
    m.push((String::from_str("name"), JsonValue::String(name.clone())));
    m.push((String::from_str("description"), opt_string_value(description)));
    m.push((String::from_str("health"), JsonValue::String(String::from_str(health))));
    m.push((String::from_str("service_count"), JsonValue::Number(JsonNumber::from_i64(service_count))));
    m.push((String::from_str("created_at"), JsonValue::String(created_at.clone())));
    m.push((String::from_str("updated_at"), JsonValue::String(updated_at.clone())));
    proof {
        reveal_strlit("id");
        reveal_strlit("name");
        reveal_strlit("description");
        reveal_strlit("health");
        reveal_strlit("service_count");
        reveal_strlit("created_at");
        reveal_strlit("updated_at");
        assert("id"@[0] == 'i' && "id"@[1] == 'd');
        assert("name"@[0] == 'n' && "name"@[1] == 'a');
        assert("description"@[0] == 'd' && "description"@[1] == 'e');
        assert("health"@[0] == 'h' && "health"@[1] == 'e');
        assert("service_count"@[0] == 's' && "service_count"@[1] == 'e');
        assert("created_at"@[0] == 'c' && "created_at"@[1] == 'r');
        assert("updated_at"@[0] == 'u' && "updated_at"@[1] == 'p');
        crate::json::lemma_field_of_first_member(m, "id"@, 0);
        crate::json::lemma_field_of_first_member(m, "name"@, 1);
        crate::json::lemma_field_of_first_member(m, "description"@, 2);
        crate::json::lemma_field_of_first_member(m, "health"@, 3);
        crate::json::lemma_field_of_first_member(m, "service_count"@, 4);
        crate::json::lemma_field_of_first_member(m, "created_at"@, 5);
        crate::json::lemma_field_of_first_member(m, "updated_at"@, 6);
    }
    JsonValue::Object(m)
}

/// The reply to an updated system: its id, name and time of update.
pub fn updated_system_reply(id: &String, name: &String, updated_at: &String) -> (res: JsonValue)
    ensures
        object_view(res) matches Some(m) && m.len() == 3 && m[0].0 == "id"@ && json_as_str(m[0].1) == Some(id@)
            && m[1].0 == "name"@ && json_as_str(m[1].1) == Some(name@) && m[2].0 == "updated_at"@
            && json_as_str(m[2].1) == Some(updated_at@),
{
    let mut m: Vec<(String, JsonValue)> = Vec::new();
    m.push((String::from_str("id"), JsonValue::String(id.clone())));
    m.push((String::from_str("name"), JsonValue::String(name.clone())));
    m.push((String::from_str("updated_at"), JsonValue::String(updated_at.clone())));
    JsonValue::Object(m)
}

/// The health of a group of services from the statuses of their latest
/// checks: `unknown` with none, `down` if any is `down`, else `degraded` if
/// any is `degraded`, else `up`.
pub open spec fn spec_health(statuses: Seq<Seq<char>>) -> Seq<char> {
    if statuses.len() == 0 {
        "unknown"@
    } else if statuses.contains("down"@) {
        "down"@
    } else if statuses.contains("degraded"@) {
        "degraded"@
    } else {
        "up"@
    }
}

/// Whether a status text is the given label.
fn is_label(s: &String, label: &str) -> (res: bool)
    ensures
        res == (s@ == label@),
{
    *s == String::from_str(label)
}

/// The health of a system from the statuses of the latest checks of its
/// services (see [`spec_health`]).
pub fn derive_health(statuses: &Vec<String>) -> (res: &'static str)
    ensures
        res@ == spec_health(statuses.deep_view()),
{
    let ghost st = statuses.deep_view();
    if statuses.len() == 0 {
        return "unknown";
    }
    let mut worst = "up";
    let mut i: usize = 0;
    while i < statuses.len()
        invariant
            st == statuses.deep_view(),
            st.len() > 0,
            i <= st.len(),
            forall|k: int| 0 <= k < i ==> st[k] != "down"@,
            worst@ == (if (exists|k: int| 0 <= k < i && st[k] == "degraded"@) {
                "degraded"@
            } else {
                "up"@
            }),
        decreases st.len() - i,
    {
        if is_label(&statuses[i], "down") {
            assert(st[i as int] == "down"@);
            return "down";
        } else if is_label(&statuses[i], "degraded") {
            assert(st[i as int] == "degraded"@);
            worst = "degraded";
        }
        i = i + 1;
    }
    proof {
        if st.contains("down"@) {
            let k = choose|k: int| 0 <= k < st.len() && st[k] == "down"@;
            assert(st[k] != "down"@);
        }
        if st.contains("degraded"@) {
            let k = choose|k: int| 0 <= k < st.len() && st[k] == "degraded"@;
            assert(exists|j: int| 0 <= j < i && st[j] == "degraded"@);
        }
    }
    worst
}

/// The rank of a health label: `unknown` below `up` below `degraded` below `down`.
pub open spec fn health_rank(h: Seq<char>) -> int {
    if h == "down"@ {
        3
    } else if h == "degraded"@ {
        2
    } else if h == "up"@ {
        1
    } else {
        0
    }
}

/// The worse of two health labels.
pub open spec fn worse_health(a: Seq<char>, b: Seq<char>) -> Seq<char> {
    if health_rank(a) >= health_rank(b) {
        a
    } else {
        b
    }
}

/// A system with no checked services is `unknown`; one with any service
/// `down` is `down`; otherwise one with any `degraded` is `degraded`; and one
/// whose services are all `up` is `up`.
pub proof fn lemma_health_rules(statuses: Seq<Seq<char>>)
    ensures
        statuses.len() == 0 ==> spec_health(statuses) == "unknown"@,
        statuses.contains("down"@) ==> spec_health(statuses) == "down"@,
        !statuses.contains("down"@) && statuses.contains("degraded"@) ==> spec_health(statuses) == "degraded"@,
        statuses.len() > 0 && (forall|i: int| 0 <= i < statuses.len() ==> statuses[i] == "up"@)
            ==> spec_health(statuses) == "up"@,
{
    reveal_strlit("down");
    reveal_strlit("degraded");
    reveal_strlit("up");
    if statuses.len() > 0 && (forall|i: int| 0 <= i < statuses.len() ==> statuses[i] == "up"@) {
        if statuses.contains("down"@) {
            let k = choose|k: int| 0 <= k < statuses.len() && statuses[k] == "down"@;
            assert(statuses[k][0] != "down"@[0]);
        }
        if statuses.contains("degraded"@) {
            let k = choose|k: int| 0 <= k < statuses.len() && statuses[k] == "degraded"@;
            assert(statuses[k][0] != "degraded"@[0]);
        }
    }
}

/// The health of a system does not depend on the order in which the
/// statuses of its services are listed.
pub proof fn lemma_health_order_independent(a: Seq<Seq<char>>, b: Seq<Seq<char>>)
    requires
        a.to_multiset() == b.to_multiset(),
    ensures
        spec_health(a) == spec_health(b),
{
    a.to_multiset_ensures();
    b.to_multiset_ensures();
    assert(a.len() == a.to_multiset().len() && b.len() == b.to_multiset().len());
    vstd::seq_lib::to_multiset_contains(a, "down"@);
    vstd::seq_lib::to_multiset_contains(b, "down"@);
    vstd::seq_lib::to_multiset_contains(a, "degraded"@);
    vstd::seq_lib::to_multiset_contains(b, "degraded"@);
}

/// The health of two groups of statuses together is the worse of their
/// healths; no statuses at all count as `unknown`, the best.
pub proof fn lemma_health_of_union(a: Seq<Seq<char>>, b: Seq<Seq<char>>)
    ensures
        spec_health(a + b) == worse_health(spec_health(a), spec_health(b)),
{
    reveal_strlit("down");
    reveal_strlit("degraded");
    reveal_strlit("up");
    reveal_strlit("unknown");
    let ab = a + b;
    assert forall|x: Seq<char>| ab.contains(x) <==> (a.contains(x) || b.contains(x)) by {
        if ab.contains(x) {
            let k = choose|k: int| 0 <= k < ab.len() && ab[k] == x;
            if k < a.len() {
                assert(a[k] == x);
            } else {
                assert(b[k - a.len()] == x);
            }
        }
        if a.contains(x) {
            let k = choose|k: int| 0 <= k < a.len() && a[k] == x;
            assert(ab[k] == x);
        }
        if b.contains(x) {
            let k = choose|k: int| 0 <= k < b.len() && b[k] == x;
            assert(ab[k + a.len()] == x);
        }
    }
}

/// The stored fields of a system that an update reads.
#[derive(Debug)]
pub struct SystemRecord {
    pub id: String,
    pub name: String,
    pub description: Option<String>,
}

/// The name and description of a system, as texts.
pub type SystemFields = (Seq<char>, Option<Seq<char>>);

/// An update to a system, as texts.
pub type SystemUpdateView = (Option<Seq<char>>, Option<Seq<char>>);

impl SystemRecord {
    /// The name and description of this system.
    pub open spec fn fields(&self) -> SystemFields {
        (self.name@, self.description.deep_view())
    }
}

impl UpdateSystem {
    /// The changes this update asks for.
    pub open spec fn changes(&self) -> SystemUpdateView {
        (self.name.deep_view(), self.description.deep_view())
    }
}

/// A system after an update: each field the update gives replaces the
/// stored one; the others stay.
pub open spec fn spec_apply_system_update(current: SystemFields, update: SystemUpdateView) -> SystemFields {
    (or_default(update.0, current.0), if update.1 is Some { update.1 } else { current.1 })
}

/// Merges an update into a stored system, giving the name and description
/// to store.
pub fn merge_system_update(current: &SystemRecord, body: UpdateSystem) -> (res: (String, Option<String>))
    ensures
        (res.0@, res.1.deep_view()) == spec_apply_system_update(current.fields(), body.changes()),
        res.0@ == (if body.name is Some { body.name.deep_view()->0 } else { current.name@ }),
        res.1.deep_view() == (if body.description is Some { body.description.deep_view() } else { current.description.deep_view() }),
{
    let name = match body.name {
        Some(n) => n,
        None => current.name.clone(),
    };
    let description = match body.description {
        Some(d) => Some(d),
        None => match &current.description {
            Some(d) => Some(d.clone()),
            None => None,
        },
    };
    (name, description)
}

/// Each field an update gives is stored exactly as given; each field it
/// leaves out keeps its stored value.
pub proof fn lemma_system_update_fields(current: SystemFields, update: SystemUpdateView)
    ensures
        forall|n: Seq<char>| update.0 == Some(n) ==> spec_apply_system_update(current, update).0 == n,
        update.0 is None ==> spec_apply_system_update(current, update).0 == current.0,
        forall|d: Seq<char>| update.1 == Some(d) ==> spec_apply_system_update(current, update).1 == Some(d),
        update.1 is None ==> spec_apply_system_update(current, update).1 == current.1,
{
}

/// An update that gives no field leaves a system as it is.
pub proof fn lemma_system_empty_update(current: SystemFields)
    ensures
        spec_apply_system_update(current, (None, None)) == current,
{
}

/// Applying the same update twice is the same as applying it once.
pub proof fn lemma_system_update_idempotent(current: SystemFields, update: SystemUpdateView)
    ensures
        spec_apply_system_update(spec_apply_system_update(current, update), update)
            == spec_apply_system_update(current, update),
{
}

/// Two updates in turn are one update holding the later value of each field
/// the later one gives and the earlier value of the others.
pub proof fn lemma_system_updates_compose(current: SystemFields, first: SystemUpdateView, second: SystemUpdateView)
    ensures
        spec_apply_system_update(spec_apply_system_update(current, first), second)
            == spec_apply_system_update(
            current,
            (if second.0 is Some { second.0 } else { first.0 }, if second.1 is Some { second.1 } else { first.1 }),
        ),
{
}

} // verus!
