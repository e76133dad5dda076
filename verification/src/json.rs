//! A JSON document model that the library reads configurations from and
//! builds replies and messages in.

use vstd::prelude::*;

verus! {

/// A JSON number as the parser keeps it: a non-negative integer, a negative
/// integer, or a floating-point number kept as its shortest decimal text.
#[derive(Debug, PartialEq)]
pub enum JsonNumber {
    PosInt(u64),
    NegInt(i64),
    Float(String),
}

/// A JSON value. Object members keep their order; a key is found at its
/// first occurrence.
#[derive(Debug, PartialEq)]
pub enum JsonValue {
    Null,
    Bool(bool),
    Number(JsonNumber),
    String(String),
    Array(Vec<JsonValue>),
    Object(Vec<(String, JsonValue)>),
}

/// The value of the first member at or after position `i` whose key is `key`.
pub open spec fn member_from(entries: Seq<(String, JsonValue)>, key: Seq<char>, i: int) -> Option<JsonValue>
    decreases entries.len() - i,
{
    if i < 0 || i >= entries.len() {
        None
    } else if entries[i].0@ == key {
        Some(entries[i].1)
    } else {
        member_from(entries, key, i + 1)
    }
}

/// The member `key` of an object; `None` for a missing key or a value that
/// is not an object.
pub open spec fn json_member(v: JsonValue, key: Seq<char>) -> Option<JsonValue> {
    match v {
        JsonValue::Object(entries) => member_from(entries@, key, 0),
        _ => None,
    }
}

proof fn lemma_member_from_first(entries: Seq<(String, JsonValue)>, key: Seq<char>, start: int, i: int)
    requires
        0 <= start <= i < entries.len(),
        entries[i].0@ == key,
        forall|j: int| start <= j < i ==> entries[j].0@ != key,
    ensures
        member_from(entries, key, start) == Some(entries[i].1),
    decreases i - start,
{
    if start < i {
        lemma_member_from_first(entries, key, start + 1, i);
    }
}

/// In an object, `v[key]` is the value of the first member named `key`.
pub proof fn lemma_field_of_first_member(entries: Vec<(String, JsonValue)>, key: Seq<char>, i: int)
    requires
        0 <= i < entries@.len(),
        entries@[i].0@ == key,
        forall|j: int| 0 <= j < i ==> entries@[j].0@ != key,
    ensures
        json_field(JsonValue::Object(entries), key) == entries@[i].1,
{
    lemma_member_from_first(entries@, key, 0, i);
}

/// An object without a member named `key`, and any value that is not an
/// object, gives `Null` for `v[key]`.
pub proof fn lemma_field_missing(v: JsonValue, key: Seq<char>)
    ensures
        !(v is Object) ==> json_field(v, key) == JsonValue::Null,
        v matches JsonValue::Object(entries) && (forall|j: int| 0 <= j < entries@.len() ==> entries@[j].0@ != key)
            ==> json_field(v, key) == JsonValue::Null,
{
    if let JsonValue::Object(entries) = v {
        if forall|j: int| 0 <= j < entries@.len() ==> entries@[j].0@ != key {
            lemma_member_from_none(entries@, key, 0);
        }
    }
}

proof fn lemma_member_from_none(entries: Seq<(String, JsonValue)>, key: Seq<char>, start: int)
    requires
        0 <= start,
        forall|j: int| start <= j < entries.len() ==> entries[j].0@ != key,
    ensures
        member_from(entries, key, start) is None,
    decreases entries.len() - start,
{
    if start < entries.len() {
        lemma_member_from_none(entries, key, start + 1);
    }
}

/// `v[key]`: the member, or `Null` where there is none.
pub open spec fn json_field(v: JsonValue, key: Seq<char>) -> JsonValue {
    match json_member(v, key) {
        Some(x) => x,
        None => JsonValue::Null,
    }
}

/// `v[i]`: the element at position `i` of an array, or `Null` where there is none.
pub open spec fn json_index(v: JsonValue, i: int) -> JsonValue {
    match v {
        JsonValue::Array(items) => if 0 <= i < items@.len() {
            items@[i]
        } else {
            JsonValue::Null
        },
        _ => JsonValue::Null,
    }
}

/// The text of a string value.
pub open spec fn json_as_str(v: JsonValue) -> Option<Seq<char>> {
    match v {
        JsonValue::String(s) => Some(s@),
        _ => None,
    }
}

/// A number that is a non-negative integer.
pub open spec fn json_as_u64(v: JsonValue) -> Option<u64> {
    match v {
        JsonValue::Number(JsonNumber::PosInt(n)) => Some(n),
        _ => None,
    }
}

/// A number that is an integer representable as `i64`.
pub open spec fn json_as_i64(v: JsonValue) -> Option<i64> {
    match v {
        JsonValue::Number(JsonNumber::PosInt(n)) => if n <= i64::MAX {
            Some(n as i64)
        } else {
            None
        },
        JsonValue::Number(JsonNumber::NegInt(n)) => Some(n),
        _ => None,
    }
}

/// A string has its text and no number; a non-negative integer `n` reads as
/// `n` (and as an `i64` where it fits); a negative integer reads only as an
/// `i64`; a floating-point number reads as neither.
pub proof fn lemma_scalar_readings(text: String, n: u64, m: i64, f: String)
    ensures
        json_as_str(JsonValue::String(text)) == Some(text@),
        json_as_u64(JsonValue::String(text)) is None && json_as_i64(JsonValue::String(text)) is None,
        json_as_str(JsonValue::Null) is None && json_as_u64(JsonValue::Null) is None,
        json_as_u64(JsonValue::Number(JsonNumber::PosInt(n))) == Some(n),
        n <= i64::MAX ==> json_as_i64(JsonValue::Number(JsonNumber::PosInt(n))) == Some(n as i64),
        n > i64::MAX ==> json_as_i64(JsonValue::Number(JsonNumber::PosInt(n))) is None,
        json_as_u64(JsonValue::Number(JsonNumber::NegInt(m))) is None,
        json_as_i64(JsonValue::Number(JsonNumber::NegInt(m))) == Some(m),
        json_as_u64(JsonValue::Number(JsonNumber::Float(f))) is None,
        json_as_i64(JsonValue::Number(JsonNumber::Float(f))) is None,
        json_as_str(JsonValue::Number(JsonNumber::PosInt(n))) is None,
{
}

/// The string elements are kept in order and nothing else: there are no
/// more of them than elements, an array of strings keeps all its texts, and
/// an array with no string keeps none.
pub proof fn lemma_string_items(items: Seq<JsonValue>)
    ensures
        string_items(items).len() <= items.len(),
        (forall|i: int| 0 <= i < items.len() ==> #[trigger] items[i] is String) ==> string_items(items).len()
            == items.len() && forall|i: int|
            0 <= i < items.len() ==> Some(#[trigger] string_items(items)[i]) == json_as_str(items[i]),
        (forall|i: int| 0 <= i < items.len() ==> !(#[trigger] items[i] is String)) ==> string_items(items).len()
            == 0,
    decreases items.len(),
{
    if items.len() > 0 {
        let d = items.drop_last();
        lemma_string_items(d);
        assert(forall|i: int| 0 <= i < d.len() ==> d[i] == items[i]);
    }
}

/// The string-valued members are kept in order with their keys, and nothing
/// else: an object whose values are all strings keeps every member, and one
/// with no string value keeps none.
pub proof fn lemma_string_members(entries: Seq<(String, JsonValue)>)
    ensures
        string_members(entries).len() <= entries.len(),
        (forall|i: int| 0 <= i < entries.len() ==> #[trigger] entries[i].1 is String) ==> string_members(entries).len()
            == entries.len() && forall|i: int|
            0 <= i < entries.len() ==> (#[trigger] string_members(entries)[i]).0 == entries[i].0@ && Some(
                string_members(entries)[i].1,
            ) == json_as_str(entries[i].1),
        (forall|i: int| 0 <= i < entries.len() ==> !(#[trigger] entries[i].1 is String))
            ==> string_members(entries).len() == 0,
    decreases entries.len(),
{
    if entries.len() > 0 {
        let d = entries.drop_last();
        lemma_string_members(d);
        assert(forall|i: int| 0 <= i < d.len() ==> d[i] == entries[i]);
    }
}

/// The texts of the string elements of a sequence of values, in order.
pub open spec fn string_items(items: Seq<JsonValue>) -> Seq<Seq<char>>
    decreases items.len(),
{
    if items.len() == 0 {
        Seq::empty()
    } else {
        let rest = string_items(items.drop_last());
        match items.last() {
            JsonValue::String(s) => rest.push(s@),
            _ => rest,
        }
    }
}

/// The members of an object whose values are strings, as key and text, in order.
pub open spec fn string_members(entries: Seq<(String, JsonValue)>) -> Seq<(Seq<char>, Seq<char>)>
    decreases entries.len(),
{
    if entries.len() == 0 {
        Seq::empty()
    } else {
        let rest = string_members(entries.drop_last());
        match entries.last().1 {
            JsonValue::String(s) => rest.push((entries.last().0@, s@)),
            _ => rest,
        }
    }
}

/// The texts of the string elements of an array value; empty for any other value.
pub open spec fn json_string_items(v: JsonValue) -> Seq<Seq<char>> {
    match v {
        JsonValue::Array(items) => string_items(items@),
        _ => Seq::empty(),
    }
}

/// The string members of an object value; empty for any other value.
pub open spec fn json_string_members(v: JsonValue) -> Seq<(Seq<char>, Seq<char>)> {
    match v {
        JsonValue::Object(entries) => string_members(entries@),
        _ => Seq::empty(),
    }
}

/// The number that `serde_json` makes of an `i64`: non-negative values as
/// `PosInt`, negative ones as `NegInt`.
pub open spec fn spec_number_from_i64(x: i64) -> JsonNumber {
    if x >= 0 {
        JsonNumber::PosInt(x as u64)
    } else {
        JsonNumber::NegInt(x)
    }
}

/// An `i64` written as a number reads back as the same `i64`, and as a
/// `u64` exactly where it is not negative.
pub proof fn lemma_number_from_i64_reads_back(x: i64)
    ensures
        json_as_i64(JsonValue::Number(spec_number_from_i64(x))) == Some(x),
        x >= 0 ==> json_as_u64(JsonValue::Number(spec_number_from_i64(x))) == Some(x as u64),
        x < 0 ==> json_as_u64(JsonValue::Number(spec_number_from_i64(x))) is None,
{
}

impl JsonNumber {
    /// The number for an `i64`.
    pub fn from_i64(x: i64) -> (res: JsonNumber)
        ensures
            res == spec_number_from_i64(x),
    {
        if x >= 0 {
            JsonNumber::PosInt(x as u64)
        } else {
            JsonNumber::NegInt(x)
        }
    }
}

impl JsonValue {
    /// The element at position `i`, where this value is an array that long.
    pub fn element(&self, i: usize) -> (res: Option<&JsonValue>)
        ensures
            match res {
                Some(x) => json_index(*self, i as int) == *x && self is Array,
                None => json_index(*self, i as int) == JsonValue::Null && (self is Array ==> i >= self->Array_0@.len()),
            },
    {
        match self {
            JsonValue::Array(items) => if i < items.len() {
                Some(&items[i])
            } else {
                None
            },
            _ => None,
        }
    }

    /// The text of a string value.
    pub fn as_str(&self) -> (res: Option<&String>)
        ensures
            match res {
                Some(s) => json_as_str(*self) == Some(s@) && *self == JsonValue::String(*s),
                None => json_as_str(*self) is None,
            },
    {
        match self {
            JsonValue::String(s) => Some(s),
            _ => None,
        }
    }

    /// A number that is a non-negative integer.
    pub fn as_u64(&self) -> (res: Option<u64>)
        ensures
            res == json_as_u64(*self),
    {
        match self {
            JsonValue::Number(JsonNumber::PosInt(n)) => Some(*n),
            _ => None,
        }
    }

    /// A number that is an integer representable as `i64`.
    pub fn as_i64(&self) -> (res: Option<i64>)
        ensures
            res == json_as_i64(*self),
    {
        match self {
            JsonValue::Number(JsonNumber::PosInt(n)) => {
                if *n <= 9223372036854775807u64 {
                    Some(*n as i64)
                } else {
                    None
                }
            },
            JsonValue::Number(JsonNumber::NegInt(n)) => Some(*n),
            _ => None,
        }
    }

    /// The text of the member `key`, where it is a string.
    pub fn str_member(&self, key: &String) -> (res: Option<String>)
        ensures
            match res {
                Some(s) => json_as_str(json_field(*self, key@)) == Some(s@),
                None => json_as_str(json_field(*self, key@)) is None,
            },
    {
        match self.member(key) {
            Some(v) => match v.as_str() {
                Some(s) => Some(s.clone()),
                None => None,
            },
            None => None,
        }
    }

    /// The member `key`, where it is a non-negative integer.
    pub fn u64_member(&self, key: &String) -> (res: Option<u64>)
        ensures
            res == json_as_u64(json_field(*self, key@)),
    {
        match self.member(key) {
            Some(v) => v.as_u64(),
            None => None,
        }
    }

    /// The member `key`, where it is an integer representable as `i64`.
    pub fn i64_member(&self, key: &String) -> (res: Option<i64>)
        ensures
            res == json_as_i64(json_field(*self, key@)),
    {
        match self.member(key) {
            Some(v) => v.as_i64(),
            None => None,
        }
    }

    /// The texts of the string elements of the member `key`, where it is an
    /// array; empty otherwise.
    pub fn string_items_member(&self, key: &String) -> (res: Vec<String>)
        ensures
            res.deep_view() == json_string_items(json_field(*self, key@)),
    {
        let mut out: Vec<String> = Vec::new();
        match self.member(key) {
            Some(JsonValue::Array(items)) => {
                let n = items.len();
                let mut i: usize = 0;
                while i < n
                    invariant
                        n == items@.len(),
                        i <= n,
                        out.deep_view() == string_items(items@.take(i as int)),
                    decreases n - i,
                {
                    proof {
                        assert(items@.take(i as int + 1).drop_last() =~= items@.take(i as int));
                    }
                    match &items[i] {
                        JsonValue::String(s) => {
                            out.push(s.clone());
                        },
                        _ => {},
                    }
                    proof {
                        assert(out.deep_view() =~= string_items(items@.take(i as int + 1)));
                    }
                    i = i + 1;
                }
                proof {
                    assert(items@.take(n as int) =~= items@);
                }
            },
            _ => {},
        }
        out
    }

    /// The string members of the member `key`, where it is an object; empty
    /// otherwise.
    pub fn string_members_member(&self, key: &String) -> (res: Vec<(String, String)>)
        ensures
            res.deep_view() == json_string_members(json_field(*self, key@)),
    {
        let mut out: Vec<(String, String)> = Vec::new();
        match self.member(key) {
            Some(JsonValue::Object(entries)) => {
                let n = entries.len();
                let mut i: usize = 0;
                while i < n
                    invariant
                        n == entries@.len(),
                        i <= n,
                        out.deep_view() == string_members(entries@.take(i as int)),
                    decreases n - i,
                {
                    proof {
                        assert(entries@.take(i as int + 1).drop_last() =~= entries@.take(i as int));
                    }
                    match &entries[i].1 {
                        JsonValue::String(s) => {
                            out.push((entries[i].0.clone(), s.clone()));
                        },
                        _ => {},
                    }
                    proof {
                        assert(out.deep_view() =~= string_members(entries@.take(i as int + 1)));
                    }
                    i = i + 1;
                }
                proof {
                    assert(entries@.take(n as int) =~= entries@);
                }
            },
            _ => {},
        }
        out
    }

    /// The member `key` of this value, where it is an object holding that key.
    pub fn member(&self, key: &String) -> (res: Option<&JsonValue>)
        ensures
            match res {
                Some(x) => json_member(*self, key@) == Some(*x),
                None => json_member(*self, key@) is None,
            },
    {
        match self {
            JsonValue::Object(entries) => {
                let n = entries.len();
                let mut i: usize = 0;
                while i < n
                    invariant
                        n == entries@.len(),
                        *self == JsonValue::Object(*entries),
                        i <= n,
                        member_from(entries@, key@, 0) == member_from(entries@, key@, i as int),
                    decreases n - i,
                {
                    if entries[i].0 == *key {
                        assert(member_from(entries@, key@, i as int) == Some(entries@[i as int].1));
                        return Some(&entries[i].1);
                    }
                    i = i + 1;
                }
                None
            },
            _ => None,
        }
    }
}

} // verus!
