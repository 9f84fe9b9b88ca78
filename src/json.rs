//! Configuration documents as JSON values, and template replacement in
//! every string they hold (keys are left as they are).

use vstd::prelude::*;
use crate::template::{replaced, TemplateVars};

verus! {

broadcast use vstd::std_specs::vec::group_vec_axioms;

/// A JSON value; numbers are kept as their text.
pub enum JsonValue {
    Null,
    Bool(bool),
    Number(String),
    Str(String),
    Array(Vec<JsonValue>),
    Object(Vec<(String, JsonValue)>),
}

/// `r` is `v` with every string replaced through the variables `m`: same
/// shape, same keys, same scalars.
pub open spec fn json_replaced(m: Map<Seq<char>, Seq<char>>, v: JsonValue, r: JsonValue) -> bool
    decreases v,
{
    match (v, r) {
        (JsonValue::Null, JsonValue::Null) => true,
        (JsonValue::Bool(a), JsonValue::Bool(b)) => a == b,
        (JsonValue::Number(a), JsonValue::Number(b)) => a@ == b@,
        (JsonValue::Str(a), JsonValue::Str(b)) => b@ == replaced(m, a@),
        (JsonValue::Array(a), JsonValue::Array(b)) => a@.len() == b@.len() && forall|i: int|
            0 <= i < a@.len() ==> json_replaced(m, #[trigger] a@[i], b@[i]),
        (JsonValue::Object(a), JsonValue::Object(b)) => a@.len() == b@.len() && forall|i: int|
            0 <= i < a@.len() ==> (#[trigger] a@[i]).0@ == b@[i].0@ && json_replaced(m, a@[i].1, b@[i].1),
        _ => false,
    }
}

impl TemplateVars {
    /// Replaces the placeholders of every string of a JSON value.
    pub fn replace_in_json(&self, value: &JsonValue) -> (r: JsonValue)
        ensures
            json_replaced(self@, *value, r),
        decreases value,
    {
        match value {
            JsonValue::Null => JsonValue::Null,
            JsonValue::Bool(b) => JsonValue::Bool(*b),
            JsonValue::Number(n) => JsonValue::Number(String::from_str(n.as_str())),
            JsonValue::Str(s) => JsonValue::Str(self.replace(s.as_str())),
            JsonValue::Array(items) => {
                let mut out: Vec<JsonValue> = Vec::new();
                let mut i: usize = 0;
                while i < items.len()
                    invariant
                        *value is Array,
                        (*value)->Array_0 == *items,
                        i <= items@.len(),
                        out@.len() == i,
                        forall|j: int| 0 <= j < i ==> json_replaced(self@, #[trigger] items@[j], out@[j]),
                    decreases items@.len() - i,
                {
                    proof {
                        assert(decreases_to!((*value)->Array_0 => (*value)->Array_0@));
                        assert(decreases_to!(*value => items@[i as int]));
                    }
                    let r = self.replace_in_json(&items[i]);
                    out.push(r);
                    i = i + 1;
                }
                JsonValue::Array(out)
            },
            JsonValue::Object(entries) => {
                let mut out: Vec<(String, JsonValue)> = Vec::new();
                let mut i: usize = 0;
                while i < entries.len()
                    invariant
                        *value is Object,
                        (*value)->Object_0 == *entries,
                        i <= entries@.len(),
                        out@.len() == i,
                        forall|j: int|
                            0 <= j < i ==> (#[trigger] entries@[j]).0@ == out@[j].0@ && json_replaced(
                                self@,
                                entries@[j].1,
                                out@[j].1,
                            ),
                    decreases entries@.len() - i,
                {
                    proof {
                        assert(decreases_to!((*value)->Object_0 => (*value)->Object_0@));
                        assert(decreases_to!(*value => entries@[i as int].1));
                    }
                    let r = self.replace_in_json(&entries[i].1);
                    out.push((String::from_str(entries[i].0.as_str()), r));
                    i = i + 1;
                }
                JsonValue::Object(out)
            },
        }
    }
}

/// `i` is the first member of `es` named `key`.
pub open spec fn first_member(es: Seq<(String, JsonValue)>, key: Seq<char>, i: int) -> bool {
    0 <= i < es.len() && es[i].0@ == key && forall|j: int| 0 <= j < i ==> (#[trigger] es[j]).0@ != key
}

/// Some member of `es` is named `key`.
pub open spec fn has_member(es: Seq<(String, JsonValue)>, key: Seq<char>) -> bool {
    exists|i: int| first_member(es, key, i)
}

/// The value of the first member named `key` of an object.
pub open spec fn member(v: JsonValue, key: Seq<char>) -> Option<JsonValue> {
    match v {
        JsonValue::Object(es) => if has_member(es@, key) {
            Some(es@[choose|i: int| first_member(es@, key, i)].1)
        } else {
            None
        },
        _ => None,
    }
}

proof fn lemma_first_member_unique(es: Seq<(String, JsonValue)>, key: Seq<char>, a: int, b: int)
    requires
        first_member(es, key, a),
        first_member(es, key, b),
    ensures
        a == b,
{
    if a < b {
        assert(es[a].0@ != key);
    } else if b < a {
        assert(es[b].0@ != key);
    }
}

impl JsonValue {
    /// The value of the first member named `key`, when this is an object
    /// that has one.
    pub fn get(&self, key: &str) -> (r: Option<&JsonValue>)
        ensures
            match r {
                Some(v) => member(*self, key@) == Some(*v),
                None => member(*self, key@) is None,
            },
    {
        match self {
            JsonValue::Object(entries) => {
                let mut i: usize = 0;
                while i < entries.len()
                    invariant
                        *self is Object,
                        (*self)->Object_0 == *entries,
                        i <= entries@.len(),
                        forall|j: int| 0 <= j < i ==> (#[trigger] entries@[j]).0@ != key@,
                    decreases entries@.len() - i,
                {
                    if crate::text::same_text(entries[i].0.as_str(), key) {
                        proof {
                            assert(first_member(entries@, key@, i as int));
                            assert forall|x: int| first_member(entries@, key@, x) implies x == i by {
                                lemma_first_member_unique(entries@, key@, x, i as int);
                            }
                        }
                        return Some(&entries[i].1);
                    }
                    i = i + 1;
                }
                assert(!has_member(entries@, key@));
                None
            },
            _ => None,
        }
    }

    /// The first element of an array, if any.
    pub fn first(&self) -> (r: Option<&JsonValue>)
        ensures
            match r {
                Some(v) => *self is Array && (*self)->Array_0@.len() > 0 && *v == (*self)->Array_0@[0],
                None => !(*self is Array && (*self)->Array_0@.len() > 0),
            },
    {
        match self {
            JsonValue::Array(items) => {
                if items.len() > 0 {
                    Some(&items[0])
                } else {
                    None
                }
            },
            _ => None,
        }
    }

    /// The text of a string value.
    pub fn as_str(&self) -> (r: Option<&str>)
        ensures
            self matches JsonValue::Str(s) ==> r is Some && r->0@ == s@,
            !(self is Str) ==> r is None,
    {
        match self {
            JsonValue::Str(s) => Some(s.as_str()),
            _ => None,
        }
    }
}

} // verus!
