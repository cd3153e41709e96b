//! JSON documents held as plain values, and their mathematical model.

use vstd::prelude::*;

use vstd::string::StringExecFns;

verus! {

/// A JSON document held as plain values.
pub enum JsonValue {
    Null,
    Bool(bool),
    Int(i64),
    Number(String),
    Str(String),
    Array(Vec<JsonValue>),
    Object(Vec<(String, JsonValue)>),
}

/// The mathematical value of a JSON document.
pub enum Json {
    Null,
    Bool(bool),
    Int(i64),
    Number(Seq<char>),
    Str(Seq<char>),
    Array(Seq<Json>),
    Object(Seq<(Seq<char>, Json)>),
}

impl JsonValue {
    pub open spec fn model(&self) -> Json
        decreases self,
        via Self::model_decreases
    {
        match self {
            JsonValue::Null => Json::Null,
            JsonValue::Bool(b) => Json::Bool(*b),
            JsonValue::Int(x) => Json::Int(*x),
            JsonValue::Number(t) => Json::Number(t@),
            JsonValue::Str(s) => Json::Str(s@),
            JsonValue::Array(items) => Json::Array(
                Seq::new(items@.len(), |i: int| if 0 <= i < items@.len() { items@[i].model() } else { Json::Null }),
            ),
            JsonValue::Object(members) => Json::Object(
                Seq::new(members@.len(), |i: int| if 0 <= i < members@.len() { (members@[i].0@, members@[i].1.model()) } else { (Seq::empty(), Json::Null) }),
            ),
        }
    }

    proof fn lemma_element_decreases(&self, i: int)
        ensures
            (*self is Array && 0 <= i < self->Array_0@.len())
                ==> decreases_to!(*self => self->Array_0@[i]),
            (*self is Object && 0 <= i < self->Object_0@.len())
                ==> decreases_to!(*self => self->Object_0@[i].1),
    {
        match self {
            JsonValue::Array(items) => {
                if 0 <= i < items@.len() {
                    assert(decreases_to!(*self => *items));
                    assert(decreases_to!(*items => items@));
                    assert(decreases_to!(items@ => items@[i]));
                }
            },
            JsonValue::Object(members) => {
                if 0 <= i < members@.len() {
                    assert(decreases_to!(*self => *members));
                    assert(decreases_to!(*members => members@));
                    assert(decreases_to!(members@ => members@[i]));
                    assert(decreases_to!(members@[i] => members@[i].1));
                }
            },
            _ => {},
        }
    }

    #[via_fn]
    proof fn model_decreases(&self) {
        let v = self;
        match v {
            JsonValue::Array(items) => {
                assert forall|i: int| 0 <= i < items@.len() implies decreases_to!(*v => items@[i]) by {
                    assert(decreases_to!(*v => *items));
                    assert(decreases_to!(*items => items@));
                    assert(decreases_to!(items@ => items@[i]));
                }
            },
            JsonValue::Object(members) => {
                assert forall|i: int| 0 <= i < members@.len() implies decreases_to!(*v => members@[i].1) by {
                    assert(decreases_to!(*v => *members));
                    assert(decreases_to!(*members => members@));
                    assert(decreases_to!(members@ => members@[i]));
                    assert(decreases_to!(members@[i] => members@[i].1));
                }
            },
            _ => {},
        }
    }
}

impl View for JsonValue {
    type V = Json;

    open spec fn view(&self) -> Json {
        self.model()
    }
}

impl JsonValue {
    /// A copy of this document with the same value.
    pub fn copy(&self) -> (r: Self)
        ensures
            r@ == self@,
        decreases self,
    {
        match self {
            JsonValue::Null => JsonValue::Null,
            JsonValue::Bool(b) => JsonValue::Bool(*b),
            JsonValue::Int(x) => JsonValue::Int(*x),
            JsonValue::Number(t) => JsonValue::Number(t.clone()),
            JsonValue::Str(s) => JsonValue::Str(s.clone()),
            JsonValue::Array(items) => {
                let mut out: Vec<JsonValue> = Vec::new();
                let mut i: usize = 0;
                while i < items.len()
                    invariant
                        i <= items.len(),
                        *self == JsonValue::Array(*items),
                        out@.len() == i,
                        forall|j: int| 0 <= j < i ==> (#[trigger] out@[j]).model() == items@[j].model(),
                    decreases items.len() - i,
                {
                    proof {
                        self.lemma_element_decreases(i as int);
                        assert(decreases_to!(*self => items@[i as int]));
                    }
                    let c = items[i].copy();
                    out.push(c);
                    i = i + 1;
                }
                let r = JsonValue::Array(out);
                assert(r.model()->Array_0 =~= self.model()->Array_0);
                assert(r@ == self@);
                r
            },
            JsonValue::Object(members) => {
                let mut out: Vec<(String, JsonValue)> = Vec::new();
                let mut i: usize = 0;
                while i < members.len()
                    invariant
                        i <= members.len(),
                        *self == JsonValue::Object(*members),
                        out@.len() == i,
                        forall|j: int| 0 <= j < i ==> (#[trigger] out@[j]).0@ == members@[j].0@
                            && out@[j].1.model() == members@[j].1.model(),
                    decreases members.len() - i,
                {
                    proof {
                        self.lemma_element_decreases(i as int);
                        assert(decreases_to!(*self => members@[i as int].1));
                    }
                    let k = members[i].0.clone();
                    let v = members[i].1.copy();
                    out.push((k, v));
                    i = i + 1;
                }
                let r = JsonValue::Object(out);
                assert(r.model()->Object_0 =~= self.model()->Object_0);
                assert(r@ == self@);
                r
            },
        }
    }
}

/// The values of the members of a JSON object.
pub open spec fn members_view(s: Seq<(String, JsonValue)>) -> Seq<(Seq<char>, Json)> {
    s.map_values(|m: (String, JsonValue)| (m.0@, m.1@))
}

/// The object with the given members, in order.
pub fn json_object(members: Vec<(String, JsonValue)>) -> (r: JsonValue)
    ensures
        r@ == Json::Object(members_view(members@)),
{
    let r = JsonValue::Object(members);
    assert(r@->Object_0 =~= members_view(members@));
    r
}

/// The member `key: "value"`.
pub fn str_member(key: &str, value: String) -> (m: (String, JsonValue))
    ensures
        m.0@ == key@,
        m.1@ == Json::Str(value@),
{
    (String::from_str(key), JsonValue::Str(value))
}

/// The member `key: value` with an integer value.
pub fn int_member(key: &str, value: i64) -> (m: (String, JsonValue))
    ensures
        m.0@ == key@,
        m.1@ == Json::Int(value),
{
    (String::from_str(key), JsonValue::Int(value))
}

/// The array of the given items, in order.
pub fn json_array(items: Vec<JsonValue>) -> (r: JsonValue)
    ensures
        r@ == Json::Array(crate::deep_copy::views(items@)),
{
    let r = JsonValue::Array(items);
    assert(r@->Array_0 =~= crate::deep_copy::views(items@));
    r
}

} // verus!
