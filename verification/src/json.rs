//! JSON values as subscription requests use them.
use crate::bytes::{pubkey_base58, pubkey_text, PubkeyBytes};
use vstd::prelude::*;

verus! {

/// A JSON value whose numbers are whole and not negative.
#[derive(Debug, PartialEq, Eq)]
pub enum JsonValue {
    /// `null`.
    Null,
    /// A boolean.
    Bool(bool),
    /// A whole number.
    Number(u64),
    /// A string.
    Text(String),
    /// A list of values.
    Array(Vec<JsonValue>),
    /// Members in order of insertion.
    Object(Vec<(String, JsonValue)>),
}

/// A JSON value in specifications.
pub enum Json {
    /// `null`.
    Null,
    /// A boolean.
    Bool(bool),
    /// A whole number.
    Number(u64),
    /// A string.
    Text(Seq<char>),
    /// A list of values.
    Array(Seq<Json>),
    /// Members in order of insertion.
    Object(Seq<(Seq<char>, Json)>),
}

impl JsonValue {
    /// Whether this value is `model`.
    pub open spec fn is_json(self, model: Json) -> bool
        decreases self,
    {
        match (self, model) {
            (JsonValue::Null, Json::Null) => true,
            (JsonValue::Bool(a), Json::Bool(b)) => a == b,
            (JsonValue::Number(a), Json::Number(b)) => a == b,
            (JsonValue::Text(a), Json::Text(b)) => a@ == b,
            (JsonValue::Array(a), Json::Array(b)) => {
                &&& a@.len() == b.len()
                &&& forall|i: int| 0 <= i < a@.len() ==> (#[trigger] a@[i]).is_json(b[i])
            },
            (JsonValue::Object(a), Json::Object(b)) => {
                &&& a@.len() == b.len()
                &&& forall|i: int|
                    0 <= i < a@.len() ==> (#[trigger] a@[i]).0@ == b[i].0 && a@[i].1.is_json(b[i].1)
            },
            _ => false,
        }
    }
}

/// Whether members are the ones of `model`.
pub open spec fn are_members(members: Seq<(String, JsonValue)>, model: Seq<(Seq<char>, Json)>) -> bool {
    &&& members.len() == model.len()
    &&& forall|i: int|
        0 <= i < members.len() ==> (#[trigger] members[i]).0@ == model[i].0 && members[i].1.is_json(model[i].1)
}

/// A JSON string.
pub fn json_text(text: &str) -> (r: JsonValue)
    ensures
        r.is_json(Json::Text(text@)),
{
    JsonValue::Text(text.to_owned())
}

/// Adds a member behind the others.
pub fn push_member(members: &mut Vec<(String, JsonValue)>, name: &str, value: JsonValue)
    ensures
        final(members)@.len() == old(members)@.len() + 1,
        final(members)@.drop_last() == old(members)@,
        final(members)@.last().0@ == name@,
        final(members)@.last().1 == value,
        forall|model: Seq<(Seq<char>, Json)>, one: Json|
            are_members(old(members)@, model) && value.is_json(one) ==> are_members(
                final(members)@,
                #[trigger] model.push((name@, one)),
            ),
{
    let ghost before = members@;
    members.push((name.to_owned(), value));
    proof {
        assert(members@.drop_last() =~= before);
        assert forall|model: Seq<(Seq<char>, Json)>, one: Json|
            are_members(before, model) && value.is_json(one) implies are_members(
            members@,
            #[trigger] model.push((name@, one)),
        ) by {
            let after = members@;
            assert forall|i: int| 0 <= i < after.len() implies (#[trigger] after[i]).0@ == model.push((name@, one))[i].0
                && after[i].1.is_json(model.push((name@, one))[i].1) by {
                if i < before.len() {
                    assert(after[i] == before[i]);
                }
            }
        }
    }
}

/// An object of members.
pub fn json_object(members: Vec<(String, JsonValue)>) -> (r: JsonValue)
    ensures
        r == JsonValue::Object(members),
        forall|model: Seq<(Seq<char>, Json)>| #[trigger]
            are_members(members@, model) ==> r.is_json(Json::Object(model)),
{
    JsonValue::Object(members)
}

/// A list of two values.
pub fn json_pair(first: JsonValue, second: JsonValue) -> (r: JsonValue)
    ensures
        forall|a: Json, b: Json| #[trigger]
            first.is_json(a) && #[trigger] second.is_json(b) ==> r.is_json(Json::Array(seq![a, b])),
{
    let mut items: Vec<JsonValue> = Vec::new();
    items.push(first);
    items.push(second);
    let array = JsonValue::Array(items);
    proof {
        assert forall|a: Json, b: Json| #[trigger] first.is_json(a) && #[trigger] second.is_json(b) implies array.is_json(
            Json::Array(seq![a, b]),
        ) by {
            let model = seq![a, b];
            assert forall|i: int| 0 <= i < items@.len() implies (#[trigger] items@[i]).is_json(model[i]) by {
                if i == 0 {
                    assert(items@[0] == first);
                } else {
                    assert(items@[1] == second);
                }
            }
        }
    }
    array
}

/// A list of one value.
pub fn json_single(only: JsonValue) -> (r: JsonValue)
    ensures
        forall|a: Json| #[trigger] only.is_json(a) ==> r.is_json(Json::Array(seq![a])),
{
    let mut items: Vec<JsonValue> = Vec::new();
    items.push(only);
    let array = JsonValue::Array(items);
    proof {
        assert forall|a: Json| #[trigger] only.is_json(a) implies array.is_json(Json::Array(seq![a])) by {
            assert(items@[0] == only);
        }
    }
    array
}

/// The list of the base58 forms of keys.
pub open spec fn keys_json(keys: Seq<PubkeyBytes>) -> Json {
    Json::Array(keys.map_values(|key: PubkeyBytes| Json::Text(pubkey_base58(key@))))
}

/// Lists keys in base58.
pub fn json_keys(keys: &Vec<PubkeyBytes>) -> (r: JsonValue)
    ensures
        r.is_json(keys_json(keys@)),
{
    let mut items: Vec<JsonValue> = Vec::with_capacity(keys.len());
    let mut i: usize = 0;
    while i < keys.len()
        invariant
            i <= keys@.len(),
            items@.len() == i,
            forall|j: int| 0 <= j < i ==> #[trigger] items@[j].is_json(Json::Text(pubkey_base58(keys@[j]@))),
        decreases keys@.len() - i,
    {
        let text = JsonValue::Text(pubkey_text(&keys[i]));
        items.push(text);
        i += 1;
    }
    let array = JsonValue::Array(items);
    proof {
        let model = keys_json(keys@)->Array_0;
        assert forall|j: int| 0 <= j < items@.len() implies (#[trigger] items@[j]).is_json(model[j]) by {
            assert(items@[j].is_json(Json::Text(pubkey_base58(keys@[j]@))));
        }
        assert(items@.len() == model.len());
        assert(array.is_json(Json::Array(model)));
    }
    array
}

/// A call of `method` under identifier one.
pub open spec fn call_json(method: Seq<char>, params: Json) -> Json {
    Json::Object(
        Seq::<(Seq<char>, Json)>::empty().push(("jsonrpc"@, Json::Text("2.0"@))).push(
            ("id"@, Json::Number(1)),
        ).push(("method"@, Json::Text(method))).push(("params"@, params)),
    )
}

/// Makes a call of `method` under identifier one.
pub fn json_call(method: &str, params: JsonValue) -> (r: JsonValue)
    ensures
        forall|model: Json| #[trigger] params.is_json(model) ==> r.is_json(call_json(method@, model)),
{
    let mut members: Vec<(String, JsonValue)> = Vec::new();
    let ghost m0 = Seq::<(Seq<char>, Json)>::empty();
    assert(are_members(members@, m0));
    push_member(&mut members, "jsonrpc", json_text("2.0"));
    let ghost m1 = m0.push(("jsonrpc"@, Json::Text("2.0"@)));
    assert(are_members(members@, m1));
    push_member(&mut members, "id", JsonValue::Number(1));
    let ghost m2 = m1.push(("id"@, Json::Number(1)));
    assert(are_members(members@, m2));
    push_member(&mut members, "method", json_text(method));
    let ghost m3 = m2.push(("method"@, Json::Text(method@)));
    assert(are_members(members@, m3));
    push_member(&mut members, "params", params);
    let call = json_object(members);
    proof {
        assert forall|model: Json| #[trigger] params.is_json(model) implies call.is_json(
            call_json(method@, model),
        ) by {
            assert(are_members(members@, m3.push(("params"@, model))));
        }
    }
    call
}

/// A call holds the version of the protocol, the identifier one, its method and its parameters, in this
/// order.
pub proof fn calls_hold_their_method(method: Seq<char>, params: Json)
    ensures
        ({
            let members = call_json(method, params)->Object_0;
            &&& call_json(method, params) is Object && members.len() == 4
            &&& members[0] == ("jsonrpc"@, Json::Text("2.0"@))
            &&& members[1] == ("id"@, Json::Number(1))
            &&& members[2] == ("method"@, Json::Text(method))
            &&& members[3] == ("params"@, params)
        }),
{
}

/// Keys are listed each in its place, in base58.
pub proof fn keys_are_listed(keys: Seq<PubkeyBytes>, i: int)
    ensures
        keys_json(keys) is Array,
        keys_json(keys)->Array_0.len() == keys.len(),
        0 <= i < keys.len() ==> keys_json(keys)->Array_0[i] == Json::Text(pubkey_base58(keys[i]@)),
{
}

/// A value is of one kind and one content only: whatever it is said to be, it is the same boolean, number
/// or text, and holds as many values.
pub proof fn values_are_one_thing(value: JsonValue, a: Json, b: Json)
    requires
        value.is_json(a),
        value.is_json(b),
    ensures
        a is Null <==> b is Null,
        a is Bool <==> b is Bool,
        a is Number <==> b is Number,
        a is Text <==> b is Text,
        a is Array <==> b is Array,
        a is Object <==> b is Object,
        a is Bool || a is Number || a is Text || a is Null ==> a == b,
        a is Array ==> a->Array_0.len() == b->Array_0.len(),
        a is Object ==> a->Object_0.len() == b->Object_0.len() && forall|i: int|
            0 <= i < a->Object_0.len() ==> (#[trigger] a->Object_0[i]).0 == b->Object_0[i].0,
{
    if value is Object {
        let members = value->Object_0@;
        assert forall|i: int| 0 <= i < a->Object_0.len() implies (#[trigger] a->Object_0[i]).0
            == b->Object_0[i].0 by {
            assert(members[i].0@ == a->Object_0[i].0);
            assert(members[i].0@ == b->Object_0[i].0);
        }
    }
}

} // verus!
