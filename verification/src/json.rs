//! JSON values as the library reads them, and the `serde_json` parser that
//! builds them.

use vstd::prelude::*;
use crate::text::str_eq;

verus! {

/// A JSON value, holding of each number what the library reads of it.
#[derive(Debug)]
pub enum Json {
    Null,
    Bool(bool),
    /// A number, with its value when it is an integer in the range of `u64`.
    Number(Option<u64>),
    Str(String),
    Array(Vec<Json>),
    /// The members of an object, in the order of its map, each key once.
    Object(Vec<(String, Json)>),
}

/// A JSON value with its texts as character sequences.
pub enum JsonView {
    Null,
    Bool(bool),
    Number(Option<u64>),
    Str(Seq<char>),
    Array(Seq<JsonView>),
    Object(Seq<(Seq<char>, JsonView)>),
}

impl View for Json {
    type V = JsonView;

    open spec fn view(&self) -> JsonView
        decreases self,
    {
        match self {
            Json::Null => JsonView::Null,
            Json::Bool(b) => JsonView::Bool(*b),
            Json::Number(n) => JsonView::Number(*n),
            Json::Str(s) => JsonView::Str(s@),
            Json::Array(a) => JsonView::Array(views_of(a@)),
            Json::Object(o) => JsonView::Object(members_of(o@)),
        }
    }
}

/// The views of a sequence of values, in order.
pub open spec fn views_of(items: Seq<Json>) -> Seq<JsonView>
    decreases items,
{
    if items.len() == 0 {
        Seq::empty()
    } else {
        views_of(items.drop_last()).push(items.last().view())
    }
}

/// The views of the members of an object, in order.
pub open spec fn members_of(members: Seq<(String, Json)>) -> Seq<(Seq<char>, JsonView)>
    decreases members,
{
    if members.len() == 0 {
        Seq::empty()
    } else {
        members_of(members.drop_last()).push((members.last().0@, members.last().1.view()))
    }
}

/// The views of values are taken one by one.
pub proof fn lemma_views_of(items: Seq<Json>)
    ensures
        views_of(items).len() == items.len(),
        forall|i: int| 0 <= i < items.len() ==> #[trigger] views_of(items)[i] == items[i].view(),
    decreases items.len(),
{
    if items.len() > 0 {
        lemma_views_of(items.drop_last());
        assert(views_of(items) == views_of(items.drop_last()).push(items.last().view()));
        assert forall|i: int| 0 <= i < items.len() implies #[trigger] views_of(items)[i] == items[i].view() by {
            if i < items.len() - 1 {
                assert(items.drop_last()[i] == items[i]);
            }
        }
    } else {
        assert(views_of(items) == Seq::<JsonView>::empty());
    }
}

proof fn lemma_members_of(members: Seq<(String, Json)>)
    ensures
        members_of(members).len() == members.len(),
        forall|i: int|
            0 <= i < members.len() ==> #[trigger] members_of(members)[i] == (
                members[i].0@,
                members[i].1.view(),
            ),
    decreases members.len(),
{
    if members.len() > 0 {
        lemma_members_of(members.drop_last());
        assert(members_of(members) == members_of(members.drop_last()).push(
            (members.last().0@, members.last().1.view()),
        ));
        assert forall|i: int| 0 <= i < members.len() implies #[trigger] members_of(members)[i] == (
            members[i].0@,
            members[i].1.view(),
        ) by {
            if i < members.len() - 1 {
                assert(members.drop_last()[i] == members[i]);
            }
        }
    } else {
        assert(members_of(members) == Seq::<(Seq<char>, JsonView)>::empty());
    }
}

#[verifier::external_type_specification]
#[verifier::external_body]
pub struct ExJsonValue(serde_json::Value);

/// The value that `serde_json` reads from `text`, if it reads one.
pub uninterp spec fn spec_parse_json(text: Seq<char>) -> Option<JsonView>;

/// The message of the error that `serde_json` gives for `text`, when it
/// reads no value from it.
pub uninterp spec fn spec_json_error(text: Seq<char>) -> Seq<char>;

/// Parses `text` as one JSON value; on failure, the parser's message.
///
/// Trusted: calls `serde_json::from_str::<serde_json::Value>` and converts
/// the value one for one (see `json_of`), or the error with `to_string`.
/// The contract names the parse: it succeeds exactly when
/// `spec_parse_json` gives a value, and then gives that value; otherwise
/// the message is the one named by `spec_json_error` for the same text.
#[verifier::external_body]
pub(crate) fn parse_json(text: &str) -> (r: Result<Json, String>)
    ensures
        r is Ok <==> spec_parse_json(text@) is Some,
        r matches Ok(j) ==> spec_parse_json(text@) == Some(j@),
        r matches Err(m) ==> m@ == spec_json_error(text@),
{
    match serde_json::from_str::<serde_json::Value>(text) {
        Ok(v) => Ok(json_of(&v)),
        Err(e) => Err(e.to_string()),
    }
}

/// The conversion of a `serde_json::Value` that `parse_json` applies: each
/// variant to its counterpart, a number to what `Number::as_u64` gives, an
/// object's map to its members in the map's order.
#[verifier::external_body]
fn json_of(v: &serde_json::Value) -> Json {
    match v {
        serde_json::Value::Null => Json::Null,
        serde_json::Value::Bool(b) => Json::Bool(*b),
        serde_json::Value::Number(n) => Json::Number(n.as_u64()),
        serde_json::Value::String(s) => Json::Str(s.clone()),
        serde_json::Value::Array(a) => Json::Array(a.iter().map(json_of).collect()),
        serde_json::Value::Object(m) => Json::Object(
            m.iter().map(|(k, v)| (k.clone(), json_of(v))).collect(),
        ),
    }
}

/// The value of the first member named `key`.
pub open spec fn spec_find_member(members: Seq<(Seq<char>, JsonView)>, key: Seq<char>) -> Option<
    JsonView,
>
    decreases members.len(),
{
    if members.len() == 0 {
        None
    } else if members[0].0 == key {
        Some(members[0].1)
    } else {
        spec_find_member(members.drop_first(), key)
    }
}

/// Looking up `key` among an object's members finds the value of the first
/// member with that key, and nothing when no member has it.
pub proof fn lemma_find_first_member(members: Seq<(Seq<char>, JsonView)>, key: Seq<char>, k: int)
    ensures
        (0 <= k < members.len() && members[k].0 == key && forall|i: int|
            0 <= i < k ==> (#[trigger] members[i]).0 != key) ==> spec_find_member(members, key)
            == Some(members[k].1),
        (forall|i: int| 0 <= i < members.len() ==> (#[trigger] members[i]).0 != key)
            ==> spec_find_member(members, key) is None,
    decreases members.len(),
{
    if members.len() > 0 {
        let rest = members.drop_first();
        lemma_find_first_member(rest, key, k - 1);
        if 0 < k < members.len() && members[k].0 == key && forall|i: int|
            0 <= i < k ==> (#[trigger] members[i]).0 != key {
            assert(members[0].0 != key);
            assert(rest[k - 1] == members[k]);
            assert forall|i: int| 0 <= i < k - 1 implies (#[trigger] rest[i]).0 != key by {
                assert(rest[i] == members[i + 1]);
            }
        }
        if forall|i: int| 0 <= i < members.len() ==> (#[trigger] members[i]).0 != key {
            assert(members[0].0 != key);
            assert forall|i: int| 0 <= i < rest.len() implies (#[trigger] rest[i]).0 != key by {
                assert(rest[i] == members[i + 1]);
            }
        }
    }
}

/// `value[key]`: the member `key` of an object; nothing (JSON `null`) when
/// there is no value, the value is no object or has no such member.
pub open spec fn spec_get(value: Option<JsonView>, key: Seq<char>) -> Option<JsonView> {
    match value {
        Some(JsonView::Object(members)) => spec_find_member(members, key),
        _ => None,
    }
}

/// `as_u64`: the value of a number that is an integer in the range of `u64`.
pub open spec fn spec_as_u64(value: Option<JsonView>) -> Option<u64> {
    match value {
        Some(JsonView::Number(n)) => n,
        _ => None,
    }
}

/// `as_str`: the text of a string.
pub open spec fn spec_as_str(value: Option<JsonView>) -> Option<Seq<char>> {
    match value {
        Some(JsonView::Str(s)) => Some(s),
        _ => None,
    }
}

/// `as_array`: the elements of an array.
pub open spec fn spec_as_array(value: Option<JsonView>) -> Option<Seq<JsonView>> {
    match value {
        Some(JsonView::Array(a)) => Some(a),
        _ => None,
    }
}

/// Reads `value[key]`.
pub fn get<'a>(value: Option<&'a Json>, key: &str) -> (member: Option<&'a Json>)
    ensures
        match member {
            Some(m) => spec_get(
                match value {
                    Some(v) => Some(v@),
                    None => None,
                },
                key@,
            ) == Some(m@),
            None => spec_get(
                match value {
                    Some(v) => Some(v@),
                    None => None,
                },
                key@,
            ) is None,
        },
{
    let j = match value {
        Some(j) => j,
        None => {
            return None;
        },
    };
    let members = match j {
        Json::Object(members) => members,
        _ => {
            return None;
        },
    };
    let ghost view = members_of(members@);
    proof {
        lemma_members_of(members@);
    }
    assert(j@ == JsonView::Object(view));
    let mut i: usize = 0;
    assert(view.skip(0) == view);
    while i < members.len()
        invariant
            value == Some(j),
            j@ == JsonView::Object(view),
            i <= members.len(),
            view.len() == members@.len(),
            forall|k: int| 0 <= k < members@.len() ==> #[trigger] view[k] == (members@[k].0@, members@[k].1@),
            spec_find_member(view, key@) == spec_find_member(view.skip(i as int), key@),
        decreases members.len() - i,
    {
        let (k, v) = &members[i];
        assert(view.skip(i as int)[0] == view[i as int]);
        assert(view.skip(i as int).drop_first() == view.skip(i + 1));
        if str_eq(k.as_str(), key) {
            assert(view[i as int].0 == key@);
            assert(spec_find_member(view.skip(i as int), key@) == Some(v@));
            return Some(v);
        }
        i = i + 1;
    }
    None
}

/// Reads `value.as_u64()`.
pub fn as_u64(value: Option<&Json>) -> (n: Option<u64>)
    ensures
        n == spec_as_u64(
            match value {
                Some(v) => Some(v@),
                None => None,
            },
        ),
{
    match value {
        Some(Json::Number(n)) => *n,
        _ => None,
    }
}

/// Reads `value.as_str()`.
pub fn as_str(value: Option<&Json>) -> (s: Option<&str>)
    ensures
        match s {
            Some(t) => spec_as_str(
                match value {
                    Some(v) => Some(v@),
                    None => None,
                },
            ) == Some(t@),
            None => spec_as_str(
                match value {
                    Some(v) => Some(v@),
                    None => None,
                },
            ) is None,
        },
{
    match value {
        Some(Json::Str(s)) => Some(s.as_str()),
        _ => None,
    }
}

/// Reads `value.as_array()`.
pub fn as_array(value: Option<&Json>) -> (a: Option<&Vec<Json>>)
    ensures
        match a {
            Some(elems) => spec_as_array(
                match value {
                    Some(v) => Some(v@),
                    None => None,
                },
            ) == Some(views_of(elems@)),
            None => spec_as_array(
                match value {
                    Some(v) => Some(v@),
                    None => None,
                },
            ) is None,
        },
{
    let j = match value {
        Some(j) => j,
        None => {
            return None;
        },
    };
    match j {
        Json::Array(items) => {
            Some(items)
        },
        _ => None,
    }
}

} // verus!
