//! JSON documents: what a `serde_json::Value` holds, and the calls into
//! `serde_json` that read and make one.

use vstd::prelude::*;

verus! {

/// What a JSON document says. The members of an object stand in the order in
/// which they are written; a number is kept as the text that is written for it.
#[verifier::ext_equal]
pub enum Json {
    Null,
    Bool(bool),
    Number(Seq<char>),
    Text(Seq<char>),
    Array(Seq<Json>),
    Object(Seq<(Seq<char>, Json)>),
}

/// The value of the first member called `key`.
pub open spec fn lookup(members: Seq<(Seq<char>, Json)>, key: Seq<char>) -> Option<Json>
    decreases members.len(),
{
    if members.len() == 0 {
        None
    } else if members[0].0 == key {
        Some(members[0].1)
    } else {
        lookup(members.drop_first(), key)
    }
}

/// Members with the one called `key` set to `value`: in its place where it was
/// there, at the end where it was not.
pub open spec fn with_member(
    members: Seq<(Seq<char>, Json)>,
    key: Seq<char>,
    value: Json,
) -> Seq<(Seq<char>, Json)>
    decreases members.len(),
{
    if members.len() == 0 {
        seq![(key, value)]
    } else if members[0].0 == key {
        seq![(key, value)] + members.drop_first()
    } else {
        seq![members[0]] + with_member(members.drop_first(), key, value)
    }
}

/// Members without the one called `key`.
pub open spec fn without_member(members: Seq<(Seq<char>, Json)>, key: Seq<char>) -> Seq<
    (Seq<char>, Json),
>
    decreases members.len(),
{
    if members.len() == 0 {
        Seq::empty()
    } else if members[0].0 == key {
        without_member(members.drop_first(), key)
    } else {
        seq![members[0]] + without_member(members.drop_first(), key)
    }
}

/// A member that was taken out is gone, and all others stay as they were.
pub proof fn law_other_members_stay(
    members: Seq<(Seq<char>, Json)>,
    key: Seq<char>,
    other: Seq<char>,
)
    ensures
        lookup(without_member(members, key), other) == if other == key {
            None
        } else {
            lookup(members, other)
        },
    decreases members.len(),
{
    if members.len() > 0 {
        let rest = without_member(members.drop_first(), key);
        law_other_members_stay(members.drop_first(), key, other);
        if members[0].0 != key {
            assert((seq![members[0]] + rest).drop_first() =~= rest);
        }
    }
}

/// Whether a document is an object whose members are all texts, under names
/// that are all different, and of which the first does not begin with a dollar
/// sign.
pub open spec fn is_flat_object(document: Json) -> bool {
    match document {
        Json::Object(members) => {
            &&& members.len() > 0 && members[0].0.len() > 0 ==> members[0].0[0] != '$'
            &&& forall|i: int| 0 <= i < members.len() ==> (#[trigger] members[i]).1 is Text
            &&& forall|i: int, j: int|
                0 <= i < j < members.len() ==> (#[trigger] members[i]).0 != (
                #[trigger] members[j]).0
        },
        _ => false,
    }
}

impl Json {
    /// The member called `key`, of an object that has one.
    pub open spec fn member(self, key: Seq<char>) -> Option<Json> {
        match self {
            Json::Object(members) => lookup(members, key),
            _ => None,
        }
    }

    /// The text that the document is, if it is one.
    pub open spec fn as_text(self) -> Option<Seq<char>> {
        match self {
            Json::Text(text) => Some(text),
            _ => None,
        }
    }

    /// The field `key` of a record that is written as an object, or as an array
    /// of its fields in their order, in which this one stands at `index`.
    pub open spec fn field(self, key: Seq<char>, index: int) -> Option<Json> {
        match self {
            Json::Object(members) => lookup(members, key),
            Json::Array(items) => if 0 <= index < items.len() {
                Some(items[index])
            } else {
                None
            },
            _ => None,
        }
    }

    /// Whether the document can be a record of `count` fields: an object, or an
    /// array of no more items than that.
    pub open spec fn is_record(self, count: int) -> bool {
        match self {
            Json::Object(_) => true,
            Json::Array(items) => items.len() <= count,
            _ => false,
        }
    }
}

/// What some values hold.
pub open spec fn jsons(values: Seq<serde_json::Value>) -> Seq<Json> {
    values.map_values(|v: serde_json::Value| json_of(v))
}

/// What an optional value holds.
pub open spec fn opt_json(value: Option<serde_json::Value>) -> Option<Json> {
    match value {
        Some(v) => Some(json_of(v)),
        None => None,
    }
}

/// `serde_json::Value`: a document in memory. Nothing of its inside is seen here
/// but for what `json_of` says of it.
#[verifier::external_type_specification]
#[verifier::external_body]
pub struct ExValue(serde_json::Value);

/// `serde_json::Error`: why a text is no document.
#[verifier::external_type_specification]
#[verifier::external_body]
pub struct ExError(serde_json::Error);

/// What a `serde_json::Value` holds.
pub uninterp spec fn json_of(value: serde_json::Value) -> Json;

/// The document that `serde_json` reads in a text, if the text is one.
pub uninterp spec fn json_parsed(text: Seq<char>) -> Option<Json>;

/// The text that `serde_json` writes for a document, without white space
/// between its parts.
pub uninterp spec fn json_text(document: Json) -> Seq<char>;

/// `serde_json::from_str` reads a document. Which texts are documents, and what
/// they say, is a function of the text alone.
#[verifier::external_body]
pub(crate) fn parse(text: &str) -> (res: Result<serde_json::Value, serde_json::Error>)
    ensures
        match res {
            Ok(value) => json_parsed(text@) == Some(json_of(value)),
            Err(_) => json_parsed(text@) is None,
        },
{
    serde_json::from_str(text)
}

/// `serde_json::to_string` writes a document. Writing a `Value` into memory
/// does not fail. What is written stands on one line, because the control
/// characters of a text are escaped; and an object of texts is read back as it
/// was written. An object whose first name begins with a dollar sign is left out
/// of that: such a name can be a mark by which `serde_json` reads the object as
/// something else.
#[verifier::external_body]
pub(crate) fn write(value: &serde_json::Value) -> (res: Result<String, serde_json::Error>)
    ensures
        res is Ok,
        res->Ok_0@ == json_text(json_of(*value)),
        !res->Ok_0@.contains('\n'),
        !res->Ok_0@.contains('\r'),
        is_flat_object(json_of(*value)) ==> json_parsed(res->Ok_0@) == Some(json_of(*value)),
{
    serde_json::to_string(value)
}

/// `Value::as_str` gives the text that a value is.
pub assume_specification[ serde_json::Value::as_str ](value: &serde_json::Value) -> (res: Option<
    &str,
>)
    ensures
        res is Some == json_of(*value) is Text,
        res is Some ==> json_of(*value) == Json::Text(res->0@),
;

/// `Value::as_bool` gives the truth value that a value is.
pub assume_specification[ serde_json::Value::as_bool ](value: &serde_json::Value) -> (res: Option<
    bool,
>)
    ensures
        res == (match json_of(*value) {
            Json::Bool(b) => Some(b),
            _ => None,
        }),
;

/// `Value::as_array` gives the items of an array.
pub assume_specification[ serde_json::Value::as_array ](value: &serde_json::Value) -> (res: Option<
    &Vec<serde_json::Value>,
>)
    ensures
        res is Some == json_of(*value) is Array,
        res is Some ==> json_of(*value) == Json::Array(jsons(res->0@)),
;

/// `Value::is_object` tells objects from other values.
pub assume_specification[ serde_json::Value::is_object ](value: &serde_json::Value) -> (res: bool)
    ensures
        res == json_of(*value) is Object,
;

/// `Value::is_null` tells `null` from other values.
pub assume_specification[ serde_json::Value::is_null ](value: &serde_json::Value) -> (res: bool)
    ensures
        res == json_of(*value) is Null,
;

/// `Value::clone` makes a value that holds the same.
pub assume_specification[ <serde_json::Value as Clone>::clone ](value: &serde_json::Value) -> (res:
    serde_json::Value)
    ensures
        json_of(res) == json_of(*value),
;

/// `Value::get` with a text gives that member of an object, and nothing of a
/// value that is no object.
#[verifier::external_body]
pub(crate) fn member<'a>(value: &'a serde_json::Value, key: &str) -> (res: Option<
    &'a serde_json::Value,
>)
    ensures
        match res {
            Some(found) => json_of(*value).member(key@) == Some(json_of(*found)),
            None => json_of(*value).member(key@) is None,
        },
{
    value.get(key)
}

/// `Value::String` makes a value that is a text.
#[verifier::external_body]
pub(crate) fn text_value(text: String) -> (res: serde_json::Value)
    ensures
        json_of(res) == Json::Text(text@),
{
    serde_json::Value::String(text)
}

/// `Map::new` makes an object without members.
#[verifier::external_body]
pub(crate) fn empty_object() -> (res: serde_json::Value)
    ensures
        json_of(res) == Json::Object(Seq::empty()),
{
    serde_json::Value::Object(serde_json::Map::new())
}

/// Assigning to `value[key]` sets that member of an object, and adds it at the
/// end of an object that lacks it (`Value` panics where it is neither an object
/// nor `null`).
#[verifier::external_body]
pub(crate) fn set_member(value: &mut serde_json::Value, key: &str, member: serde_json::Value)
    requires
        json_of(*old(value)) is Object,
    ensures
        json_of(*final(value)) == Json::Object(
            with_member(json_of(*old(value))->Object_0, key@, json_of(member)),
        ),
{
    value[key] = member;
}

/// `Map::shift_remove` takes a member out of an object, and leaves the others in
/// their order.
#[verifier::external_body]
pub(crate) fn remove_member(value: &mut serde_json::Value, key: &str)
    requires
        json_of(*old(value)) is Object,
    ensures
        json_of(*final(value)) == Json::Object(
            without_member(json_of(*old(value))->Object_0, key@),
        ),
{
    if let Some(members) = value.as_object_mut() {
        members.shift_remove(key);
    }
}

/// A field of a record.
pub fn field<'a>(value: &'a serde_json::Value, key: &str, index: usize) -> (res: Option<
    &'a serde_json::Value,
>)
    ensures
        match res {
            Some(found) => json_of(*value).field(key@, index as int) == Some(json_of(*found)),
            None => json_of(*value).field(key@, index as int) is None,
        },
{
    match value.as_array() {
        Some(items) => if index < items.len() {
            Some(&items[index])
        } else {
            None
        },
        None => member(value, key),
    }
}

/// Whether a value can be a record of `count` fields.
pub fn is_record(value: &serde_json::Value, count: usize) -> (res: bool)
    ensures
        res == json_of(*value).is_record(count as int),
{
    match value.as_array() {
        Some(items) => items.len() <= count,
        None => value.is_object(),
    }
}

/// An object of texts, under the given names in their order.
pub open spec fn text_object(members: Seq<(Seq<char>, Seq<char>)>) -> Json {
    Json::Object(members.map_values(|m: (Seq<char>, Seq<char>)| (m.0, Json::Text(m.1))))
}

/// An object with one member.
pub fn object1(key: &str, text: String) -> (res: serde_json::Value)
    ensures
        json_of(res) == text_object(seq![(key@, text@)]),
{
    let mut object = empty_object();
    set_member(&mut object, key, text_value(text));
    assert(json_of(object)->Object_0 =~= text_object(seq![(key@, text@)])->Object_0);
    object
}

/// An object with two members of different names.
pub fn object2(key: &str, text: String, other_key: &str, other_text: String) -> (res:
    serde_json::Value)
    requires
        key@ != other_key@,
    ensures
        json_of(res) == text_object(seq![(key@, text@), (other_key@, other_text@)]),
{
    let mut object = object1(key, text);
    set_member(&mut object, other_key, text_value(other_text));
    proof {
        reveal_with_fuel(with_member, 3);
        let members = text_object(seq![(key@, text@)])->Object_0;
        assert(members.drop_first() == Seq::<(Seq<char>, Json)>::empty());
        assert(json_of(object)->Object_0 =~= text_object(
            seq![(key@, text@), (other_key@, other_text@)],
        )->Object_0);
    }
    object
}

/// A field of a record is the first member of its name in an object, and stands
/// at its place in a list.
pub proof fn law_field_is_found_by_name_or_place(
    value: serde_json::Value,
    key: &str,
    index: usize,
    members: Seq<(Seq<char>, Json)>,
    items: Seq<Json>,
    at: int,
    found: Option<&serde_json::Value>,
)
    requires
        call_ensures(field, (&value, key, index), found),
    ensures
        json_of(value) == Json::Object(members) && 0 <= at < members.len() && members[at].0 == key@
            && (forall|i: int| 0 <= i < at ==> (#[trigger] members[i]).0 != key@) ==> found is Some
            && json_of(*found->0) == members[at].1,
        json_of(value) == Json::Object(members) && (forall|i: int|
            0 <= i < members.len() ==> (#[trigger] members[i]).0 != key@) ==> found is None,
        json_of(value) == Json::Array(items) ==> (found is Some <==> index < items.len()),
        json_of(value) == Json::Array(items) && index < items.len() ==> json_of(*found->0)
            == items[index as int],
{
    if json_of(value) == Json::Object(members) {
        if 0 <= at < members.len() && members[at].0 == key@ && (forall|i: int|
            0 <= i < at ==> (#[trigger] members[i]).0 != key@) {
            lemma_first_member(members, key@, at);
        }
        if forall|i: int| 0 <= i < members.len() ==> (#[trigger] members[i]).0 != key@ {
            lemma_no_member(members, key@);
        }
    }
}

proof fn lemma_first_member(members: Seq<(Seq<char>, Json)>, key: Seq<char>, at: int)
    requires
        0 <= at < members.len(),
        members[at].0 == key,
        forall|i: int| 0 <= i < at ==> (#[trigger] members[i]).0 != key,
    ensures
        lookup(members, key) == Some(members[at].1),
    decreases at,
{
    if at > 0 {
        let rest = members.drop_first();
        assert(members[0].0 != key);
        assert forall|i: int| 0 <= i < at - 1 implies (#[trigger] rest[i]).0 != key by {
            assert(rest[i] == members[i + 1]);
        }
        lemma_first_member(rest, key, at - 1);
    }
}

proof fn lemma_no_member(members: Seq<(Seq<char>, Json)>, key: Seq<char>)
    requires
        forall|i: int| 0 <= i < members.len() ==> (#[trigger] members[i]).0 != key,
    ensures
        lookup(members, key) is None,
    decreases members.len(),
{
    if members.len() > 0 {
        let rest = members.drop_first();
        assert(members[0].0 != key);
        assert forall|i: int| 0 <= i < rest.len() implies (#[trigger] rest[i]).0 != key by {
            assert(rest[i] == members[i + 1]);
        }
        lemma_no_member(rest, key);
    }
}

/// An object can be a record, a list can if it is no longer than that, and
/// nothing else can.
pub proof fn law_record_is_an_object_or_a_short_list(
    value: serde_json::Value,
    count: usize,
    res: bool,
)
    requires
        call_ensures(is_record, (&value, count), res),
    ensures
        json_of(value) is Object ==> res,
        json_of(value) matches Json::Array(items) ==> res == (items.len() <= count),
        json_of(value) !is Object && json_of(value) !is Array ==> !res,
{
}

/// An object that is made of texts has each under its name, and nothing else.
pub proof fn law_made_object_has_its_members(
    key: &str,
    text: String,
    other_key: &str,
    other_text: String,
    one: serde_json::Value,
    two: serde_json::Value,
)
    requires
        key@ != other_key@,
        call_ensures(object1, (key, text), one),
        call_ensures(object2, (key, text, other_key, other_text), two),
    ensures
        json_of(one) == Json::Object(seq![(key@, Json::Text(text@))]),
        json_of(two) == Json::Object(
            seq![(key@, Json::Text(text@)), (other_key@, Json::Text(other_text@))],
        ),
{
    assert(json_of(one)->Object_0 =~= seq![(key@, Json::Text(text@))]);
    assert(json_of(two)->Object_0 =~= seq![
        (key@, Json::Text(text@)),
        (other_key@, Json::Text(other_text@)),
    ]);
}

} // verus!
