//! JSON documents as the library reads and writes them.
//!
//! `serde_json` parses, walks and prints the documents. [`JsonView`] is what its
//! values mean in contracts.
use vstd::prelude::*;

verus! {

/// The meaning of a JSON value. A number is kept as the text that it prints as.
pub enum JsonView {
    Null,
    Bool(bool),
    Number(Seq<char>),
    Text(Seq<char>),
    Array(Seq<JsonView>),
    Object(Map<Seq<char>, JsonView>),
}

/// `serde_json::Value`, opaque; [`json_of`] names what it holds.
#[verifier::external_type_specification]
#[verifier::external_body]
pub struct ExValue(serde_json::Value);

/// `serde_json::Error`, opaque.
#[verifier::external_type_specification]
#[verifier::external_body]
pub struct ExJsonError(serde_json::Error);

/// What a `serde_json::Value` holds.
pub uninterp spec fn json_of(value: serde_json::Value) -> JsonView;

/// What `serde_json::from_str` reads from a text: `None` where it reports an error.
pub uninterp spec fn json_parsed(text: Seq<char>) -> Option<JsonView>;

/// The compact text that a JSON value prints as.
pub uninterp spec fn json_text(json: JsonView) -> Seq<char>;

/// The member of an object under a key.
pub open spec fn member(json: JsonView, key: Seq<char>) -> Option<JsonView> {
    match json {
        JsonView::Object(members) => if members.contains_key(key) {
            Some(members[key])
        } else {
            None
        },
        _ => None,
    }
}

/// The text of a JSON string.
pub open spec fn text_of(json: Option<JsonView>) -> Option<Seq<char>> {
    match json {
        Some(JsonView::Text(text)) => Some(text),
        _ => None,
    }
}

/// The value reached by following object keys one after the other.
pub open spec fn descend(json: JsonView, keys: Seq<Seq<char>>) -> Option<JsonView>
    decreases keys.len(),
{
    if keys.len() == 0 {
        Some(json)
    } else {
        match member(json, keys[0]) {
            Some(inner) => descend(inner, keys.skip(1)),
            None => None,
        }
    }
}

/// The JSON Pointer for a list of keys: each key behind a slash.
pub open spec fn pointer_text(keys: Seq<Seq<char>>) -> Seq<char>
    decreases keys.len(),
{
    if keys.len() == 0 {
        Seq::empty()
    } else {
        seq!['/'] + keys[0] + pointer_text(keys.skip(1))
    }
}

/// A key that stands for itself in a JSON Pointer and is no array index.
pub open spec fn plain_key(key: Seq<char>) -> bool {
    &&& !key.contains('/')
    &&& !key.contains('~')
    &&& key.len() > 0 ==> !('0' <= key[0] <= '9')
}

/// Objects and strings only, nested at most `depth` objects deep.
pub open spec fn string_tree(json: JsonView, depth: nat) -> bool
    decreases depth,
{
    match json {
        JsonView::Text(_) => true,
        JsonView::Object(members) => depth > 0 && forall|key: Seq<char>|
            #[trigger] members.contains_key(key) ==> string_tree(
                members[key],
                (depth - 1) as nat,
            ),
        _ => false,
    }
}

/// The members that a list of distinct keys and their values makes.
pub open spec fn members_of(entries: Seq<(String, serde_json::Value)>) -> Map<
    Seq<char>,
    JsonView,
>
    decreases entries.len(),
{
    if entries.len() == 0 {
        Map::empty()
    } else {
        members_of(entries.drop_last()).insert(entries.last().0@, json_of(entries.last().1))
    }
}

/// Calls `serde_json::from_str` for a `serde_json::Value`. Claimed: whether the text parses,
/// and what is read, is a function of the text alone.
#[verifier::external_body]
pub(crate) fn parse_json(text: &str) -> (r: Result<serde_json::Value, serde_json::Error>)
    ensures
        match r {
            Ok(value) => json_parsed(text@) == Some(json_of(value)),
            Err(_) => json_parsed(text@) is None,
        },
{
    serde_json::from_str(text)
}

/// Calls `serde_json::Value::get` with a string key. Claimed: it finds the member of an object
/// under that key, and nothing in any other kind of value.
#[verifier::external_body]
pub(crate) fn get_member<'a>(value: &'a serde_json::Value, key: &str) -> (r: Option<
    &'a serde_json::Value,
>)
    ensures
        match r {
            Some(inner) => member(json_of(*value), key@) == Some(json_of(*inner)),
            None => member(json_of(*value), key@) is None,
        },
{
    value.get(key)
}

/// Calls `serde_json::Value::as_str`. Claimed: it gives the text of a JSON string, and `None`
/// for any other kind of value.
#[verifier::external_body]
pub(crate) fn as_text(value: &serde_json::Value) -> (r: Option<&str>)
    ensures
        match r {
            Some(text) => json_of(*value) == JsonView::Text(text@),
            None => !(json_of(*value) is Text),
        },
{
    value.as_str()
}

/// Calls `serde_json::Value::pointer`. Claimed, of a pointer made of plain keys: it follows the
/// keys through nested objects. Of pointers with escapes or array indices nothing is said.
#[verifier::external_body]
pub(crate) fn at_pointer<'a>(value: &'a serde_json::Value, pointer: &str) -> (r: Option<
    &'a serde_json::Value,
>)
    ensures
        forall|keys: Seq<Seq<char>>|
            pointer@ == #[trigger] pointer_text(keys) && (forall|i: int|
                0 <= i < keys.len() ==> plain_key(#[trigger] keys[i])) ==> match r {
                Some(inner) => descend(json_of(*value), keys) == Some(json_of(*inner)),
                None => descend(json_of(*value), keys) is None,
            },
{
    value.pointer(pointer)
}

/// Calls `to_string` of `serde_json::Value` (its `Display`). Claimed: the text is a function of
/// what the value holds, object members coming in the order of their keys; and parsing the
/// text of nested objects of strings gives the same value back.
#[verifier::external_body]
pub(crate) fn print_json(value: &serde_json::Value) -> (r: String)
    ensures
        r@ == json_text(json_of(*value)),
        string_tree(json_of(*value), 16) ==> json_parsed(r@) == Some(json_of(*value)),
{
    value.to_string()
}

/// Makes a `serde_json::Value::String`. Claimed: it holds that text.
#[verifier::external_body]
pub(crate) fn text_value(text: &str) -> (r: serde_json::Value)
    ensures
        json_of(r) == JsonView::Text(text@),
{
    serde_json::Value::from(text)
}

/// Calls `from_iter` of `serde_json::Value` on keys and values. Claimed, where the keys are
/// distinct: the result is the object with these members.
#[verifier::external_body]
pub(crate) fn object_value(entries: Vec<(String, serde_json::Value)>) -> (r: serde_json::Value)
    requires
        forall|i: int, j: int|
            0 <= i < j < entries@.len() ==> (#[trigger] entries@[i]).0@ != (
            #[trigger] entries@[j]).0@,
    ensures
        json_of(r) == JsonView::Object(members_of(entries@)),
{
    serde_json::Value::from_iter(entries)
}

/// The text of the string member under a key.
pub(crate) fn member_text(value: &serde_json::Value, key: &str) -> (r: Option<String>)
    ensures
        match r {
            Some(text) => text_of(member(json_of(*value), key@)) == Some(text@),
            None => text_of(member(json_of(*value), key@)) is None,
        },
{
    match get_member(value, key) {
        Some(inner) => match as_text(inner) {
            Some(text) => Some(text.to_owned()),
            None => None,
        },
        None => None,
    }
}

/// An object with one member.
pub(crate) fn object1(key: &str, value: serde_json::Value) -> (r: serde_json::Value)
    ensures
        json_of(r) == JsonView::Object(map![key@ => json_of(value)]),
{
    let mut entries: Vec<(String, serde_json::Value)> = Vec::new();
    entries.push((key.to_owned(), value));
    proof {
        reveal_with_fuel(members_of, 2);
        assert(entries@.drop_last() =~= Seq::empty());
        assert(members_of(entries@) =~= map![key@ => json_of(value)]);
    }
    object_value(entries)
}

/// An object with two members.
pub(crate) fn object2(
    key1: &str,
    value1: serde_json::Value,
    key2: &str,
    value2: serde_json::Value,
) -> (r: serde_json::Value)
    requires
        key1@ != key2@,
    ensures
        json_of(r) == JsonView::Object(map![key1@ => json_of(value1), key2@ => json_of(value2)]),
{
    let mut entries: Vec<(String, serde_json::Value)> = Vec::new();
    entries.push((key1.to_owned(), value1));
    let ghost first = entries@;
    entries.push((key2.to_owned(), value2));
    proof {
        reveal_with_fuel(members_of, 3);
        assert(first.drop_last() =~= Seq::empty());
        assert(entries@.drop_last() =~= first);
        assert(members_of(entries@) =~= map![
            key1@ => json_of(value1),
            key2@ => json_of(value2),
        ]);
    }
    object_value(entries)
}

} // verus!
