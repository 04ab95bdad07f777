use vstd::prelude::*;

verus! {

/// The mathematical content of a JSON value. The entries of an object are
/// listed in the order in which the object hands them out. Numbers are not
/// told apart: nothing in a description is a number.
pub enum JsonView {
    Null,
    Bool(bool),
    Number,
    Text(Seq<char>),
    Array(Seq<JsonView>),
    Object(Seq<(Seq<char>, JsonView)>),
}

impl JsonView {
    /// The value stored under `key`, where `self` is an object that has it.
    pub open spec fn field(self, key: Seq<char>) -> Option<JsonView> {
        match self {
            JsonView::Object(entries) => lookup(entries, key),
            _ => None,
        }
    }
}

/// The value of the first entry whose key is `key`.
pub open spec fn lookup(entries: Seq<(Seq<char>, JsonView)>, key: Seq<char>) -> Option<JsonView>
    decreases entries.len(),
{
    if entries.len() == 0 {
        None
    } else if entries[0].0 == key {
        Some(entries[0].1)
    } else {
        lookup(entries.drop_first(), key)
    }
}

/// The content of each value of a list.
pub open spec fn values_view(items: Seq<serde_json::Value>) -> Seq<JsonView> {
    items.map_values(|v: serde_json::Value| value_view(v))
}

/// The content of one entry that an object hands out.
pub open spec fn entry_view(entry: (&String, &serde_json::Value)) -> (Seq<char>, JsonView) {
    (entry.0@, value_view(*entry.1))
}

/// `serde_json::Value`, a parsed JSON value. Nothing of its inside is
/// visible here; `value_view` stands for what it holds.
#[verifier::external_type_specification]
#[verifier::external_body]
pub struct ExValue(serde_json::Value);

/// `serde_json::Map`, the object of a JSON value. Nothing of its inside is
/// visible here; `map_view` stands for what it holds.
#[verifier::external_type_specification]
#[verifier::external_body]
#[verifier::reject_recursive_types(K)]
#[verifier::reject_recursive_types(V)]
pub struct ExMap<K, V>(serde_json::Map<K, V>);

/// `serde_json::Error`, the reason why a text is not valid JSON. It is only
/// passed on.
#[verifier::external_type_specification]
#[verifier::external_body]
pub struct ExError(serde_json::Error);

/// What a `serde_json::Value` holds. Not proved: it names the content that
/// the accessors of `Value` below hand out piece by piece.
pub uninterp spec fn value_view(v: serde_json::Value) -> JsonView;

/// The entries of a `serde_json::Map`, in the order in which `Map::iter`
/// yields them. Not proved: it names what `map_entries` hands out.
pub uninterp spec fn map_view(m: serde_json::Map<String, serde_json::Value>) -> Seq<
    (Seq<char>, JsonView),
>;

/// What `serde_json::from_str` makes of a text: the content of the value,
/// or `None` where the text is not valid JSON. Not proved: it names the
/// result of the outside parser, which depends on the text alone.
pub uninterp spec fn json_parse(text: Seq<char>) -> Option<JsonView>;

/// `serde_json::from_str` at the type `Value`. Assumed: it returns `Ok` with
/// the value that `json_parse` names, or `Err` where `json_parse` has none.
#[verifier::external_body]
pub(crate) fn parse_value(text: &str) -> (r: Result<serde_json::Value, serde_json::Error>)
    ensures
        match r {
            Ok(v) => json_parse(text@) == Some(value_view(v)),
            Err(_) => json_parse(text@) is None,
        },
{
    serde_json::from_str::<serde_json::Value>(text)
}

/// `Value::get` with a string index. Assumed: on an object with an entry
/// under `key` it returns that entry's value, on anything else `None`.
#[verifier::external_body]
pub(crate) fn value_get<'a>(v: &'a serde_json::Value, key: &str) -> (r: Option<
    &'a serde_json::Value,
>)
    ensures
        match r {
            Some(x) => value_view(*v).field(key@) == Some(value_view(*x)),
            None => value_view(*v).field(key@) is None,
        },
{
    v.get(key)
}

/// `Map::iter`, collected. Assumed: it yields every entry of the map once,
/// key and value, in the order that `map_view` lists.
#[verifier::external_body]
pub(crate) fn map_entries<'a>(m: &'a serde_json::Map<String, serde_json::Value>) -> (r: Vec<
    (&'a String, &'a serde_json::Value),
>)
    ensures
        r@.len() == map_view(*m).len(),
        forall|i: int| 0 <= i < r@.len() ==> entry_view(#[trigger] r@[i]) == map_view(*m)[i],
{
    m.iter().collect()
}

/// `Value::as_str`. Assumed: it returns the text of a string, and `None` for
/// any other value.
pub assume_specification[ serde_json::Value::as_str ](v: &serde_json::Value) -> (r: Option<&str>)
    ensures
        match r {
            Some(s) => value_view(*v) == JsonView::Text(s@),
            None => !(value_view(*v) is Text),
        },
;

/// `Value::as_bool`. Assumed: it returns the flag of a boolean, and `None`
/// for any other value.
pub assume_specification[ serde_json::Value::as_bool ](v: &serde_json::Value) -> (r: Option<bool>)
    ensures
        match r {
            Some(b) => value_view(*v) == JsonView::Bool(b),
            None => !(value_view(*v) is Bool),
        },
;

/// `Value::is_null`. Assumed: it tells whether the value is null.
pub assume_specification[ serde_json::Value::is_null ](v: &serde_json::Value) -> (r: bool)
    ensures
        r == (value_view(*v) is Null),
;

/// `Value::as_array`. Assumed: it returns the items of an array, in order,
/// and `None` for any other value.
pub assume_specification[ serde_json::Value::as_array ](v: &serde_json::Value) -> (r: Option<
    &Vec<serde_json::Value>,
>)
    ensures
        match r {
            Some(a) => value_view(*v) == JsonView::Array(values_view(a@)),
            None => !(value_view(*v) is Array),
        },
;

/// `Value::as_object`. Assumed: it returns the map of an object, and `None`
/// for any other value.
pub assume_specification[ serde_json::Value::as_object ](v: &serde_json::Value) -> (r: Option<
    &serde_json::Map<String, serde_json::Value>,
>)
    ensures
        match r {
            Some(m) => value_view(*v) == JsonView::Object(map_view(*m)),
            None => !(value_view(*v) is Object),
        },
;

/// `String::push`. Assumed: it appends the character to the string.
pub assume_specification[ String::push ](s: &mut String, c: char)
    ensures
        final(s)@ == old(s)@.push(c),
;

} // verus!
