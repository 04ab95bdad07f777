use crate::error::DocError;
use crate::json::{value_get, value_view, values_view, JsonView};
use crate::records::{
    Class, ClassView, Constructor, ConstructorView, Function, FunctionView, Member, MemberView,
    Param, ParamView, Return, ReturnView,
};
use vstd::prelude::*;

verus! {

/// The items of a list of which none is missing; nothing where one is.
pub open spec fn all_some<T>(items: Seq<Option<T>>) -> Option<Seq<T>> {
    if forall|i: int| 0 <= i < items.len() ==> (#[trigger] items[i]) is Some {
        Some(items.map_values(|item: Option<T>| item.unwrap()))
    } else {
        None
    }
}

/// One item more adds it to the list, or leaves nothing where it is missing.
pub proof fn lemma_all_some_step<T>(items: Seq<Option<T>>, i: int)
    requires
        0 <= i < items.len(),
    ensures
        all_some(items.take(i + 1)) == match (all_some(items.take(i)), items[i]) {
            (Some(found), Some(item)) => Some(found.push(item)),
            _ => None,
        },
{
    let shorter = items.take(i);
    let longer = items.take(i + 1);
    assert(longer[i] == items[i]);
    if all_some(shorter) is Some && items[i] is Some {
        assert forall|k: int| 0 <= k < longer.len() implies (#[trigger] longer[k]) is Some by {
            if k < i {
                assert(shorter[k] is Some);
            }
        }
        assert(all_some(longer).unwrap() =~= all_some(shorter).unwrap().push(items[i].unwrap()));
    } else if all_some(shorter) is None {
        let k = choose|k: int| 0 <= k < shorter.len() && !((#[trigger] shorter[k]) is Some);
        assert(longer[k] == shorter[k]);
    }
}

/// A type that can be read from a JSON value.
pub trait FromJson: Sized + DeepView {
    /// What a JSON value holds when read as this type; `None` where it has
    /// the wrong shape.
    spec fn decode(j: JsonView) -> Option<<Self as DeepView>::V>;

    /// Reads a JSON value as this type.
    fn from_value(v: &serde_json::Value) -> (r: Result<Self, DocError>)
        ensures
            match r {
                Ok(x) => Self::decode(value_view(*v)) == Some(x.deep_view()),
                Err(e) => e == DocError::Schema && Self::decode(value_view(*v)) is None,
            },
    ;
}

/// Each item of a list read as `T`.
pub open spec fn decode_each<T: FromJson>(items: Seq<JsonView>) -> Seq<Option<<T as DeepView>::V>> {
    items.map_values(|item: JsonView| T::decode(item))
}

/// The field `key` of an object read as `T`; `None` where `j` is no object,
/// lacks the field, or the field has the wrong shape.
pub open spec fn required<T: FromJson>(j: JsonView, key: Seq<char>) -> Option<<T as DeepView>::V> {
    match j.field(key) {
        Some(value) => T::decode(value),
        None => None,
    }
}

/// The field `key` of an object read as `T`, where the object has it and it
/// is not null; `None` where the field has the wrong shape.
pub open spec fn optional<T: FromJson>(j: JsonView, key: Seq<char>) -> Option<
    Option<<T as DeepView>::V>,
> {
    match j.field(key) {
        None => Some(None),
        Some(JsonView::Null) => Some(None),
        Some(value) => match T::decode(value) {
            Some(x) => Some(Some(x)),
            None => None,
        },
    }
}

/// Reads each item of a list as `T`.
pub fn decode_items<T: FromJson>(items: &Vec<serde_json::Value>) -> (r: Result<Vec<T>, DocError>)
    ensures
        match r {
            Ok(list) => all_some(decode_each::<T>(values_view(items@))) == Some(list.deep_view()),
            Err(e) => e == DocError::Schema && all_some(decode_each::<T>(values_view(items@)))
                is None,
        },
{
    let ghost decoded = decode_each::<T>(values_view(items@));
    let mut list: Vec<T> = Vec::new();
    for i in 0..items.len()
        invariant
            decoded == decode_each::<T>(values_view(items@)),
            list@.len() == i,
            decoded.len() == items@.len(),
            forall|k: int| 0 <= k < i ==> (#[trigger] decoded[k]) == Some(list@[k].deep_view()),
    {
        match T::from_value(&items[i]) {
            Ok(item) => {
                list.push(item);
            },
            Err(e) => {
                proof {
                    assert(decoded[i as int] is None);
                }
                return Err(e);
            },
        }
    }
    proof {
        assert(all_some(decoded) is Some);
        assert(all_some(decoded).unwrap() =~= list.deep_view());
    }
    Ok(list)
}

/// Reads the field `key` of an object as `T`.
pub fn required_field<T: FromJson>(v: &serde_json::Value, key: &str) -> (r: Result<T, DocError>)
    ensures
        match r {
            Ok(x) => required::<T>(value_view(*v), key@) == Some(x.deep_view()),
            Err(e) => e == DocError::Schema && required::<T>(value_view(*v), key@) is None,
        },
{
    match value_get(v, key) {
        Some(value) => T::from_value(value),
        None => Err(DocError::Schema),
    }
}

/// Reads the field `key` of an object as `T`, where the object has it and it
/// is not null.
pub fn optional_field<T: FromJson>(v: &serde_json::Value, key: &str) -> (r: Result<
    Option<T>,
    DocError,
>)
    ensures
        match r {
            Ok(x) => optional::<T>(value_view(*v), key@) == Some(x.deep_view()),
            Err(e) => e == DocError::Schema && optional::<T>(value_view(*v), key@) is None,
        },
{
    match value_get(v, key) {
        Some(value) => {
            if value.is_null() {
                Ok(None)
            } else {
                match T::from_value(value) {
                    Ok(x) => Ok(Some(x)),
                    Err(e) => Err(e),
                }
            }
        },
        None => Ok(None),
    }
}

impl FromJson for String {
    /// A string reads as its text; nothing else is one.
    open spec fn decode(j: JsonView) -> Option<Seq<char>> {
        match j {
            JsonView::Text(text) => Some(text),
            _ => None,
        }
    }

    fn from_value(v: &serde_json::Value) -> (r: Result<String, DocError>) {
        match v.as_str() {
            Some(text) => Ok(text.to_owned()),
            None => Err(DocError::Schema),
        }
    }
}

impl FromJson for bool {
    /// A boolean reads as its flag; nothing else is one.
    open spec fn decode(j: JsonView) -> Option<bool> {
        match j {
            JsonView::Bool(flag) => Some(flag),
            _ => None,
        }
    }

    fn from_value(v: &serde_json::Value) -> (r: Result<bool, DocError>) {
        match v.as_bool() {
            Some(flag) => Ok(flag),
            None => Err(DocError::Schema),
        }
    }
}

impl<T: FromJson> FromJson for Vec<T> {
    /// A list is an array of which every item reads as `T`.
    open spec fn decode(j: JsonView) -> Option<Seq<<T as DeepView>::V>> {
        match j {
            JsonView::Array(items) => all_some(decode_each::<T>(items)),
            _ => None,
        }
    }

    fn from_value(v: &serde_json::Value) -> (r: Result<Vec<T>, DocError>) {
        match v.as_array() {
            Some(items) => decode_items::<T>(items),
            None => Err(DocError::Schema),
        }
    }
}

impl FromJson for Param {
    /// A parameter is an object with the strings `name`, `type` and `desc`.
    open spec fn decode(j: JsonView) -> Option<ParamView> {
        let name = required::<String>(j, "name"@);
        let ty = required::<String>(j, "type"@);
        let desc = required::<String>(j, "desc"@);
        if name is Some && ty is Some && desc is Some {
            Some(
                ParamView {
                    name: name.unwrap(),
                    ty: ty.unwrap(),
                    desc: desc.unwrap(),
                },
            )
        } else {
            None
        }
    }

    fn from_value(v: &serde_json::Value) -> (r: Result<Param, DocError>) {
        let name = match required_field::<String>(v, "name") {
            Ok(x) => x,
            Err(e) => {
                return Err(e);
            },
        };
        let ty = match required_field::<String>(v, "type") {
            Ok(x) => x,
            Err(e) => {
                return Err(e);
            },
        };
        let desc = match required_field::<String>(v, "desc") {
            Ok(x) => x,
            Err(e) => {
                return Err(e);
            },
        };
        Ok(Param { name, ty, desc })
    }
}

impl FromJson for Return {
    /// A return descriptor is an object with the strings `type` and `desc`.
    open spec fn decode(j: JsonView) -> Option<ReturnView> {
        let ty = required::<String>(j, "type"@);
        let desc = required::<String>(j, "desc"@);
        if ty is Some && desc is Some {
            Some(
                ReturnView {
                    ty: ty.unwrap(),
                    desc: desc.unwrap(),
                },
            )
        } else {
            None
        }
    }

    fn from_value(v: &serde_json::Value) -> (r: Result<Return, DocError>) {
        let ty = match required_field::<String>(v, "type") {
            Ok(x) => x,
            Err(e) => {
                return Err(e);
            },
        };
        let desc = match required_field::<String>(v, "desc") {
            Ok(x) => x,
            Err(e) => {
                return Err(e);
            },
        };
        Ok(Return { ty, desc })
    }
}

impl FromJson for Member {
    /// A member is an object with the string `name` and, each optional, the
    /// flag `assignable`, the lines `desc`, the string `type` and the list
    /// `examples`.
    open spec fn decode(j: JsonView) -> Option<MemberView> {
        let name = required::<String>(j, "name"@);
        let assignable = optional::<bool>(j, "assignable"@);
        let desc = optional::<Vec<String>>(j, "desc"@);
        let ty = optional::<String>(j, "type"@);
        let examples = optional::<Vec<String>>(j, "examples"@);
        if name is Some && assignable is Some && desc is Some && ty is Some && examples is Some {
            Some(
                MemberView {
                    name: name.unwrap(),
                    assignable: assignable.unwrap(),
                    desc: desc.unwrap(),
                    ty: ty.unwrap(),
                    examples: examples.unwrap(),
                },
            )
        } else {
            None
        }
    }

    fn from_value(v: &serde_json::Value) -> (r: Result<Member, DocError>) {
        let name = match required_field::<String>(v, "name") {
            Ok(x) => x,
            Err(e) => {
                return Err(e);
            },
        };
        let assignable = match optional_field::<bool>(v, "assignable") {
            Ok(x) => x,
            Err(e) => {
                return Err(e);
            },
        };
        let desc = match optional_field::<Vec<String>>(v, "desc") {
            Ok(x) => x,
            Err(e) => {
                return Err(e);
            },
        };
        let ty = match optional_field::<String>(v, "type") {
            Ok(x) => x,
            Err(e) => {
                return Err(e);
            },
        };
        let examples = match optional_field::<Vec<String>>(v, "examples") {
            Ok(x) => x,
            Err(e) => {
                return Err(e);
            },
        };
        Ok(Member { name, assignable, desc, ty, examples })
    }
}

impl FromJson for Constructor {
    /// A constructor is an object with the lines `desc`, the list `examples`
    /// and, optional, the list `params`.
    open spec fn decode(j: JsonView) -> Option<ConstructorView> {
        let desc = required::<Vec<String>>(j, "desc"@);
        let params = optional::<Vec<Param>>(j, "params"@);
        let examples = required::<Vec<String>>(j, "examples"@);
        if desc is Some && params is Some && examples is Some {
            Some(
                ConstructorView {
                    desc: desc.unwrap(),
                    params: params.unwrap(),
                    examples: examples.unwrap(),
                },
            )
        } else {
            None
        }
    }

    fn from_value(v: &serde_json::Value) -> (r: Result<Constructor, DocError>) {
        let desc = match required_field::<Vec<String>>(v, "desc") {
            Ok(x) => x,
            Err(e) => {
                return Err(e);
            },
        };
        let params = match optional_field::<Vec<Param>>(v, "params") {
            Ok(x) => x,
            Err(e) => {
                return Err(e);
            },
        };
        let examples = match required_field::<Vec<String>>(v, "examples") {
            Ok(x) => x,
            Err(e) => {
                return Err(e);
            },
        };
        Ok(Constructor { desc, params, examples })
    }
}

impl FromJson for Function {
    /// A function is an object with the string `name` and, each optional, the
    /// lines `deprecated` and `desc`, the list `params`, the descriptor
    /// `returns` and the lists `throws` and `examples`.
    open spec fn decode(j: JsonView) -> Option<FunctionView> {
        let name = required::<String>(j, "name"@);
        let deprecated = optional::<Vec<String>>(j, "deprecated"@);
        let desc = optional::<Vec<String>>(j, "desc"@);
        let params = optional::<Vec<Param>>(j, "params"@);
        let ret = optional::<Return>(j, "returns"@);
        let throws = optional::<Vec<String>>(j, "throws"@);
        let examples = optional::<Vec<String>>(j, "examples"@);
        if name is Some && deprecated is Some && desc is Some && params is Some && ret is Some && throws is Some && examples is Some {
            Some(
                FunctionView {
                    name: name.unwrap(),
                    deprecated: deprecated.unwrap(),
                    desc: desc.unwrap(),
                    params: params.unwrap(),
                    ret: ret.unwrap(),
                    throws: throws.unwrap(),
                    examples: examples.unwrap(),
                },
            )
        } else {
            None
        }
    }

    fn from_value(v: &serde_json::Value) -> (r: Result<Function, DocError>) {
        let name = match required_field::<String>(v, "name") {
            Ok(x) => x,
            Err(e) => {
                return Err(e);
            },
        };
        let deprecated = match optional_field::<Vec<String>>(v, "deprecated") {
            Ok(x) => x,
            Err(e) => {
                return Err(e);
            },
        };
        let desc = match optional_field::<Vec<String>>(v, "desc") {
            Ok(x) => x,
            Err(e) => {
                return Err(e);
            },
        };
        let params = match optional_field::<Vec<Param>>(v, "params") {
            Ok(x) => x,
            Err(e) => {
                return Err(e);
            },
        };
        let ret = match optional_field::<Return>(v, "returns") {
            Ok(x) => x,
            Err(e) => {
                return Err(e);
            },
        };
        let throws = match optional_field::<Vec<String>>(v, "throws") {
            Ok(x) => x,
            Err(e) => {
                return Err(e);
            },
        };
        let examples = match optional_field::<Vec<String>>(v, "examples") {
            Ok(x) => x,
            Err(e) => {
                return Err(e);
            },
        };
        Ok(Function { name, deprecated, desc, params, ret, throws, examples })
    }
}

impl FromJson for Class {
    /// A class is an object with the string `name` and, each optional, the
    /// lines `desc`, the string `import_path` and the lists `static_members`,
    /// `members`, `constructors`, `methods` and `static_methods`.
    open spec fn decode(j: JsonView) -> Option<ClassView> {
        let name = required::<String>(j, "name"@);
        let desc = optional::<Vec<String>>(j, "desc"@);
        let import_path = optional::<String>(j, "import_path"@);
        let static_members = optional::<Vec<Member>>(j, "static_members"@);
        let members = optional::<Vec<Member>>(j, "members"@);
        let constructors = optional::<Vec<Constructor>>(j, "constructors"@);
        let methods = optional::<Vec<Function>>(j, "methods"@);
        let static_methods = optional::<Vec<Function>>(j, "static_methods"@);
        if name is Some && desc is Some && import_path is Some && static_members is Some && members is Some && constructors is Some && methods is Some && static_methods is Some {
            Some(
                ClassView {
                    name: name.unwrap(),
                    desc: desc.unwrap(),
                    import_path: import_path.unwrap(),
                    static_members: static_members.unwrap(),
                    members: members.unwrap(),
                    constructors: constructors.unwrap(),
                    methods: methods.unwrap(),
                    static_methods: static_methods.unwrap(),
                },
            )
        } else {
            None
        }
    }

    fn from_value(v: &serde_json::Value) -> (r: Result<Class, DocError>) {
        let name = match required_field::<String>(v, "name") {
            Ok(x) => x,
            Err(e) => {
                return Err(e);
            },
        };
        let desc = match optional_field::<Vec<String>>(v, "desc") {
            Ok(x) => x,
            Err(e) => {
                return Err(e);
            },
        };
        let import_path = match optional_field::<String>(v, "import_path") {
            Ok(x) => x,
            Err(e) => {
                return Err(e);
            },
        };
        let static_members = match optional_field::<Vec<Member>>(v, "static_members") {
            Ok(x) => x,
            Err(e) => {
                return Err(e);
            },
        };
        let members = match optional_field::<Vec<Member>>(v, "members") {
            Ok(x) => x,
            Err(e) => {
                return Err(e);
            },
        };
        let constructors = match optional_field::<Vec<Constructor>>(v, "constructors") {
            Ok(x) => x,
            Err(e) => {
                return Err(e);
            },
        };
        let methods = match optional_field::<Vec<Function>>(v, "methods") {
            Ok(x) => x,
            Err(e) => {
                return Err(e);
            },
        };
        let static_methods = match optional_field::<Vec<Function>>(v, "static_methods") {
            Ok(x) => x,
            Err(e) => {
                return Err(e);
            },
        };
        Ok(Class { name, desc, import_path, static_members, members, constructors, methods, static_methods })
    }
}

} // verus!
