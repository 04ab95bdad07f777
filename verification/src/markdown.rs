use crate::records::{
    present, ClassView, ConstructorView, FunctionView, MemberView, ParamView, ReturnView,
};
use crate::text::{concat, expand_tabs, join, lines_text, strip_newlines};
use vstd::prelude::*;

verus! {

/// The opening of a fenced code block, up to the language tag.
pub open spec fn fence_open() -> Seq<char> {
    "```kt"@
}

/// The closing fence, with the line break that ends the code before it.
pub open spec fn fence_close() -> Seq<char> {
    "\n```\n"@
}

/// The code shown for one example: tabs expanded, line breaks at the end removed.
pub open spec fn example_code(example: Seq<char>) -> Seq<char> {
    strip_newlines(expand_tabs(example))
}

/// One example as a fenced code block.
pub open spec fn example_block(example: Seq<char>) -> Seq<char> {
    let code = example_code(example);
    if code.len() == 0 {
        fence_open() + fence_close()
    } else {
        fence_open() + "\n"@ + code + fence_close()
    }
}

/// The heading of an example list and one fenced block per example.
pub open spec fn examples_text(examples: Seq<Seq<char>>) -> Seq<char> {
    let heading = if examples.len() == 1 {
        "- Example:\n"@
    } else {
        "- Examples:\n"@
    };
    heading + concat(example_blocks(examples))
}

/// Each example as a fenced code block.
pub open spec fn example_blocks(examples: Seq<Seq<char>>) -> Seq<Seq<char>> {
    examples.map_values(|e: Seq<char>| example_block(e))
}

/// The label of a description and its lines.
pub open spec fn description_text(desc: Seq<Seq<char>>) -> Seq<char> {
    "- Description: "@ + lines_text(desc)
}

/// The parameter names of a heading: `a, b, c`.
pub open spec fn param_names(params: Seq<ParamView>) -> Seq<char> {
    join(param_name_list(params), ", "@)
}

/// The name of each parameter.
pub open spec fn param_name_list(params: Seq<ParamView>) -> Seq<Seq<char>> {
    params.map_values(|p: ParamView| p.name)
}

/// Type, name and description of one parameter, ending its line.
pub open spec fn param_line(p: ParamView) -> Seq<char> {
    p.ty + " (`"@ + p.name + "`): "@ + p.desc + "\n"@
}

/// The detail of a parameter list: one line for a single parameter, a
/// heading and one bullet per parameter otherwise.
pub open spec fn param_detail(params: Seq<ParamView>) -> Seq<char> {
    if params.len() == 1 {
        "- Parameter - "@ + param_line(params[0])
    } else {
        "- Parameters:\n"@ + concat(param_bullets(params))
    }
}

/// One indented bullet per parameter.
pub open spec fn param_bullets(params: Seq<ParamView>) -> Seq<Seq<char>> {
    params.map_values(|p: ParamView| "  - "@ + param_line(p))
}

/// The detail of an optional parameter list; nothing for an absent or empty one.
pub open spec fn params_text(params: Option<Seq<ParamView>>) -> Seq<char> {
    if present(params).len() > 0 {
        param_detail(present(params))
    } else {
        Seq::empty()
    }
}

/// Type and description of what a function returns, where it says so.
pub open spec fn returns_text(ret: Option<ReturnView>) -> Seq<char> {
    match ret {
        Some(r) => "- Returns - "@ + r.ty + ": "@ + r.desc + "\n"@,
        None => Seq::empty(),
    }
}

/// The errors that a function throws, where it names any: a heading and one
/// bullet per error.
pub open spec fn throws_text(throws: Option<Seq<Seq<char>>>) -> Seq<char> {
    match throws {
        Some(errors) => "- Throws - Error:\n"@ + concat(throw_bullets(errors)),
        None => Seq::empty(),
    }
}

/// One indented bullet per error, the error between quotes.
pub open spec fn throw_bullets(errors: Seq<Seq<char>>) -> Seq<Seq<char>> {
    errors.map_values(|e: Seq<char>| "  - `'"@ + e + "'`\n"@)
}

/// The deprecation notice of a function, where it has one.
pub open spec fn deprecated_text(deprecated: Option<Seq<Seq<char>>>) -> Seq<char> {
    match deprecated {
        Some(notice) => "- Deprecated: "@ + lines_text(notice),
        None => Seq::empty(),
    }
}

/// The prefix of a heading: the namespace and a dot, or nothing.
pub open spec fn namespace_prefix(namespace: Option<Seq<char>>) -> Seq<char> {
    match namespace {
        Some(n) => n + "."@,
        None => Seq::empty(),
    }
}

/// The Markdown of one documented function that has a description.
pub open spec fn function_text(namespace: Option<Seq<char>>, f: FunctionView) -> Seq<char>
    recommends
        f.documented(),
        f.desc is Some,
{
    "### `"@ + namespace_prefix(namespace) + f.name + "("@ + param_names(present(f.params))
        + ")`\n"@ + deprecated_text(f.deprecated) + description_text(present(f.desc))
        + params_text(f.params) + returns_text(f.ret) + throws_text(f.throws)
        + examples_text(present(f.examples))
}

/// The Markdown of each documented function of a list, in order.
pub open spec fn function_texts(namespace: Option<Seq<char>>, fs: Seq<FunctionView>) -> Seq<
    Seq<char>,
> {
    fs.filter(|f: FunctionView| f.documented()).map_values(
        |f: FunctionView| function_text(namespace, f),
    )
}

/// The documented functions of a list, one blank line between each two.
pub open spec fn functions_text(namespace: Option<Seq<char>>, fs: Seq<FunctionView>) -> Seq<char> {
    join(function_texts(namespace, fs), "\n"@)
}

/// A flag as a word.
pub open spec fn flag_text(flag: bool) -> Seq<char> {
    if flag {
        "true"@
    } else {
        "false"@
    }
}

/// The Markdown of one documented member that has all its fields.
pub open spec fn member_text(namespace: Seq<char>, m: MemberView) -> Seq<char>
    recommends
        m.documented(),
        m.renderable(),
{
    "### `"@ + namespace + "."@ + m.name + "`\n"@ + description_text(present(m.desc)) + "- Type: "@
        + m.ty.unwrap() + "\n"@ + "- Assignable: "@ + flag_text(m.assignable.unwrap()) + "\n"@
        + examples_text(present(m.examples))
}

/// The documented members of a list, one after the other.
pub open spec fn members_text(namespace: Seq<char>, ms: Seq<MemberView>) -> Seq<char> {
    concat(member_texts(namespace, ms))
}

/// The Markdown of each documented member of a list, in order.
pub open spec fn member_texts(namespace: Seq<char>, ms: Seq<MemberView>) -> Seq<Seq<char>> {
    ms.filter(|m: MemberView| m.documented()).map_values(
        |m: MemberView| member_text(namespace, m),
    )
}

/// The Markdown of one constructor of the class `class_name`.
pub open spec fn constructor_text(class_name: Seq<char>, c: ConstructorView) -> Seq<char> {
    "### `new "@ + class_name + "("@ + param_names(present(c.params)) + ")`\n"@
        + description_text(c.desc) + params_text(c.params) + examples_text(c.examples)
}

/// The constructors of a list, one after the other.
pub open spec fn constructors_text(class_name: Seq<char>, cs: Seq<ConstructorView>) -> Seq<char> {
    concat(constructor_texts(class_name, cs))
}

/// The Markdown of each constructor of a list.
pub open spec fn constructor_texts(class_name: Seq<char>, cs: Seq<ConstructorView>) -> Seq<
    Seq<char>,
> {
    cs.map_values(|c: ConstructorView| constructor_text(class_name, c))
}

/// The namespace of what belongs to an instance of the class: `<Name>`.
pub open spec fn instance_namespace(class_name: Seq<char>) -> Seq<char> {
    "<"@ + class_name + ">"@
}

/// How to import the class, or that it needs no import.
pub open spec fn import_text(import_path: Option<Seq<char>>) -> Seq<char> {
    match import_path {
        Some(path) => "Import with `import "@ + path + " from "@ + path + ";`\n\n"@,
        None => "Class does not need to be imported.\n\n"@,
    }
}

/// The lines of a class description and a blank line, where there is one.
pub open spec fn class_description_text(desc: Option<Seq<Seq<char>>>) -> Seq<char> {
    match desc {
        Some(lines) => lines_text(lines) + "\n"@,
        None => Seq::empty(),
    }
}

/// Heading, blurb, description, import notice and the fixed marker line.
pub open spec fn class_header(c: ClassView) -> Seq<char> {
    "# "@ + c.name + " class\n"@ + c.name + " class for Arucas.\n\n"@ + class_description_text(
        c.desc,
    ) + import_text(c.import_path) + "Fully Documented.\n\n"@
}

/// The section of the static members, under the bare class name; nothing
/// for a class without static members.
pub open spec fn static_members_section(c: ClassView) -> Seq<char> {
    if present(c.static_members).len() > 0 {
        "## Static Members\n\n"@ + members_text(c.name, present(c.static_members)) + "\n"@
    } else {
        Seq::empty()
    }
}

/// The section of the instance members, under the instance namespace;
/// nothing for a class without instance members.
pub open spec fn members_section(c: ClassView) -> Seq<char> {
    if present(c.members).len() > 0 {
        "## Members\n\n"@ + members_text(instance_namespace(c.name), present(c.members)) + "\n"@
    } else {
        Seq::empty()
    }
}

/// The section of the constructors; nothing for a class without them.
pub open spec fn constructors_section(c: ClassView) -> Seq<char> {
    if present(c.constructors).len() > 0 {
        "## Constructors\n\n"@ + constructors_text(c.name, present(c.constructors)) + "\n"@
    } else {
        Seq::empty()
    }
}

/// The section of the methods, under the instance namespace; nothing for a
/// class without methods.
pub open spec fn methods_section(c: ClassView) -> Seq<char> {
    if present(c.methods).len() > 0 {
        "## Methods\n\n"@ + functions_text(
            Some(instance_namespace(c.name)),
            present(c.methods),
        ) + "\n"@
    } else {
        Seq::empty()
    }
}

/// The section of the static methods, under the bare class name; nothing
/// for a class without static methods. It ends the class without a blank
/// line of its own.
pub open spec fn static_methods_section(c: ClassView) -> Seq<char> {
    if present(c.static_methods).len() > 0 {
        "## Static Methods\n\n"@ + functions_text(Some(c.name), present(c.static_methods))
    } else {
        Seq::empty()
    }
}

/// The Markdown of one class.
pub open spec fn class_text(c: ClassView) -> Seq<char>
    recommends
        c.renderable(),
{
    class_header(c) + static_members_section(c) + members_section(c) + constructors_section(c)
        + methods_section(c) + static_methods_section(c)
}

/// The classes in order, separated by one blank line.
pub open spec fn classes_text(classes: Seq<ClassView>) -> Seq<char> {
    join(class_texts(classes), "\n\n"@)
}

/// The Markdown of each class.
pub open spec fn class_texts(classes: Seq<ClassView>) -> Seq<Seq<char>> {
    classes.map_values(|c: ClassView| class_text(c))
}

/// The Markdown of one extension group.
pub open spec fn extension_text(name: Seq<char>, fs: Seq<FunctionView>) -> Seq<char> {
    "## "@ + name + "\n\n"@ + functions_text(None, fs)
}

/// The extension groups in order, separated by one blank line.
pub open spec fn extensions_text(groups: Seq<(Seq<char>, Seq<FunctionView>)>) -> Seq<char> {
    join(extension_texts(groups), "\n\n"@)
}

/// The Markdown of each extension group.
pub open spec fn extension_texts(groups: Seq<(Seq<char>, Seq<FunctionView>)>) -> Seq<Seq<char>> {
    groups.map_values(|g: (Seq<char>, Seq<FunctionView>)| extension_text(g.0, g.1))
}

/// One function more adds its Markdown to the list where it is documented,
/// and nothing where it is not.
pub proof fn lemma_function_texts_step(
    namespace: Option<Seq<char>>,
    fs: Seq<FunctionView>,
    i: int,
)
    requires
        0 <= i < fs.len(),
    ensures
        function_texts(namespace, fs.take(i + 1)) == if fs[i].documented() {
            function_texts(namespace, fs.take(i)).push(function_text(namespace, fs[i]))
        } else {
            function_texts(namespace, fs.take(i))
        },
{
    reveal(Seq::filter);
    assert(fs.take(i + 1).drop_last() == fs.take(i));
}

/// One member more adds its Markdown to the list where it is documented,
/// and nothing where it is not.
pub proof fn lemma_member_texts_step(namespace: Seq<char>, ms: Seq<MemberView>, i: int)
    requires
        0 <= i < ms.len(),
    ensures
        member_texts(namespace, ms.take(i + 1)) == if ms[i].documented() {
            member_texts(namespace, ms.take(i)).push(member_text(namespace, ms[i]))
        } else {
            member_texts(namespace, ms.take(i))
        },
{
    reveal(Seq::filter);
    assert(ms.take(i + 1).drop_last() == ms.take(i));
}

} // verus!
