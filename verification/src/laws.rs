use crate::document::{class_markdown, class_markdowns, classes_markdown, extensions_markdown};
use crate::json::JsonView;
use crate::markdown::{
    class_header, class_text, constructors_section, example_block, example_code, fence_close,
    fence_open, function_texts, functions_text, import_text, instance_namespace, member_text,
    member_texts, members_section, members_text, methods_section, param_bullets, param_detail,
    param_line, static_members_section, static_methods_section,
};
use crate::records::{
    functions_renderable, members_renderable, present, ClassView, FunctionView, MemberView,
    ParamView,
};
use crate::schema::all_some;
use crate::text::{concat, expand_tabs, join, strip_newlines};
use vstd::prelude::*;

verus! {

/// A function without examples leaves no trace in a list of functions: the
/// list reads the same with it, at whatever place, as without it, and it is
/// never the reason to refuse the list.
pub proof fn law_undocumented_function_is_invisible(
    namespace: Option<Seq<char>>,
    fs: Seq<FunctionView>,
    i: int,
    f: FunctionView,
)
    requires
        0 <= i <= fs.len(),
        present(f.examples).len() == 0,
    ensures
        functions_text(namespace, fs.insert(i, f)) == functions_text(namespace, fs),
        functions_renderable(fs.insert(i, f)) == functions_renderable(fs),
{
    let documented = |f: FunctionView| f.documented();
    let with = fs.insert(i, f);
    assert(with == fs.take(i) + seq![f] + fs.skip(i));
    assert(fs == fs.take(i) + fs.skip(i));
    Seq::filter_distributes_over_add(fs.take(i) + seq![f], fs.skip(i), documented);
    Seq::filter_distributes_over_add(fs.take(i), seq![f], documented);
    Seq::filter_distributes_over_add(fs.take(i), fs.skip(i), documented);
    assert(seq![f].filter(documented) == Seq::<FunctionView>::empty()) by {
        reveal_with_fuel(Seq::filter, 2);
    }
    assert(with.filter(documented) == fs.filter(documented));
    assert(function_texts(namespace, with) == function_texts(namespace, fs));
    if functions_renderable(fs) {
        assert forall|k: int| 0 <= k < with.len() implies (#[trigger] with[k]).renderable() by {
            if k < i {
                assert(fs[k].renderable());
            } else if k > i {
                assert(fs[k - 1].renderable());
            }
        }
    }
    if functions_renderable(with) {
        assert forall|k: int| 0 <= k < fs.len() implies (#[trigger] fs[k]).renderable() by {
            if k < i {
                assert(with[k].renderable());
            } else {
                assert(with[k + 1].renderable());
            }
        }
    }
}

/// A member without an assignability flag leaves no trace in a list of
/// members.
pub proof fn law_undocumented_member_is_invisible(
    namespace: Seq<char>,
    ms: Seq<MemberView>,
    i: int,
    m: MemberView,
)
    requires
        0 <= i <= ms.len(),
        m.assignable is None,
    ensures
        members_text(namespace, ms.insert(i, m)) == members_text(namespace, ms),
        members_renderable(ms.insert(i, m)) == members_renderable(ms),
{
    let documented = |m: MemberView| m.documented();
    let with = ms.insert(i, m);
    assert(with == ms.take(i) + seq![m] + ms.skip(i));
    assert(ms == ms.take(i) + ms.skip(i));
    Seq::filter_distributes_over_add(ms.take(i) + seq![m], ms.skip(i), documented);
    Seq::filter_distributes_over_add(ms.take(i), seq![m], documented);
    Seq::filter_distributes_over_add(ms.take(i), ms.skip(i), documented);
    assert(seq![m].filter(documented) == Seq::<MemberView>::empty()) by {
        reveal_with_fuel(Seq::filter, 2);
    }
    assert(with.filter(documented) == ms.filter(documented));
    assert(member_texts(namespace, with) == member_texts(namespace, ms));
    if members_renderable(ms) {
        assert forall|k: int| 0 <= k < with.len() implies (#[trigger] with[k]).renderable() by {
            if k < i {
                assert(ms[k].renderable());
            } else if k > i {
                assert(ms[k - 1].renderable());
            }
        }
    }
    if members_renderable(with) {
        assert forall|k: int| 0 <= k < ms.len() implies (#[trigger] ms[k]).renderable() by {
            if k < i {
                assert(with[k].renderable());
            } else {
                assert(with[k + 1].renderable());
            }
        }
    }
}

/// A function with at least one example and no description makes every
/// list that holds it unrenderable, and with it the class whose methods or
/// static methods hold it.
pub proof fn law_function_without_description_is_refused(c: ClassView, fs: Seq<FunctionView>, i: int)
    requires
        0 <= i < fs.len(),
        present(fs[i].examples).len() > 0,
        fs[i].desc is None,
    ensures
        !functions_renderable(fs),
        c.methods == Some(fs) || c.static_methods == Some(fs) ==> !c.renderable(),
{
    assert(!fs[i].renderable());
}

/// A class with one documented static member, one documented instance
/// member and neither constructors nor methods nor static methods consists
/// of its header, one section of static members with that one entry and one
/// section of members with that one entry, and nothing else.
pub proof fn law_class_with_members_only(c: ClassView, s: MemberView, m: MemberView)
    requires
        c.static_members == Some(seq![s]),
        c.members == Some(seq![m]),
        s.assignable is Some,
        m.assignable is Some,
        present(c.constructors).len() == 0,
        present(c.methods).len() == 0,
        present(c.static_methods).len() == 0,
    ensures
        class_text(c) == class_header(c) + "## Static Members\n\n"@ + member_text(c.name, s)
            + "\n"@ + "## Members\n\n"@ + member_text(instance_namespace(c.name), m) + "\n"@,
{
    assert(member_texts(c.name, seq![s]) == seq![member_text(c.name, s)]) by {
        reveal_with_fuel(Seq::filter, 2);
    }
    assert(member_texts(instance_namespace(c.name), seq![m]) == seq![
        member_text(instance_namespace(c.name), m),
    ]) by {
        reveal_with_fuel(Seq::filter, 2);
    }
    assert(concat(seq![member_text(c.name, s)]) == member_text(c.name, s)) by {
        reveal_with_fuel(concat, 2);
    }
    assert(concat(seq![member_text(instance_namespace(c.name), m)]) == member_text(
        instance_namespace(c.name),
        m,
    )) by {
        reveal_with_fuel(concat, 2);
    }
    assert(constructors_section(c) == Seq::<char>::empty());
    assert(methods_section(c) == Seq::<char>::empty());
    assert(static_methods_section(c) == Seq::<char>::empty());
    assert(static_members_section(c) == "## Static Members\n\n"@ + member_text(c.name, s) + "\n"@);
    assert(members_section(c) == "## Members\n\n"@ + member_text(instance_namespace(c.name), m)
        + "\n"@);
}

/// The detail of one parameter is the single line that begins with
/// `- Parameter - `; the detail of two or more is the heading
/// `- Parameters:` and one bullet per parameter. Neither begins as the
/// other does.
pub proof fn law_param_detail_forms(params: Seq<ParamView>)
    requires
        params.len() >= 1,
    ensures
        params.len() == 1 ==> param_detail(params) == "- Parameter - "@ + param_line(params[0])
            && !"- Parameters:\n"@.is_prefix_of(param_detail(params)),
        params.len() >= 2 ==> param_detail(params) == "- Parameters:\n"@ + concat(
            param_bullets(params),
        ) && param_bullets(params).len() == params.len() && !"- Parameter - "@.is_prefix_of(
            param_detail(params),
        ),
{
    reveal_strlit("- Parameter - ");
    reveal_strlit("- Parameters:\n");
    let single = "- Parameter - "@;
    let several = "- Parameters:\n"@;
    assert(single[11] == ' ');
    assert(several[11] == 's');
    let detail = param_detail(params);
    if params.len() == 1 {
        assert(detail[11] == single[11]);
        if several.is_prefix_of(detail) {
            assert(detail.subrange(0, several.len() as int)[11] == several[11]);
        }
    } else {
        assert(detail[11] == several[11]);
        if single.is_prefix_of(detail) {
            assert(detail.subrange(0, single.len() as int)[11] == single[11]);
        }
    }
}

/// No tab is left where tabs were expanded.
pub proof fn law_expanded_text_has_no_tab(s: Seq<char>)
    ensures
        !expand_tabs(s).contains('\t'),
    decreases s.len(),
{
    if s.len() > 0 {
        law_expanded_text_has_no_tab(s.drop_last());
        reveal_strlit("    ");
        let init = expand_tabs(s.drop_last());
        let all = expand_tabs(s);
        if all.contains('\t') {
            let k = choose|k: int| 0 <= k < all.len() && all[k] == '\t';
            if k < init.len() {
                assert(init[k] == '\t');
            }
        }
    }
}

/// What is left where line breaks at the end were removed does not end in
/// a line break.
pub proof fn law_stripped_text_ends_without_newline(s: Seq<char>)
    ensures
        strip_newlines(s).len() > 0 ==> strip_newlines(s).last() != '\n',
    decreases s.len(),
{
    if s.len() > 0 && s.last() == '\n' {
        law_stripped_text_ends_without_newline(s.drop_last());
    }
}

/// A fenced block shows the code without tabs, closes with exactly one
/// fence, and has no blank line before that fence: what stands before the
/// line break of the closing fence is the language tag or the last
/// character of the code, which is no line break.
pub proof fn law_example_block_shape(example: Seq<char>)
    ensures
        !example_code(example).contains('\t'),
        example_code(example).len() == 0 ==> example_block(example) == fence_open() + fence_close(),
        example_code(example).len() > 0 ==> example_block(example) == fence_open() + "\n"@
            + example_code(example) + fence_close(),
        fence_close().is_suffix_of(example_block(example)),
        example_block(example)[example_block(example).len() - fence_close().len() - 1] != '\n',
{
    law_expanded_text_has_no_tab(example);
    law_stripped_text_is_prefix(expand_tabs(example));
    law_stripped_text_ends_without_newline(expand_tabs(example));
    reveal_strlit("```kt");
    reveal_strlit("\n```\n");
    reveal_strlit("\n");
    let code = example_code(example);
    let block = example_block(example);
    let expanded = expand_tabs(example);
    if code.contains('\t') {
        let k = choose|k: int| 0 <= k < code.len() && code[k] == '\t';
        assert(expanded[k] == '\t');
    }
    assert(block.subrange(block.len() - fence_close().len(), block.len() as int) == fence_close());
    if code.len() == 0 {
        assert(block[block.len() - fence_close().len() - 1] == 't');
    } else {
        assert(block[block.len() - fence_close().len() - 1] == code.last());
    }
}

/// Removing line breaks at the end leaves a prefix.
pub proof fn law_stripped_text_is_prefix(s: Seq<char>)
    ensures
        strip_newlines(s).is_prefix_of(s),
    decreases s.len(),
{
    if s.len() > 0 && s.last() == '\n' {
        law_stripped_text_is_prefix(s.drop_last());
        let stripped = strip_newlines(s);
        assert(stripped == s.subrange(0, stripped.len() as int));
    } else {
        assert(s == s.subrange(0, s.len() as int));
    }
}

/// Line breaks at the end of an example do not show in its block.
pub proof fn law_trailing_newline_is_dropped(example: Seq<char>)
    ensures
        example_block(example.push('\n')) == example_block(example),
{
    assert(example.push('\n').drop_last() == example);
    assert(expand_tabs(example.push('\n')) == expand_tabs(example).push('\n'));
    assert(expand_tabs(example).push('\n').drop_last() == expand_tabs(example));
}

/// The import notice holds the import path in both places of the
/// instruction where there is one, and is the fixed sentence where there is
/// none; the two never read the same.
pub proof fn law_import_notice(path: Seq<char>)
    ensures
        import_text(Some(path)) == "Import with `import "@ + path + " from "@ + path + ";`\n\n"@,
        import_text(None) == "Class does not need to be imported.\n\n"@,
        import_text(Some(path)) != import_text(None),
{
    reveal_strlit("Import with `import ");
    reveal_strlit("Class does not need to be imported.\n\n");
    assert(import_text(Some(path))[0] == 'I');
    assert(import_text(None)[0] == 'C');
}

/// A document whose classes and extensions are objects without entries
/// renders as two empty texts.
pub proof fn law_empty_document_renders_empty(doc: JsonView)
    requires
        doc.field("classes"@) == Some(JsonView::Object(Seq::empty())),
        doc.field("extensions"@) == Some(JsonView::Object(Seq::empty())),
    ensures
        classes_markdown(doc) == Some(Seq::<char>::empty()),
        extensions_markdown(doc) == Some(Seq::<char>::empty()),
{
    let none = Seq::<Option<Seq<char>>>::empty();
    assert(all_some(none).unwrap() == Seq::<Seq<char>>::empty());
}

/// A document with one class is the Markdown of that class, with no
/// separator before or after it.
pub proof fn law_single_class_has_no_separator(doc: JsonView, key: Seq<char>, class: JsonView)
    requires
        doc.field("classes"@) == Some(JsonView::Object(seq![(key, class)])),
    ensures
        classes_markdown(doc) == class_markdown(class),
{
    let texts = class_markdowns(seq![(key, class)]);
    assert(texts[0] == class_markdown(class));
    if class_markdown(class) is Some {
        assert(all_some(texts).unwrap() == seq![class_markdown(class).unwrap()]);
        assert(join(seq![class_markdown(class).unwrap()], "\n\n"@) == class_markdown(
            class,
        ).unwrap());
    }
}

} // verus!
