use crate::document::{
    class_markdown, class_markdowns, classes_markdown, extension_markdown, extensions_markdown,
    group_markdowns,
};
use crate::error::DocError;
use crate::json::{
    entry_view, json_parse, map_entries, map_view, parse_value, value_get, value_view,
    values_view, JsonView,
};
use crate::markdown::{
    class_description_text, class_header, class_text, constructor_text, constructor_texts,
    constructors_section, constructors_text, deprecated_text, description_text, example_block,
    example_blocks, example_code, examples_text, fence_open, function_text, function_texts,
    functions_text, import_text, instance_namespace, lemma_function_texts_step,
    lemma_member_texts_step, member_text, member_texts, members_section, members_text,
    methods_section, namespace_prefix, param_bullets, param_detail, param_line, param_name_list,
    param_names, params_text, returns_text, static_members_section, static_methods_section,
    throw_bullets, throws_text,
};
use crate::records::{
    functions_renderable, members_renderable, present, Class, Constructor, Function, Member,
    Param, Return,
};
use crate::schema::{all_some, decode_items, lemma_all_some_step, FromJson};
use crate::text::{
    concat, expanded_chars, join, lemma_concat_push, lemma_concat_step, lemma_join_push,
    lemma_join_step, lemma_lines_step, lines_text, strip_newlines,
};
use vstd::prelude::*;
use vstd::string::StringExecFns;

verus! {

/// A parsed description of the standard library, ready to be rendered.
pub struct DocParser {
    json: serde_json::Value,
}

impl View for DocParser {
    type V = JsonView;

    closed spec fn view(&self) -> JsonView {
        value_view(self.json)
    }
}

impl DocParser {
    /// Parses the text of a description as JSON. The text is refused where
    /// it is not valid JSON; what the document holds is looked at only when
    /// it is rendered.
    pub fn new(content: &str) -> (r: Result<DocParser, DocError>)
        ensures
            match r {
                Ok(parser) => json_parse(content@) == Some(parser@),
                Err(e) => e == DocError::Parse && json_parse(content@) is None,
            },
    {
        match parse_value(content) {
            Ok(json) => Ok(DocParser { json }),
            Err(_) => Err(DocError::Parse),
        }
    }

    /// Renders every extension group under `extensions`, in the order of the
    /// document, with one blank line between each two. Refuses the document
    /// where `extensions` is missing or no object, a group is no list of
    /// functions, or a function with examples has no description.
    pub fn parse_extensions(&self) -> (r: Result<String, DocError>)
        ensures
            match r {
                Ok(text) => extensions_markdown(self@) == Some(text@),
                Err(e) => e == DocError::Schema && extensions_markdown(self@) is None,
            },
    {
        let extensions = match value_get(&self.json, "extensions") {
            Some(extensions) => extensions,
            None => {
                return Err(DocError::Schema);
            },
        };
        let map = match extensions.as_object() {
            Some(map) => map,
            None => {
                return Err(DocError::Schema);
            },
        };
        let entries = map_entries(map);
        let ghost texts = group_markdowns(map_view(*map));
        let mut md = String::new();
        for i in 0..entries.len()
            invariant
                self@.field("extensions"@) == Some(JsonView::Object(map_view(*map))),
                texts == group_markdowns(map_view(*map)),
                entries@.len() == map_view(*map).len(),
                forall|k: int|
                    0 <= k < entries@.len() ==> entry_view(#[trigger] entries@[k]) == map_view(
                        *map,
                    )[k],
                all_some(texts.take(i as int)) is Some,
                md@ == join(all_some(texts.take(i as int)).unwrap(), "\n\n"@),
        {
            proof {
                lemma_all_some_step(texts, i as int);
                assert(entry_view(entries@[i as int]) == map_view(*map)[i as int]);
            }
            let functions = match entries[i].1.as_array() {
                Some(functions) => functions,
                None => {
                    proof {
                        assert(texts[i as int] is None);
                    }
                    return Err(DocError::Schema);
                },
            };
            let text = match Self::parse_extension(entries[i].0.as_str(), functions) {
                Ok(text) => text,
                Err(e) => {
                    proof {
                        assert(texts[i as int] is None);
                    }
                    return Err(e);
                },
            };
            proof {
                lemma_join_push(all_some(texts.take(i as int)).unwrap(), "\n\n"@, text@);
            }
            if i > 0 {
                md.append("\n\n");
            }
            md.append(text.as_str());
        }
        proof {
            assert(texts.take(entries.len() as int) == texts);
        }
        Ok(md)
    }

    /// Renders every class under `classes`, in the order of the document,
    /// with one blank line between each two. Refuses the document where
    /// `classes` is missing or no object, or one of the classes has the
    /// wrong shape or cannot be rendered.
    pub fn parse_classes(&self) -> (r: Result<String, DocError>)
        ensures
            match r {
                Ok(text) => classes_markdown(self@) == Some(text@),
                Err(e) => e == DocError::Schema && classes_markdown(self@) is None,
            },
    {
        let classes = match value_get(&self.json, "classes") {
            Some(classes) => classes,
            None => {
                return Err(DocError::Schema);
            },
        };
        let map = match classes.as_object() {
            Some(map) => map,
            None => {
                return Err(DocError::Schema);
            },
        };
        let entries = map_entries(map);
        let ghost texts = class_markdowns(map_view(*map));
        let mut md = String::new();
        for i in 0..entries.len()
            invariant
                self@.field("classes"@) == Some(JsonView::Object(map_view(*map))),
                texts == class_markdowns(map_view(*map)),
                entries@.len() == map_view(*map).len(),
                forall|k: int|
                    0 <= k < entries@.len() ==> entry_view(#[trigger] entries@[k]) == map_view(
                        *map,
                    )[k],
                all_some(texts.take(i as int)) is Some,
                md@ == join(all_some(texts.take(i as int)).unwrap(), "\n\n"@),
        {
            proof {
                lemma_all_some_step(texts, i as int);
                assert(entry_view(entries@[i as int]) == map_view(*map)[i as int]);
            }
            let text = match Self::parse_class(entries[i].1) {
                Ok(text) => text,
                Err(e) => {
                    proof {
                        assert(texts[i as int] is None);
                    }
                    return Err(e);
                },
            };
            proof {
                lemma_join_push(all_some(texts.take(i as int)).unwrap(), "\n\n"@, text@);
            }
            if i > 0 {
                md.append("\n\n");
            }
            md.append(text.as_str());
        }
        proof {
            assert(texts.take(entries.len() as int) == texts);
        }
        Ok(md)
    }

    /// Renders the extension group `name` with the functions that the JSON
    /// values describe.
    pub fn parse_extension(name: &str, functions: &Vec<serde_json::Value>) -> (r: Result<
        String,
        DocError,
    >)
        ensures
            match r {
                Ok(text) => extension_markdown(name@, values_view(functions@)) == Some(text@),
                Err(e) => e == DocError::Schema && extension_markdown(
                    name@,
                    values_view(functions@),
                ) is None,
            },
    {
        let list = match decode_items::<Function>(functions) {
            Ok(list) => list,
            Err(e) => {
                return Err(e);
            },
        };
        let mut md = String::new();
        md.append("## ");
        md.append(name);
        md.append("\n\n");
        match Self::add_functions(&mut md, None, &list) {
            Ok(_) => Ok(md),
            Err(e) => Err(e),
        }
    }

    /// Renders the class that a JSON value describes.
    pub fn parse_class(class_v: &serde_json::Value) -> (r: Result<String, DocError>)
        ensures
            match r {
                Ok(text) => class_markdown(value_view(*class_v)) == Some(text@),
                Err(e) => e == DocError::Schema && class_markdown(value_view(*class_v)) is None,
            },
    {
        match Class::from_value(class_v) {
            Ok(class) => Self::render_class(&class),
            Err(e) => Err(e),
        }
    }

    /// Appends every line of `array`, each followed by a line break.
    pub fn add_from_string_array(md: &mut String, array: &Vec<String>)
        ensures
            final(md)@ == old(md)@ + lines_text(array.deep_view()),
    {
        let ghost lines = array.deep_view();
        for i in 0..array.len()
            invariant
                lines == array.deep_view(),
                md@ == old(md)@ + lines_text(lines.take(i as int)),
        {
            proof {
                lemma_lines_step(lines, i as int);
            }
            md.append(array[i].as_str());
            md.append("\n");
        }
        proof {
            assert(lines.take(array.len() as int) == lines);
        }
    }

    /// Appends the description of an entry.
    pub fn add_description(md: &mut String, desc: &Vec<String>)
        ensures
            final(md)@ == old(md)@ + description_text(desc.deep_view()),
    {
        md.append("- Description: ");
        Self::add_from_string_array(md, desc);
    }

    /// Appends one example as a fenced code block.
    pub fn add_example(md: &mut String, example: &str)
        ensures
            final(md)@ == old(md)@ + example_block(example@),
    {
        let chars = expanded_chars(example);
        let mut end = chars.len();
        proof {
            assert(chars@.take(end as int) == chars@);
        }
        while end > 0 && chars[end - 1] == '\n'
            invariant
                end <= chars.len(),
                strip_newlines(chars@) == strip_newlines(chars@.take(end as int)),
            decreases end,
        {
            proof {
                assert(chars@.take(end as int).drop_last() == chars@.take(end - 1));
            }
            end -= 1;
        }
        let ghost code = chars@.take(end as int);
        assert(code == example_code(example@));
        md.append("```kt");
        if end > 0 {
            md.append("\n");
            for i in 0..end
                invariant
                    end <= chars.len(),
                    code == chars@.take(end as int),
                    md@ == old(md)@ + fence_open() + "\n"@ + code.take(i as int),
            {
                md.push(chars[i]);
                proof {
                    assert(code.take(i + 1) == code.take(i as int).push(chars[i as int]));
                }
            }
            proof {
                assert(code.take(end as int) == code);
            }
        }
        md.append("\n```\n");
    }

    /// Appends the heading of an example list and one fenced block per example.
    pub fn add_examples(md: &mut String, examples: &Vec<String>)
        ensures
            final(md)@ == old(md)@ + examples_text(examples.deep_view()),
    {
        if examples.len() == 1 {
            md.append("- Example:\n");
        } else {
            md.append("- Examples:\n");
        }
        let ghost heading = md@;
        let ghost blocks = example_blocks(examples.deep_view());
        for i in 0..examples.len()
            invariant
                blocks == example_blocks(examples.deep_view()),
                md@ == heading + concat(blocks.take(i as int)),
        {
            proof {
                lemma_concat_step(blocks, i as int);
            }
            Self::add_example(md, examples[i].as_str());
        }
        proof {
            assert(blocks.take(examples.len() as int) == blocks);
        }
    }

    /// Appends the parameter names of a heading, separated by a comma and a space.
    pub fn add_params_in_function(md: &mut String, params: &Vec<Param>)
        ensures
            final(md)@ == old(md)@ + param_names(params.deep_view()),
    {
        let ghost names = param_name_list(params.deep_view());
        for i in 0..params.len()
            invariant
                names == param_name_list(params.deep_view()),
                md@ == old(md)@ + join(names.take(i as int), ", "@),
        {
            proof {
                lemma_join_step(names, ", "@, i as int);
            }
            if i > 0 {
                md.append(", ");
            }
            md.append(params[i].name.as_str());
        }
        proof {
            assert(names.take(params.len() as int) == names);
        }
    }

    /// Appends type, name and description of one parameter, ending the line.
    fn add_param_line(md: &mut String, param: &Param)
        ensures
            final(md)@ == old(md)@ + param_line(param@),
    {
        md.append(param.ty.as_str());
        md.append(" (`");
        md.append(param.name.as_str());
        md.append("`): ");
        md.append(param.desc.as_str());
        md.append("\n");
    }

    /// Appends the detail of a parameter list: a single line for one
    /// parameter, a heading and one bullet each for any other number.
    pub fn add_params(md: &mut String, params: &Vec<Param>)
        ensures
            final(md)@ == old(md)@ + param_detail(params.deep_view()),
    {
        if params.len() == 1 {
            md.append("- Parameter - ");
            Self::add_param_line(md, &params[0]);
            return ;
        }
        md.append("- Parameters:\n");
        let ghost heading = md@;
        let ghost bullets = param_bullets(params.deep_view());
        for i in 0..params.len()
            invariant
                bullets == param_bullets(params.deep_view()),
                md@ == heading + concat(bullets.take(i as int)),
        {
            proof {
                lemma_concat_step(bullets, i as int);
            }
            md.append("  - ");
            Self::add_param_line(md, &params[i]);
        }
        proof {
            assert(bullets.take(params.len() as int) == bullets);
        }
    }

    /// Appends the detail of an optional parameter list; nothing for an
    /// absent or empty one.
    fn add_optional_params(md: &mut String, params: &Option<Vec<Param>>)
        ensures
            final(md)@ == old(md)@ + params_text(params.deep_view()),
    {
        match params {
            Some(list) => {
                if list.len() > 0 {
                    Self::add_params(md, list);
                }
            },
            None => {},
        }
    }

    /// Appends the parameter names of an optional parameter list.
    fn add_optional_names(md: &mut String, params: &Option<Vec<Param>>)
        ensures
            final(md)@ == old(md)@ + param_names(present(params.deep_view())),
    {
        match params {
            Some(list) => {
                Self::add_params_in_function(md, list);
            },
            None => {
                proof {
                    assert(param_name_list(Seq::empty()) == Seq::<Seq<char>>::empty());
                }
            },
        }
    }

    /// Appends what a function returns, where it says so.
    fn add_returns(md: &mut String, ret: &Option<Return>)
        ensures
            final(md)@ == old(md)@ + returns_text(ret.deep_view()),
    {
        match ret {
            Some(r) => {
                md.append("- Returns - ");
                md.append(r.ty.as_str());
                md.append(": ");
                md.append(r.desc.as_str());
                md.append("\n");
            },
            None => {},
        }
    }

    /// Appends the errors that a function throws, where it names any.
    fn add_throws(md: &mut String, throws: &Option<Vec<String>>)
        ensures
            final(md)@ == old(md)@ + throws_text(throws.deep_view()),
    {
        match throws {
            Some(errors) => {
                md.append("- Throws - Error:\n");
                let ghost heading = md@;
                let ghost bullets = throw_bullets(errors.deep_view());
                for i in 0..errors.len()
                    invariant
                        bullets == throw_bullets(errors.deep_view()),
                        md@ == heading + concat(bullets.take(i as int)),
                {
                    proof {
                        lemma_concat_step(bullets, i as int);
                    }
                    md.append("  - `'");
                    md.append(errors[i].as_str());
                    md.append("'`\n");
                }
                proof {
                    assert(bullets.take(errors.len() as int) == bullets);
                }
            },
            None => {},
        }
    }

    /// Appends the deprecation notice of a function, where it has one.
    fn add_deprecated(md: &mut String, deprecated: &Option<Vec<String>>)
        ensures
            final(md)@ == old(md)@ + deprecated_text(deprecated.deep_view()),
    {
        match deprecated {
            Some(notice) => {
                md.append("- Deprecated: ");
                Self::add_from_string_array(md, notice);
            },
            None => {},
        }
    }

    /// Renders one function under an optional namespace. A function without
    /// examples is skipped; one with examples but no description is refused.
    pub fn add_function(class_op: Option<&str>, function: &Function) -> (r: Result<
        Option<String>,
        DocError,
    >)
        ensures
            match r {
                Ok(Some(text)) => function@.documented() && function@.desc is Some && text@
                    == function_text(class_op.deep_view(), function@),
                Ok(None) => !function@.documented(),
                Err(e) => e == DocError::Schema && function@.documented() && function@.desc
                    is None,
            },
    {
        if !function.is_documented() {
            return Ok(None);
        }
        let examples = match &function.examples {
            Some(examples) => examples,
            None => {
                return Ok(None);
            },
        };
        let desc = match &function.desc {
            Some(desc) => desc,
            None => {
                return Err(DocError::Schema);
            },
        };
        let mut md = String::new();
        md.append("### `");
        match class_op {
            Some(class) => {
                md.append(class);
                md.append(".");
            },
            None => {},
        }
        assert(md@ == "### `"@ + namespace_prefix(class_op.deep_view()));
        md.append(function.name.as_str());
        md.append("(");
        Self::add_optional_names(&mut md, &function.params);
        md.append(")`\n");
        Self::add_deprecated(&mut md, &function.deprecated);
        Self::add_description(&mut md, desc);
        Self::add_optional_params(&mut md, &function.params);
        Self::add_returns(&mut md, &function.ret);
        Self::add_throws(&mut md, &function.throws);
        Self::add_examples(&mut md, examples);
        Ok(Some(md))
    }

    /// Appends the documented functions of a list, one blank line between
    /// each two. Refuses the list, and appends nothing, where a function with
    /// examples has no description.
    pub fn add_functions(md: &mut String, class_op: Option<&str>, functions: &Vec<Function>) -> (r:
        Result<(), DocError>)
        ensures
            match r {
                Ok(_) => functions_renderable(functions.deep_view()) && final(md)@ == old(md)@
                    + functions_text(class_op.deep_view(), functions.deep_view()),
                Err(e) => e == DocError::Schema && !functions_renderable(functions.deep_view())
                    && final(md)@ == old(md)@,
            },
    {
        let ghost namespace = class_op.deep_view();
        let ghost fs = functions.deep_view();
        let mut out = String::new();
        let mut first = true;
        for i in 0..functions.len()
            invariant
                namespace == class_op.deep_view(),
                fs == functions.deep_view(),
                functions_renderable(fs.take(i as int)),
                out@ == functions_text(namespace, fs.take(i as int)),
                first == (function_texts(namespace, fs.take(i as int)).len() == 0),
        {
            proof {
                lemma_function_texts_step(namespace, fs, i as int);
                lemma_join_push(
                    function_texts(namespace, fs.take(i as int)),
                    "\n"@,
                    function_text(namespace, fs[i as int]),
                );
            }
            match Self::add_function(class_op, &functions[i]) {
                Ok(Some(text)) => {
                    if !first {
                        out.append("\n");
                    }
                    out.append(text.as_str());
                    first = false;
                },
                Ok(None) => {},
                Err(e) => {
                    proof {
                        assert(!fs[i as int].renderable());
                    }
                    return Err(e);
                },
            }
            proof {
                assert forall|k: int| 0 <= k < i + 1 implies (#[trigger] fs.take(
                    i + 1,
                )[k]).renderable() by {
                    if k < i {
                        assert(fs.take(i as int)[k].renderable());
                    }
                }
            }
        }
        proof {
            assert(fs.take(functions.len() as int) == fs);
        }
        md.append(out.as_str());
        Ok(())
    }

    /// Renders one member under a namespace. A member without an
    /// assignability flag is skipped; one with the flag but without
    /// description, type or examples is refused.
    pub fn render_member(class_name: &str, member: &Member) -> (r: Result<Option<String>, DocError>)
        ensures
            match r {
                Ok(Some(text)) => member@.documented() && member@.renderable() && text@
                    == member_text(class_name@, member@),
                Ok(None) => !member@.documented(),
                Err(e) => e == DocError::Schema && !member@.renderable(),
            },
    {
        if !member.is_documented() {
            return Ok(None);
        }
        let assignable = match member.assignable {
            Some(flag) => flag,
            None => {
                return Ok(None);
            },
        };
        let desc = match &member.desc {
            Some(desc) => desc,
            None => {
                return Err(DocError::Schema);
            },
        };
        let ty = match &member.ty {
            Some(ty) => ty,
            None => {
                return Err(DocError::Schema);
            },
        };
        let examples = match &member.examples {
            Some(examples) => examples,
            None => {
                return Err(DocError::Schema);
            },
        };
        let mut md = String::new();
        md.append("### `");
        md.append(class_name);
        md.append(".");
        md.append(member.name.as_str());
        md.append("`\n");
        Self::add_description(&mut md, desc);
        md.append("- Type: ");
        md.append(ty.as_str());
        md.append("\n");
        md.append("- Assignable: ");
        if assignable {
            md.append("true");
        } else {
            md.append("false");
        }
        md.append("\n");
        Self::add_examples(&mut md, examples);
        Ok(Some(md))
    }

    /// Appends the documented members of a list, one after the other.
    /// Refuses the list, and appends nothing, where a member with an
    /// assignability flag lacks its description, type or examples.
    pub fn add_member(md: &mut String, class_name: &str, members: &Vec<Member>) -> (r: Result<
        (),
        DocError,
    >)
        ensures
            match r {
                Ok(_) => members_renderable(members.deep_view()) && final(md)@ == old(md)@
                    + members_text(class_name@, members.deep_view()),
                Err(e) => e == DocError::Schema && !members_renderable(members.deep_view())
                    && final(md)@ == old(md)@,
            },
    {
        let ghost ms = members.deep_view();
        let mut out = String::new();
        for i in 0..members.len()
            invariant
                ms == members.deep_view(),
                members_renderable(ms.take(i as int)),
                out@ == members_text(class_name@, ms.take(i as int)),
        {
            proof {
                lemma_member_texts_step(class_name@, ms, i as int);
                lemma_concat_push(
                    member_texts(class_name@, ms.take(i as int)),
                    member_text(class_name@, ms[i as int]),
                );
            }
            match Self::render_member(class_name, &members[i]) {
                Ok(Some(text)) => {
                    out.append(text.as_str());
                },
                Ok(None) => {},
                Err(e) => {
                    proof {
                        assert(!ms[i as int].renderable());
                    }
                    return Err(e);
                },
            }
            proof {
                assert forall|k: int| 0 <= k < i + 1 implies (#[trigger] ms.take(
                    i + 1,
                )[k]).renderable() by {
                    if k < i {
                        assert(ms.take(i as int)[k].renderable());
                    }
                }
            }
        }
        proof {
            assert(ms.take(members.len() as int) == ms);
        }
        md.append(out.as_str());
        Ok(())
    }

    /// Appends one constructor of the class `class_name`.
    pub fn add_constructor(md: &mut String, class_name: &str, constructor: &Constructor)
        ensures
            final(md)@ == old(md)@ + constructor_text(class_name@, constructor@),
    {
        md.append("### `new ");
        md.append(class_name);
        md.append("(");
        Self::add_optional_names(md, &constructor.params);
        md.append(")`\n");
        Self::add_description(md, &constructor.desc);
        Self::add_optional_params(md, &constructor.params);
        Self::add_examples(md, &constructor.examples);
    }

    /// Appends the constructors of the class `class_name`, one after the other.
    pub fn add_constructors(md: &mut String, class_name: &str, constructors: &Vec<Constructor>)
        ensures
            final(md)@ == old(md)@ + constructors_text(class_name@, constructors.deep_view()),
    {
        let ghost texts = constructor_texts(class_name@, constructors.deep_view());
        for i in 0..constructors.len()
            invariant
                texts == constructor_texts(class_name@, constructors.deep_view()),
                md@ == old(md)@ + concat(texts.take(i as int)),
        {
            proof {
                lemma_concat_step(texts, i as int);
            }
            Self::add_constructor(md, class_name, &constructors[i]);
        }
        proof {
            assert(texts.take(constructors.len() as int) == texts);
        }
    }

    /// Heading, blurb, description, import notice and the fixed marker line
    /// of a class.
    fn add_class_header(md: &mut String, class: &Class)
        ensures
            final(md)@ == old(md)@ + class_header(class@),
    {
        md.append("# ");
        md.append(class.name.as_str());
        md.append(" class\n");
        md.append(class.name.as_str());
        md.append(" class for Arucas.\n\n");
        match &class.desc {
            Some(desc) => {
                Self::add_from_string_array(md, desc);
                md.append("\n");
            },
            None => {},
        }
        assert(md@ == old(md)@ + ("# "@ + class@.name + " class\n"@ + class@.name
            + " class for Arucas.\n\n"@ + class_description_text(class@.desc)));
        match &class.import_path {
            Some(import_path) => {
                md.append("Import with `import ");
                md.append(import_path.as_str());
                md.append(" from ");
                md.append(import_path.as_str());
                md.append(";`\n\n");
            },
            None => {
                md.append("Class does not need to be imported.\n\n");
            },
        }
        assert(md@ == old(md)@ + ("# "@ + class@.name + " class\n"@ + class@.name
            + " class for Arucas.\n\n"@ + class_description_text(class@.desc) + import_text(
            class@.import_path,
        )));
        md.append("Fully Documented.\n\n");
    }

    /// The namespace of what belongs to an instance of a class: `<Name>`.
    fn instance_name(class_name: &str) -> (name: String)
        ensures
            name@ == instance_namespace(class_name@),
    {
        let mut name = String::new();
        name.append("<");
        name.append(class_name);
        name.append(">");
        name
    }

    /// Appends the section of the static members, where the class has any.
    fn add_static_members_section(md: &mut String, class: &Class) -> (r: Result<(), DocError>)
        ensures
            match r {
                Ok(_) => members_renderable(present(class@.static_members)) && final(md)@ == old(
                    md,
                )@ + static_members_section(class@),
                Err(e) => e == DocError::Schema && !members_renderable(
                    present(class@.static_members),
                ),
            },
    {
        match &class.static_members {
            Some(statics) => {
                if statics.len() > 0 {
                    md.append("## Static Members\n\n");
                    match Self::add_member(md, class.name.as_str(), statics) {
                        Ok(_) => {},
                        Err(e) => {
                            return Err(e);
                        },
                    }
                    md.append("\n");
                }
            },
            None => {},
        }
        Ok(())
    }

    /// Appends the section of the instance members, where the class has any.
    fn add_members_section(md: &mut String, class: &Class) -> (r: Result<(), DocError>)
        ensures
            match r {
                Ok(_) => members_renderable(present(class@.members)) && final(md)@ == old(md)@
                    + members_section(class@),
                Err(e) => e == DocError::Schema && !members_renderable(present(class@.members)),
            },
    {
        match &class.members {
            Some(members) => {
                if members.len() > 0 {
                    let member_class = Self::instance_name(class.name.as_str());
                    md.append("## Members\n\n");
                    match Self::add_member(md, member_class.as_str(), members) {
                        Ok(_) => {},
                        Err(e) => {
                            return Err(e);
                        },
                    }
                    md.append("\n");
                }
            },
            None => {},
        }
        Ok(())
    }

    /// Appends the section of the constructors, where the class has any.
    fn add_constructors_section(md: &mut String, class: &Class)
        ensures
            final(md)@ == old(md)@ + constructors_section(class@),
    {
        match &class.constructors {
            Some(constructors) => {
                if constructors.len() > 0 {
                    md.append("## Constructors\n\n");
                    Self::add_constructors(md, class.name.as_str(), constructors);
                    md.append("\n");
                }
            },
            None => {},
        }
    }

    /// Appends the section of the methods, where the class has any.
    fn add_methods_section(md: &mut String, class: &Class) -> (r: Result<(), DocError>)
        ensures
            match r {
                Ok(_) => functions_renderable(present(class@.methods)) && final(md)@ == old(md)@
                    + methods_section(class@),
                Err(e) => e == DocError::Schema && !functions_renderable(present(class@.methods)),
            },
    {
        match &class.methods {
            Some(methods) => {
                if methods.len() > 0 {
                    let member_class = Self::instance_name(class.name.as_str());
                    md.append("## Methods\n\n");
                    match Self::add_functions(md, Some(member_class.as_str()), methods) {
                        Ok(_) => {},
                        Err(e) => {
                            return Err(e);
                        },
                    }
                    md.append("\n");
                }
            },
            None => {},
        }
        Ok(())
    }

    /// Appends the section of the static methods, where the class has any.
    fn add_static_methods_section(md: &mut String, class: &Class) -> (r: Result<(), DocError>)
        ensures
            match r {
                Ok(_) => functions_renderable(present(class@.static_methods)) && final(md)@ == old(
                    md,
                )@ + static_methods_section(class@),
                Err(e) => e == DocError::Schema && !functions_renderable(
                    present(class@.static_methods),
                ),
            },
    {
        match &class.static_methods {
            Some(static_methods) => {
                if static_methods.len() > 0 {
                    md.append("## Static Methods\n\n");
                    match Self::add_functions(md, Some(class.name.as_str()), static_methods) {
                        Ok(_) => {},
                        Err(e) => {
                            return Err(e);
                        },
                    }
                }
            },
            None => {},
        }
        Ok(())
    }

    /// Renders one class. Refuses it where one of its documented members or
    /// functions lacks what its rendering needs.
    pub fn render_class(class: &Class) -> (r: Result<String, DocError>)
        ensures
            match r {
                Ok(text) => class@.renderable() && text@ == class_text(class@),
                Err(e) => e == DocError::Schema && !class@.renderable(),
            },
    {
        let mut md = String::new();
        Self::add_class_header(&mut md, class);
        match Self::add_static_members_section(&mut md, class) {
            Ok(_) => {},
            Err(e) => {
                return Err(e);
            },
        }
        match Self::add_members_section(&mut md, class) {
            Ok(_) => {},
            Err(e) => {
                return Err(e);
            },
        }
        Self::add_constructors_section(&mut md, class);
        match Self::add_methods_section(&mut md, class) {
            Ok(_) => {},
            Err(e) => {
                return Err(e);
            },
        }
        match Self::add_static_methods_section(&mut md, class) {
            Ok(_) => {},
            Err(e) => {
                return Err(e);
            },
        }
        Ok(md)
    }
}

} // verus!
