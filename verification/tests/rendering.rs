use arucas_docs::{Class, Constructor, DocError, DocParser, Function, Member, Param, Return};

fn lines(items: &[&str]) -> Vec<String> {
    items.iter().map(|s| s.to_string()).collect()
}

fn param(name: &str, ty: &str, desc: &str) -> Param {
    Param { name: name.to_string(), ty: ty.to_string(), desc: desc.to_string() }
}

fn function(name: &str) -> Function {
    Function {
        name: name.to_string(),
        deprecated: None,
        desc: Some(lines(&["does a thing"])),
        params: None,
        ret: None,
        throws: None,
        examples: Some(lines(&["run();"])),
    }
}

fn member(name: &str, assignable: Option<bool>) -> Member {
    Member {
        name: name.to_string(),
        assignable,
        desc: Some(lines(&["a field"])),
        ty: Some("Number".to_string()),
        examples: Some(lines(&["x;"])),
    }
}

fn class(name: &str) -> Class {
    Class {
        name: name.to_string(),
        desc: None,
        import_path: None,
        static_members: None,
        members: None,
        constructors: None,
        methods: None,
        static_methods: None,
    }
}

#[test]
fn string_array_puts_each_line_on_its_own() {
    let mut md = String::from(">");
    DocParser::add_from_string_array(&mut md, &lines(&["one", "two"]));
    assert_eq!(md, ">one\ntwo\n");
}

#[test]
fn string_array_of_nothing_adds_nothing() {
    let mut md = String::from(">");
    DocParser::add_from_string_array(&mut md, &Vec::new());
    assert_eq!(md, ">");
}

#[test]
fn description_starts_with_its_label() {
    let mut md = String::new();
    DocParser::add_description(&mut md, &lines(&["first", "second"]));
    assert_eq!(md, "- Description: first\nsecond\n");
}

#[test]
fn example_block_expands_tabs_and_drops_trailing_newlines() {
    let mut md = String::new();
    DocParser::add_example(&mut md, "if (x) {\n\treturn;\n}\n\n\n");
    assert_eq!(md, "```kt\nif (x) {\n    return;\n}\n```\n");
}

#[test]
fn example_block_keeps_inner_blank_lines() {
    let mut md = String::new();
    DocParser::add_example(&mut md, "a\n\nb");
    assert_eq!(md, "```kt\na\n\nb\n```\n");
}

#[test]
fn example_block_of_empty_example_has_no_blank_line() {
    let mut md = String::new();
    DocParser::add_example(&mut md, "");
    assert_eq!(md, "```kt\n```\n");
}

#[test]
fn example_block_of_newlines_only_has_no_blank_line() {
    let mut md = String::new();
    DocParser::add_example(&mut md, "\n\n");
    assert_eq!(md, "```kt\n```\n");
}

#[test]
fn example_block_keeps_text_before_it() {
    let mut md = String::from("before\n\n");
    DocParser::add_example(&mut md, "\n");
    assert_eq!(md, "before\n\n```kt\n```\n");
}

#[test]
fn example_block_handles_wide_characters() {
    let mut md = String::new();
    DocParser::add_example(&mut md, "print('h\u{e9}llo \u{1F600}');\t\n");
    assert_eq!(md, "```kt\nprint('h\u{e9}llo \u{1F600}');    \n```\n");
}

#[test]
fn one_example_has_singular_heading() {
    let mut md = String::new();
    DocParser::add_examples(&mut md, &lines(&["a();"]));
    assert_eq!(md, "- Example:\n```kt\na();\n```\n");
}

#[test]
fn two_examples_have_plural_heading() {
    let mut md = String::new();
    DocParser::add_examples(&mut md, &lines(&["a();", "b();\n"]));
    assert_eq!(md, "- Examples:\n```kt\na();\n```\n```kt\nb();\n```\n");
}

#[test]
fn no_example_has_plural_heading_and_no_block() {
    let mut md = String::new();
    DocParser::add_examples(&mut md, &Vec::new());
    assert_eq!(md, "- Examples:\n");
}

#[test]
fn heading_lists_parameter_names_only() {
    let mut md = String::new();
    let params = vec![param("a", "Number", "first"), param("b", "String", "second"), param("c", "List", "third")];
    DocParser::add_params_in_function(&mut md, &params);
    assert_eq!(md, "a, b, c");
}

#[test]
fn heading_of_one_parameter_has_no_separator() {
    let mut md = String::new();
    DocParser::add_params_in_function(&mut md, &vec![param("only", "Number", "x")]);
    assert_eq!(md, "only");
}

#[test]
fn one_parameter_renders_on_a_single_line() {
    let mut md = String::new();
    DocParser::add_params(&mut md, &vec![param("index", "Number", "the index")]);
    assert_eq!(md, "- Parameter - Number (`index`): the index\n");
    assert!(!md.contains("- Parameters:"));
}

#[test]
fn two_parameters_render_as_bullets() {
    let mut md = String::new();
    DocParser::add_params(&mut md, &vec![param("a", "Number", "first"), param("b", "String", "second")]);
    assert_eq!(md, "- Parameters:\n  - Number (`a`): first\n  - String (`b`): second\n");
    assert!(!md.contains("- Parameter - "));
}

#[test]
fn function_without_examples_is_skipped() {
    let mut f = function("bar");
    f.examples = None;
    assert_eq!(DocParser::add_function(Some("Foo"), &f), Ok(None));
}

#[test]
fn function_with_empty_examples_is_skipped() {
    let mut f = function("bar");
    f.examples = Some(Vec::new());
    assert_eq!(DocParser::add_function(None, &f), Ok(None));
}

#[test]
fn skipped_function_needs_no_description() {
    let mut f = function("bar");
    f.examples = None;
    f.desc = None;
    assert_eq!(DocParser::add_function(None, &f), Ok(None));
}

#[test]
fn function_with_examples_but_no_description_is_refused() {
    let mut f = function("bar");
    f.desc = None;
    assert_eq!(DocParser::add_function(Some("Foo"), &f), Err(DocError::Schema));
}

#[test]
fn plain_function_renders_heading_description_and_example() {
    let text = DocParser::add_function(None, &function("bar")).unwrap().unwrap();
    assert_eq!(text, "### `bar()`\n- Description: does a thing\n- Example:\n```kt\nrun();\n```\n");
}

#[test]
fn function_under_namespace_has_dotted_heading() {
    let text = DocParser::add_function(Some("<Foo>"), &function("bar")).unwrap().unwrap();
    assert!(text.starts_with("### `<Foo>.bar()`\n"));
}

#[test]
fn full_function_renders_every_part_in_order() {
    let f = Function {
        name: "get".to_string(),
        deprecated: Some(lines(&["use fetch instead"])),
        desc: Some(lines(&["gets a value", "from the list"])),
        params: Some(vec![param("index", "Number", "where"), param("fallback", "Object", "else")]),
        ret: Some(Return { ty: "Object".to_string(), desc: "the value".to_string() }),
        throws: Some(lines(&["Index out of bounds", "Bad fallback"])),
        examples: Some(lines(&["list.get(0, null);", "list.get(1, 2);\n"])),
    };
    let text = DocParser::add_function(Some("<List>"), &f).unwrap().unwrap();
    let expected = "### `<List>.get(index, fallback)`\n\
- Deprecated: use fetch instead\n\
- Description: gets a value\n\
from the list\n\
- Parameters:\n  - Number (`index`): where\n  - Object (`fallback`): else\n\
- Returns - Object: the value\n\
- Throws - Error:\n  - `'Index out of bounds'`\n  - `'Bad fallback'`\n\
- Examples:\n```kt\nlist.get(0, null);\n```\n```kt\nlist.get(1, 2);\n```\n";
    assert_eq!(text, expected);
}

#[test]
fn function_with_one_parameter_uses_single_form() {
    let mut f = function("put");
    f.params = Some(vec![param("value", "Object", "what to put")]);
    let text = DocParser::add_function(None, &f).unwrap().unwrap();
    assert_eq!(
        text,
        "### `put(value)`\n- Description: does a thing\n- Parameter - Object (`value`): what to put\n- Example:\n```kt\nrun();\n```\n"
    );
}

#[test]
fn function_with_empty_parameter_list_has_no_parameter_detail() {
    let mut f = function("put");
    f.params = Some(Vec::new());
    let text = DocParser::add_function(None, &f).unwrap().unwrap();
    assert_eq!(text, "### `put()`\n- Description: does a thing\n- Example:\n```kt\nrun();\n```\n");
}

#[test]
fn function_list_separates_rendered_entries_only() {
    let mut skipped = function("hidden");
    skipped.examples = None;
    let a = DocParser::add_function(None, &function("a")).unwrap().unwrap();
    let b = DocParser::add_function(None, &function("b")).unwrap().unwrap();

    let mut md = String::from("## G\n\n");
    let list = vec![function("a"), function("hidden2"), function("b")];
    let mut list = list;
    list[1].examples = None;
    assert_eq!(DocParser::add_functions(&mut md, None, &list), Ok(()));
    assert_eq!(md, format!("## G\n\n{}\n{}", a, b));

    let mut md = String::new();
    let list = vec![function("a"), function("b")];
    let mut trailing = list;
    trailing.push(skipped);
    assert_eq!(DocParser::add_functions(&mut md, None, &trailing), Ok(()));
    assert_eq!(md, format!("{}\n{}", a, b));
}

#[test]
fn skipped_function_contributes_nothing_anywhere() {
    let mut skipped = function("hidden");
    skipped.examples = Some(Vec::new());
    let mut plain = String::new();
    assert_eq!(DocParser::add_functions(&mut plain, Some("Foo"), &vec![function("a"), function("b")]), Ok(()));
    for place in 0..3 {
        let mut list = vec![function("a"), function("b")];
        let mut hidden = function("hidden");
        hidden.examples = Some(Vec::new());
        list.insert(place, hidden);
        let mut md = String::new();
        assert_eq!(DocParser::add_functions(&mut md, Some("Foo"), &list), Ok(()));
        assert_eq!(md, plain);
    }
    let mut md = String::new();
    assert_eq!(DocParser::add_functions(&mut md, Some("Foo"), &vec![skipped]), Ok(()));
    assert_eq!(md, "");
}

#[test]
fn function_list_with_undescribed_function_is_refused_and_adds_nothing() {
    let mut bad = function("bad");
    bad.desc = None;
    let mut md = String::from("kept");
    assert_eq!(DocParser::add_functions(&mut md, None, &vec![function("a"), bad]), Err(DocError::Schema));
    assert_eq!(md, "kept");
}

#[test]
fn member_without_flag_is_skipped() {
    let mut m = member("x", None);
    m.desc = None;
    m.ty = None;
    m.examples = None;
    assert_eq!(DocParser::render_member("Foo", &m), Ok(None));
}

#[test]
fn member_renders_type_and_flag() {
    let text = DocParser::render_member("Foo", &member("x", Some(true))).unwrap().unwrap();
    assert_eq!(
        text,
        "### `Foo.x`\n- Description: a field\n- Type: Number\n- Assignable: true\n- Example:\n```kt\nx;\n```\n"
    );
    let text = DocParser::render_member("<Foo>", &member("y", Some(false))).unwrap().unwrap();
    assert_eq!(
        text,
        "### `<Foo>.y`\n- Description: a field\n- Type: Number\n- Assignable: false\n- Example:\n```kt\nx;\n```\n"
    );
}

#[test]
fn member_with_flag_needs_description_type_and_examples() {
    let mut m = member("x", Some(true));
    m.desc = None;
    assert_eq!(DocParser::render_member("Foo", &m), Err(DocError::Schema));
    let mut m = member("x", Some(true));
    m.ty = None;
    assert_eq!(DocParser::render_member("Foo", &m), Err(DocError::Schema));
    let mut m = member("x", Some(false));
    m.examples = None;
    assert_eq!(DocParser::render_member("Foo", &m), Err(DocError::Schema));
}

#[test]
fn member_list_joins_documented_members_directly() {
    let a = DocParser::render_member("Foo", &member("a", Some(true))).unwrap().unwrap();
    let c = DocParser::render_member("Foo", &member("c", Some(false))).unwrap().unwrap();
    let mut md = String::from("## Static Members\n\n");
    let list = vec![member("a", Some(true)), member("b", None), member("c", Some(false))];
    assert_eq!(DocParser::add_member(&mut md, "Foo", &list), Ok(()));
    assert_eq!(md, format!("## Static Members\n\n{}{}", a, c));
}

#[test]
fn member_list_with_incomplete_member_is_refused_and_adds_nothing() {
    let mut bad = member("bad", Some(true));
    bad.examples = None;
    let mut md = String::from("kept");
    assert_eq!(DocParser::add_member(&mut md, "Foo", &vec![member("a", Some(true)), bad]), Err(DocError::Schema));
    assert_eq!(md, "kept");
}

#[test]
fn constructor_renders_heading_description_parameters_examples() {
    let c = Constructor {
        desc: lines(&["makes a Foo"]),
        params: Some(vec![param("size", "Number", "how big"), param("name", "String", "its name")]),
        examples: lines(&["new Foo(1, 'a');"]),
    };
    let mut md = String::new();
    DocParser::add_constructor(&mut md, "Foo", &c);
    assert_eq!(
        md,
        "### `new Foo(size, name)`\n- Description: makes a Foo\n- Parameters:\n  - Number (`size`): how big\n  - String (`name`): its name\n- Example:\n```kt\nnew Foo(1, 'a');\n```\n"
    );
}

#[test]
fn constructor_without_parameters_has_empty_brackets() {
    let c = Constructor { desc: lines(&["makes a Foo"]), params: None, examples: lines(&["new Foo();"]) };
    let mut md = String::new();
    DocParser::add_constructors(&mut md, "Foo", &vec![c]);
    assert_eq!(md, "### `new Foo()`\n- Description: makes a Foo\n- Example:\n```kt\nnew Foo();\n```\n");
}

#[test]
fn bare_class_renders_header_only() {
    let text = DocParser::render_class(&class("Foo")).unwrap();
    assert_eq!(
        text,
        "# Foo class\nFoo class for Arucas.\n\nClass does not need to be imported.\n\nFully Documented.\n\n"
    );
}

#[test]
fn class_description_is_followed_by_a_blank_line() {
    let mut c = class("Foo");
    c.desc = Some(lines(&["A foo.", "Really."]));
    let text = DocParser::render_class(&c).unwrap();
    assert_eq!(
        text,
        "# Foo class\nFoo class for Arucas.\n\nA foo.\nReally.\n\nClass does not need to be imported.\n\nFully Documented.\n\n"
    );
}

#[test]
fn import_path_fills_both_slots() {
    let mut c = class("Foo");
    c.import_path = Some("util".to_string());
    let text = DocParser::render_class(&c).unwrap();
    assert!(text.contains("Import with `import util from util;`\n\n"));
    assert!(!text.contains("does not need to be imported"));
    let text = DocParser::render_class(&class("Foo")).unwrap();
    assert!(text.contains("Class does not need to be imported.\n\n"));
    assert!(!text.contains("Import with"));
}

#[test]
fn class_with_one_static_and_one_instance_member_has_two_sections() {
    let mut c = class("Foo");
    c.static_members = Some(vec![member("PI", Some(false))]);
    c.members = Some(vec![member("size", Some(true))]);
    let text = DocParser::render_class(&c).unwrap();
    assert_eq!(text.matches("## Static Members\n").count(), 1);
    assert_eq!(text.matches("\n## Members\n").count(), 1);
    assert_eq!(text.matches("### `").count(), 2);
    assert!(text.contains("### `Foo.PI`\n"));
    assert!(text.contains("### `<Foo>.size`\n"));
    assert!(!text.contains("## Constructors"));
    assert!(!text.contains("## Methods"));
    assert!(!text.contains("## Static Methods"));
    let header = "# Foo class\nFoo class for Arucas.\n\nClass does not need to be imported.\n\nFully Documented.\n\n";
    let pi = DocParser::render_member("Foo", &member("PI", Some(false))).unwrap().unwrap();
    let size = DocParser::render_member("<Foo>", &member("size", Some(true))).unwrap().unwrap();
    assert_eq!(text, format!("{}## Static Members\n\n{}\n## Members\n\n{}\n", header, pi, size));
}

#[test]
fn full_class_renders_sections_in_order() {
    let mut c = class("Foo");
    c.static_members = Some(vec![member("PI", Some(false))]);
    c.members = Some(vec![member("size", Some(true))]);
    c.constructors = Some(vec![Constructor { desc: lines(&["makes"]), params: None, examples: lines(&["new Foo();"]) }]);
    c.methods = Some(vec![function("run"), function("stop")]);
    c.static_methods = Some(vec![function("of")]);
    let text = DocParser::render_class(&c).unwrap();
    let header = "# Foo class\nFoo class for Arucas.\n\nClass does not need to be imported.\n\nFully Documented.\n\n";
    let pi = DocParser::render_member("Foo", &member("PI", Some(false))).unwrap().unwrap();
    let size = DocParser::render_member("<Foo>", &member("size", Some(true))).unwrap().unwrap();
    let run = DocParser::add_function(Some("<Foo>"), &function("run")).unwrap().unwrap();
    let stop = DocParser::add_function(Some("<Foo>"), &function("stop")).unwrap().unwrap();
    let of = DocParser::add_function(Some("Foo"), &function("of")).unwrap().unwrap();
    let expected = format!(
        "{}## Static Members\n\n{}\n## Members\n\n{}\n## Constructors\n\n### `new Foo()`\n- Description: makes\n- Example:\n```kt\nnew Foo();\n```\n\n## Methods\n\n{}\n{}\n## Static Methods\n\n{}",
        header, pi, size, run, stop, of
    );
    assert_eq!(text, expected);
}

#[test]
fn empty_lists_make_no_sections() {
    let mut c = class("Foo");
    c.static_members = Some(Vec::new());
    c.members = Some(Vec::new());
    c.constructors = Some(Vec::new());
    c.methods = Some(Vec::new());
    c.static_methods = Some(Vec::new());
    assert_eq!(DocParser::render_class(&c), DocParser::render_class(&class("Foo")));
}

#[test]
fn section_of_skipped_methods_keeps_its_heading() {
    let mut c = class("Foo");
    let mut hidden = function("hidden");
    hidden.examples = None;
    c.methods = Some(vec![hidden]);
    let text = DocParser::render_class(&c).unwrap();
    assert!(text.ends_with("Fully Documented.\n\n## Methods\n\n\n"));
}

#[test]
fn class_with_undescribed_method_is_refused() {
    let mut c = class("Foo");
    let mut bad = function("bad");
    bad.desc = None;
    c.static_methods = Some(vec![function("ok"), bad]);
    assert_eq!(DocParser::render_class(&c), Err(DocError::Schema));
}

#[test]
fn class_with_incomplete_member_is_refused() {
    let mut c = class("Foo");
    let mut bad = member("bad", Some(true));
    bad.ty = None;
    c.members = Some(vec![bad]);
    assert_eq!(DocParser::render_class(&c), Err(DocError::Schema));
}

#[test]
fn error_messages_differ() {
    assert_eq!(DocError::Parse.message(), "input is not valid JSON");
    assert_eq!(DocError::Schema.message(), "a required field is missing or has the wrong shape");
}

#[test]
fn member_with_empty_example_list_renders_heading_only() {
    let mut m = member("x", Some(true));
    m.examples = Some(Vec::new());
    let text = DocParser::render_member("Foo", &m).unwrap().unwrap();
    assert_eq!(text, "### `Foo.x`\n- Description: a field\n- Type: Number\n- Assignable: true\n- Examples:\n");
}

#[test]
fn documented_predicates_follow_examples_and_flag() {
    assert!(function("a").is_documented());
    let mut f = function("a");
    f.examples = Some(Vec::new());
    assert!(!f.is_documented());
    f.examples = None;
    assert!(!f.is_documented());
    assert!(member("x", Some(false)).is_documented());
    assert!(!member("x", None).is_documented());
}
