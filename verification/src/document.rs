use crate::json::JsonView;
use crate::markdown::{class_text, extension_text};
use crate::records::{functions_renderable, Class, Function};
use crate::schema::{all_some, decode_each, FromJson};
use crate::text::join;
use vstd::prelude::*;

verus! {

/// The Markdown of the class that a JSON value describes; `None` where the
/// value has not the shape of a class or the class cannot be rendered.
pub open spec fn class_markdown(j: JsonView) -> Option<Seq<char>> {
    match Class::decode(j) {
        Some(class) => if class.renderable() {
            Some(class_text(class))
        } else {
            None
        },
        None => None,
    }
}

/// The Markdown of the extension group `name` with the functions that the
/// JSON values describe; `None` where one of them has not the shape of a
/// function or cannot be rendered.
pub open spec fn extension_markdown(name: Seq<char>, items: Seq<JsonView>) -> Option<Seq<char>> {
    match all_some(decode_each::<Function>(items)) {
        Some(fs) => if functions_renderable(fs) {
            Some(extension_text(name, fs))
        } else {
            None
        },
        None => None,
    }
}

/// The Markdown of one entry of the extensions: its key names the group,
/// its value lists the functions.
pub open spec fn group_markdown(entry: (Seq<char>, JsonView)) -> Option<Seq<char>> {
    match entry.1 {
        JsonView::Array(items) => extension_markdown(entry.0, items),
        _ => None,
    }
}

/// The Markdown of the class of each entry; the keys are not used.
pub open spec fn class_markdowns(entries: Seq<(Seq<char>, JsonView)>) -> Seq<Option<Seq<char>>> {
    entries.map_values(|entry: (Seq<char>, JsonView)| class_markdown(entry.1))
}

/// The Markdown of the extension group of each entry.
pub open spec fn group_markdowns(entries: Seq<(Seq<char>, JsonView)>) -> Seq<Option<Seq<char>>> {
    entries.map_values(|entry: (Seq<char>, JsonView)| group_markdown(entry))
}

/// The document of all classes: the classes under `classes`, in the order
/// of the object, separated by one blank line. `None` where `classes` is
/// missing or no object, or one class has no Markdown.
pub open spec fn classes_markdown(doc: JsonView) -> Option<Seq<char>> {
    match doc.field("classes"@) {
        Some(JsonView::Object(entries)) => match all_some(class_markdowns(entries)) {
            Some(texts) => Some(join(texts, "\n\n"@)),
            None => None,
        },
        _ => None,
    }
}

/// The document of all extensions: the groups under `extensions`, in the
/// order of the object, separated by one blank line. `None` where
/// `extensions` is missing or no object, or one group has no Markdown.
pub open spec fn extensions_markdown(doc: JsonView) -> Option<Seq<char>> {
    match doc.field("extensions"@) {
        Some(JsonView::Object(entries)) => match all_some(group_markdowns(entries)) {
            Some(texts) => Some(join(texts, "\n\n"@)),
            None => None,
        },
        _ => None,
    }
}

} // verus!
