//! Descriptions: the documentation lines of a field, joined into one string.

use crate::decl::{Attribute, AttributeView, Field, FieldView, Meta};
use crate::text::{join, joined, text_is, trim, trimmed, unquote, unquoted};
use crate::views::{views, views_of_one_more};
use vstd::prelude::*;

verus! {

/// Whether some segment of `path` reads `word`.
pub open spec fn has_segment(path: Seq<Seq<char>>, word: Seq<char>) -> bool {
    exists|i: int| 0 <= i < path.len() && #[trigger] path[i] == word
}

/// Whether the entry is a documentation line: a string literal given as the
/// value of a path with a segment `doc`.
pub open spec fn is_doc(a: AttributeView) -> bool {
    a.meta is Text && has_segment(a.path, "doc"@)
}

/// The text of a documentation line: the literal without its quotes and
/// without the whitespace around what is left.
pub open spec fn doc_line(a: AttributeView) -> Seq<char>
    recommends
        is_doc(a),
{
    trimmed(unquoted(a.meta->Text_0))
}

/// The documentation lines among `attrs`, in source order.
pub open spec fn doc_lines(attrs: Seq<AttributeView>) -> Seq<Seq<char>>
    decreases attrs.len(),
{
    if attrs.len() == 0 {
        Seq::empty()
    } else if is_doc(attrs.last()) {
        doc_lines(attrs.drop_last()).push(doc_line(attrs.last()))
    } else {
        doc_lines(attrs.drop_last())
    }
}

/// The description of a field without documentation.
pub open spec fn placeholder() -> Seq<char> {
    "No doc comment found"@
}

/// The description of a field with the metadata `attrs`: its documentation
/// lines joined by single spaces, or the placeholder where it has none.
pub open spec fn description(attrs: Seq<AttributeView>) -> Seq<char> {
    if doc_lines(attrs).len() == 0 {
        placeholder()
    } else {
        joined(doc_lines(attrs))
    }
}

/// The description of each field, in declaration order.
pub open spec fn descriptions(fields: Seq<FieldView>) -> Seq<Seq<char>> {
    Seq::new(fields.len(), |i: int| description(fields[i].attrs))
}

/// Whether some segment of `path` reads `word`.
pub fn path_has_segment(path: &Vec<String>, word: &str) -> (b: bool)
    ensures
        b == has_segment(views(path@), word@),
{
    let mut i: usize = 0;
    while i < path.len()
        invariant
            i <= path.len(),
            forall|j: int| 0 <= j < i ==> (#[trigger] views(path@)[j]) != word@,
        decreases path.len() - i,
    {
        if text_is(path[i].as_str(), word) {
            assert(views(path@)[i as int] == word@);
            return true;
        }
        i += 1;
    }
    false
}

/// The text of the entry if it is a documentation line.
pub fn doc_text(attr: &Attribute) -> (line: Option<String>)
    ensures
        line is Some == is_doc(attr@),
        line matches Some(text) ==> text@ == doc_line(attr@),
{
    match &attr.meta {
        Meta::Text(literal) => {
            if path_has_segment(&attr.path, "doc") {
                let bare = unquote(literal.as_str());
                Some(trim(bare.as_str()))
            } else {
                None
            }
        },
        _ => None,
    }
}

/// The description of a field from its metadata.
pub fn describe(attrs: &Vec<Attribute>) -> (out: String)
    ensures
        out@ == description(views(attrs@)),
{
    let mut lines: Vec<String> = Vec::new();
    let mut i: usize = 0;
    while i < attrs.len()
        invariant
            i <= attrs.len(),
            views(lines@) == doc_lines(views(attrs@.take(i as int))),
        decreases attrs.len() - i,
    {
        proof {
            views_of_one_more(attrs@, i as int);
        }
        let ghost seen = views(lines@);
        match doc_text(&attrs[i]) {
            Some(text) => {
                lines.push(text);
                assert(views(lines@) == seen.push(text@));
            },
            None => {},
        }
        i += 1;
    }
    assert(attrs@.take(attrs.len() as int) == attrs@);
    if lines.len() == 0 {
        "No doc comment found".to_owned()
    } else {
        join(&lines)
    }
}

/// The description of each field, in declaration order.
pub fn parse_doc_comments_from_fields(fields: &Vec<Field>) -> (out: Vec<String>)
    ensures
        views(out@) == descriptions(views(fields@)),
{
    let mut out: Vec<String> = Vec::new();
    let mut i: usize = 0;
    while i < fields.len()
        invariant
            i <= fields.len(),
            out.len() == i,
            forall|j: int| 0 <= j < i ==> (#[trigger] out@[j])@ == description(fields@[j]@.attrs),
        decreases fields.len() - i,
    {
        let text = describe(&fields[i].attrs);
        out.push(text);
        i += 1;
    }
    assert(views(out@) =~= descriptions(views(fields@)));
    out
}

} // verus!
