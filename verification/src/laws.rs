//! What holds of every declaration: the laws of the generator, stated over
//! the functions that its contracts use.

use crate::control::{
    control, directive, first_control_is_least, has_control, is_control, ControlView,
    DirectiveError,
};
use crate::decl::{AttributeView, DataView, DeriveInputView, FieldView, MetaView};
use crate::doc::{description, doc_line, doc_lines, is_doc, placeholder};
use crate::error::ExpandErrorView;
use crate::panel::{grid_id, named_fields, panel, row_source, rows_source, RowView};
use crate::text::joined;
use crate::token::{Delimiter, TokenView};
use crate::widget::{
    default_widget, expression, field_widget, first_bad_field, first_bad_field_is_least,
    is_float_type, is_integer_type, WidgetView,
};
use vstd::prelude::*;

verus! {

/// No type name is both an integer name and a floating-point name.
pub proof fn integer_and_float_names_differ(ty: Seq<char>)
    ensures
        !(is_integer_type(ty) && is_float_type(ty)),
{
    reveal_strlit("u8");
    reveal_strlit("u16");
    reveal_strlit("u32");
    reveal_strlit("u64");
    reveal_strlit("u128");
    reveal_strlit("usize");
    reveal_strlit("i8");
    reveal_strlit("i16");
    reveal_strlit("i32");
    reveal_strlit("i64");
    reveal_strlit("i128");
    reveal_strlit("isize");
    reveal_strlit("f32");
    reveal_strlit("f64");
    if is_integer_type(ty) && is_float_type(ty) {
        assert(ty[0] == 'f');
        assert(ty[0] == 'u' || ty[0] == 'i');
    }
}

/// A field without a control directive gets the widget of its declared
/// type, whatever else is attached to it.
pub proof fn undirected_field_gets_default(f: FieldView)
    requires
        !has_control(f.attrs),
    ensures
        field_widget(f) == Ok::<WidgetView, DirectiveError>(default_widget(f.name, f.ty)),
{
    first_control_is_least(f.attrs, 0);
}

/// Of a struct whose fields carry no control directive, every field has a
/// row, and its widget goes by the declared type alone: an integer type
/// gives a slider over `0..=100`, a floating-point type a slider over
/// `0.0..=1.0`, any other type a text box.
pub proof fn widgets_default_by_type(input: DeriveInputView, fields: Seq<FieldView>)
    requires
        input.data == DataView::Struct(fields),
        forall|i: int| 0 <= i < fields.len() ==> !has_control(#[trigger] fields[i].attrs),
    ensures
        panel(input) is Ok,
        panel(input)->Ok_0.rows.len() == fields.len(),
        forall|i: int|
            #![trigger panel(input)->Ok_0.rows[i]]
            0 <= i < fields.len() ==> {
                let w = panel(input)->Ok_0.rows[i].widget;
                let ty = fields[i].ty;
                &&& is_integer_type(ty) ==> w == WidgetView::Slider {
                    field: fields[i].name,
                    range: "0..=100"@,
                }
                &&& is_float_type(ty) ==> w == WidgetView::Slider {
                    field: fields[i].name,
                    range: "0.0..=1.0"@,
                }
                &&& !is_integer_type(ty) && !is_float_type(ty) ==> w == WidgetView::TextBox {
                    field: fields[i].name,
                    hinted: true,
                }
            },
{
    assert forall|i: int| 0 <= i < fields.len() implies (#[trigger] field_widget(fields[i]))
        == Ok::<WidgetView, DirectiveError>(default_widget(fields[i].name, fields[i].ty)) by {
        undirected_field_gets_default(fields[i]);
    }
    first_bad_field_is_least(fields, 0);
    assert forall|i: int| 0 <= i < fields.len() implies !(is_integer_type(fields[i].ty)
        && is_float_type(#[trigger] fields[i].ty)) by {
        integer_and_float_names_differ(fields[i].ty);
    }
}

/// A directive that reads `slider` and then a group in parentheses or
/// square brackets selects a slider over exactly the text in the group,
/// whatever follows.
pub proof fn slider_directive_keeps_range(tokens: Seq<TokenView>, range: Seq<char>)
    requires
        tokens.len() >= 2,
        tokens[0] == TokenView::Ident("slider"@),
        tokens[1] == TokenView::Group(Delimiter::Parenthesis, range) || tokens[1]
            == TokenView::Group(Delimiter::Bracket, range),
    ensures
        directive(tokens) == Ok::<ControlView, DirectiveError>(ControlView::Slider(range)),
{
}

/// A field whose control directive is `slider(range)` gets a slider over
/// exactly `range`, as written, whatever its declared type; and the
/// expression that constructs the slider holds `range` unchanged.
pub proof fn slider_uses_range_verbatim(
    f: FieldView,
    k: int,
    tokens: Seq<TokenView>,
    range: Seq<char>,
)
    requires
        0 <= k < f.attrs.len(),
        is_control(f.attrs[k]),
        forall|j: int| 0 <= j < k ==> !is_control(#[trigger] f.attrs[j]),
        f.attrs[k].meta == MetaView::List(tokens),
        tokens.len() >= 2,
        tokens[0] == TokenView::Ident("slider"@),
        tokens[1] == TokenView::Group(Delimiter::Parenthesis, range) || tokens[1]
            == TokenView::Group(Delimiter::Bracket, range),
    ensures
        field_widget(f) == Ok::<WidgetView, DirectiveError>(
            WidgetView::Slider { field: f.name, range },
        ),
        expression(WidgetView::Slider { field: f.name, range })
            == "::eframe::egui::Slider::new(&mut self."@ + f.name + ", "@ + range + ")"@,
{
    first_control_is_least(f.attrs, 0);
    slider_directive_keeps_range(tokens, range);
}

/// A declaration has a panel exactly if it is a struct with named fields or
/// without a field list, and the control directive of every field is
/// understood.
pub proof fn panel_exists_iff(input: DeriveInputView)
    ensures
        panel(input) is Ok <==> {
            &&& named_fields(input.data) matches Ok(fields)
            &&& forall|i: int| 0 <= i < fields.len() ==> control(#[trigger] fields[i].attrs) is Ok
        },
{
    if let Ok(fields) = named_fields(input.data) {
        first_bad_field_is_least(fields, 0);
        if panel(input) is Ok {
            assert forall|i: int| 0 <= i < fields.len() implies control(
                #[trigger] fields[i].attrs,
            ) is Ok by {
                assert(field_widget(fields[i]) is Ok);
            }
        }
        if forall|i: int| 0 <= i < fields.len() ==> control(#[trigger] fields[i].attrs) is Ok {
            if let Some(k) = first_bad_field(fields, 0) {
                assert(control(fields[k].attrs) is Ok);
            }
        }
    }
}

/// The rows of a panel follow the fields in declaration order: as many rows
/// as fields, and the row at each position is that of the field at the same
/// position, with its name, its widget and its description.
pub proof fn rows_follow_fields(input: DeriveInputView, fields: Seq<FieldView>)
    requires
        named_fields(input.data) == Ok::<Seq<FieldView>, ExpandErrorView>(fields),
        panel(input) is Ok,
    ensures
        panel(input)->Ok_0.rows.len() == fields.len(),
        forall|i: int|
            #![trigger panel(input)->Ok_0.rows[i]]
            0 <= i < fields.len() ==> panel(input)->Ok_0.rows[i] == (RowView {
                name: fields[i].name,
                widget: field_widget(fields[i])->Ok_0,
                description: description(fields[i].attrs),
            }),
{
    first_bad_field_is_least(fields, 0);
}

/// Structs of different names get grids of different identifiers.
pub proof fn grid_ids_differ(a: Seq<char>, b: Seq<char>)
    requires
        a != b,
    ensures
        grid_id(a) != grid_id(b),
{
    let suffix = "__control-panel"@;
    if grid_id(a) == grid_id(b) {
        assert(a.len() == b.len()) by {
            assert((a + suffix).len() == (b + suffix).len());
        }
        assert forall|i: int| 0 <= i < a.len() implies a[i] == b[i] by {
            assert((a + suffix)[i] == a[i]);
            assert((b + suffix)[i] == b[i]);
        }
        assert(a =~= b);
    }
}

/// The statements of two runs of rows, one after the other, are the
/// statements of the first run followed by those of the second.
pub proof fn rows_source_of_concat(a: Seq<RowView>, b: Seq<RowView>)
    ensures
        rows_source(a + b) == rows_source(a) + rows_source(b),
    decreases b.len(),
{
    if b.len() == 0 {
        assert(a + b =~= a);
    } else {
        rows_source_of_concat(a, b.drop_last());
        assert((a + b).drop_last() =~= a + b.drop_last());
        assert((a + b).last() == b.last());
    }
}

/// In the generated source the rows are drawn in their order: the
/// statements of each row stand after those of all rows before it and before
/// those of all rows after it.
pub proof fn rows_drawn_in_order(rows: Seq<RowView>, i: int)
    requires
        0 <= i < rows.len(),
    ensures
        rows_source(rows) == rows_source(rows.take(i)) + row_source(rows[i]) + rows_source(
            rows.skip(i + 1),
        ),
{
    let head = rows.take(i + 1);
    rows_source_of_concat(head, rows.skip(i + 1));
    assert(head + rows.skip(i + 1) =~= rows);
    assert(head.drop_last() =~= rows.take(i));
    assert(head.last() == rows[i]);
}

/// A field without a documentation line is described by the placeholder.
pub proof fn undocumented_field_gets_placeholder(attrs: Seq<AttributeView>)
    requires
        forall|i: int| 0 <= i < attrs.len() ==> !is_doc(#[trigger] attrs[i]),
    ensures
        doc_lines(attrs).len() == 0,
        description(attrs) == placeholder(),
    decreases attrs.len(),
{
    if attrs.len() > 0 {
        undocumented_field_gets_placeholder(attrs.drop_last());
    }
}

/// Where the documentation lines of a field stand at the positions `at`, in
/// rising order, and nowhere else, the lines read are those entries' texts
/// in that order.
pub proof fn doc_lines_in_source_order(attrs: Seq<AttributeView>, at: Seq<int>)
    requires
        forall|k: int| 0 <= k < at.len() ==> 0 <= #[trigger] at[k] < attrs.len(),
        forall|k: int| 0 <= k < at.len() ==> is_doc(attrs[#[trigger] at[k]]),
        forall|k: int, l: int| 0 <= k < l < at.len() ==> at[k] < at[l],
        forall|i: int| 0 <= i < attrs.len() && is_doc(#[trigger] attrs[i]) ==> at.contains(i),
    ensures
        doc_lines(attrs) == Seq::new(at.len(), |k: int| doc_line(attrs[at[k]])),
    decreases attrs.len(),
{
    let want = Seq::new(at.len(), |k: int| doc_line(attrs[at[k]]));
    if attrs.len() == 0 {
        assert(at.len() == 0) by {
            if at.len() > 0 {
                assert(0 <= at[0] < attrs.len());
            }
        }
        assert(doc_lines(attrs) =~= want);
    } else {
        let rest = attrs.drop_last();
        let n = attrs.len() - 1;
        if is_doc(attrs.last()) {
            assert(at.contains(n));
            let k = choose|k: int| 0 <= k < at.len() && at[k] == n;
            assert(k == at.len() - 1) by {
                if k < at.len() - 1 {
                    assert(at[k] < at[at.len() - 1]);
                    assert(at[at.len() - 1] < attrs.len());
                }
            }
            let before = at.drop_last();
            assert forall|i: int| 0 <= i < rest.len() && is_doc(
                #[trigger] rest[i],
            ) implies before.contains(i) by {
                assert(is_doc(attrs[i]));
                let l = choose|l: int| 0 <= l < at.len() && at[l] == i;
                assert(before[l] == i);
            }
            assert forall|l: int| 0 <= l < before.len() implies 0 <= #[trigger] before[l]
                < rest.len() by {
                assert(at[l] < at[at.len() - 1]);
            }
            doc_lines_in_source_order(rest, before);
            assert(doc_lines(attrs) =~= want);
        } else {
            assert forall|l: int| 0 <= l < at.len() implies 0 <= #[trigger] at[l] < rest.len() by {
                assert(is_doc(attrs[at[l]]));
            }
            assert forall|i: int| 0 <= i < rest.len() && is_doc(
                #[trigger] rest[i],
            ) implies at.contains(i) by {
                assert(is_doc(attrs[i]));
            }
            doc_lines_in_source_order(rest, at);
            assert(doc_lines(attrs) =~= want);
        }
    }
}

/// A field with documentation lines is described by their texts, joined by
/// single spaces in source order.
pub proof fn documented_field_joins_lines(attrs: Seq<AttributeView>, at: Seq<int>)
    requires
        at.len() > 0,
        forall|k: int| 0 <= k < at.len() ==> 0 <= #[trigger] at[k] < attrs.len(),
        forall|k: int| 0 <= k < at.len() ==> is_doc(attrs[#[trigger] at[k]]),
        forall|k: int, l: int| 0 <= k < l < at.len() ==> at[k] < at[l],
        forall|i: int| 0 <= i < attrs.len() && is_doc(#[trigger] attrs[i]) ==> at.contains(i),
    ensures
        description(attrs) == joined(Seq::new(at.len(), |k: int| doc_line(attrs[at[k]]))),
{
    doc_lines_in_source_order(attrs, at);
}

/// Joining two runs of lines, neither empty, puts one space between them.
pub proof fn joined_of_concat(a: Seq<Seq<char>>, b: Seq<Seq<char>>)
    requires
        a.len() > 0,
        b.len() > 0,
    ensures
        joined(a + b) == joined(a) + seq![' '] + joined(b),
    decreases b.len(),
{
    assert((a + b).drop_last() =~= a + b.drop_last());
    assert((a + b).last() == b.last());
    if b.len() == 1 {
        assert(a + b.drop_last() =~= a);
    } else {
        joined_of_concat(a, b.drop_last());
        assert(joined(a + b) =~= joined(a) + seq![' '] + joined(b));
    }
}

} // verus!
