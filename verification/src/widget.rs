//! Widget selection: which control a field gets, and the expression that
//! constructs it.

use crate::control::{control, parse_control, Control, ControlView, DirectiveError};
use crate::decl::{Field, FieldView};
use crate::error::{ExpandError, ExpandErrorView};
use crate::text::text_is;
use crate::views::views;
use vstd::prelude::*;

verus! {

/// The control of one field.
#[derive(Clone, Debug, PartialEq, Eq)]
pub enum Widget {
    /// A slider bound to the field, over a range kept as written.
    Slider { field: String, range: String },
    /// A single-line text box bound to the field; `hinted` where it stands in
    /// for a type that has no control of its own.
    TextBox { field: String, hinted: bool },
}

/// What a `Widget` holds, as a mathematical value.
pub enum WidgetView {
    Slider { field: Seq<char>, range: Seq<char> },
    TextBox { field: Seq<char>, hinted: bool },
}

impl View for Widget {
    type V = WidgetView;

    open spec fn view(&self) -> WidgetView {
        match *self {
            Widget::Slider { field, range } => WidgetView::Slider { field: field@, range: range@ },
            Widget::TextBox { field, hinted } => WidgetView::TextBox { field: field@, hinted },
        }
    }
}

/// Whether `ty` names one of the integer types.
pub open spec fn is_integer_type(ty: Seq<char>) -> bool {
    ||| ty == "u8"@
    ||| ty == "u16"@
    ||| ty == "u32"@
    ||| ty == "u64"@
    ||| ty == "u128"@
    ||| ty == "usize"@
    ||| ty == "i8"@
    ||| ty == "i16"@
    ||| ty == "i32"@
    ||| ty == "i64"@
    ||| ty == "i128"@
    ||| ty == "isize"@
}

/// Whether `ty` names one of the floating-point types.
pub open spec fn is_float_type(ty: Seq<char>) -> bool {
    ty == "f32"@ || ty == "f64"@
}

/// The range of the slider that an integer field gets by default.
pub open spec fn integer_range() -> Seq<char> {
    "0..=100"@
}

/// The range of the slider that a floating-point field gets by default.
pub open spec fn float_range() -> Seq<char> {
    "0.0..=1.0"@
}

/// The widget of a field without a control directive, chosen by the text of
/// its declared type.
pub open spec fn default_widget(name: Seq<char>, ty: Seq<char>) -> WidgetView {
    if is_integer_type(ty) {
        WidgetView::Slider { field: name, range: integer_range() }
    } else if is_float_type(ty) {
        WidgetView::Slider { field: name, range: float_range() }
    } else {
        WidgetView::TextBox { field: name, hinted: true }
    }
}

/// The widget of a field: what its directive asks for, or the default for
/// its type where it has none.
pub open spec fn selected_widget(
    name: Seq<char>,
    ty: Seq<char>,
    control: Option<ControlView>,
) -> WidgetView {
    match control {
        Some(ControlView::Slider(range)) => WidgetView::Slider { field: name, range },
        Some(ControlView::TextBox) => WidgetView::TextBox { field: name, hinted: false },
        None => default_widget(name, ty),
    }
}

/// The widget of a field, or why its directive was not understood.
pub open spec fn field_widget(f: FieldView) -> Result<WidgetView, DirectiveError> {
    match control(f.attrs) {
        Ok(c) => Ok(selected_widget(f.name, f.ty, c)),
        Err(e) => Err(e),
    }
}

/// Index of the first field at or after `i` whose directive is not
/// understood, if there is one.
pub open spec fn first_bad_field(fields: Seq<FieldView>, i: int) -> Option<int>
    decreases fields.len() - i,
{
    if i < 0 || i >= fields.len() {
        None
    } else if field_widget(fields[i]) is Err {
        Some(i)
    } else {
        first_bad_field(fields, i + 1)
    }
}

/// The widgets of the fields in declaration order, or the error of the first
/// field whose directive is not understood.
pub open spec fn widgets(fields: Seq<FieldView>) -> Result<Seq<WidgetView>, ExpandErrorView> {
    match first_bad_field(fields, 0) {
        Some(k) => Err(
            ExpandErrorView::Directive {
                field: fields[k].name,
                error: field_widget(fields[k])->Err_0,
            },
        ),
        None => Ok(Seq::new(fields.len(), |i: int| field_widget(fields[i])->Ok_0)),
    }
}

/// The expression that constructs the widget, bound to the field of `self`.
pub open spec fn expression(w: WidgetView) -> Seq<char> {
    match w {
        WidgetView::Slider { field, range } => "::eframe::egui::Slider::new(&mut self."@ + field
            + ", "@ + range + ")"@,
        WidgetView::TextBox { field, hinted } => "::eframe::egui::TextEdit::singleline(&mut self."@
            + field + ")"@ + if hinted {
            ".hint_text(\"Unsupported type. Will treat it as string.\")"@
        } else {
            Seq::empty()
        },
    }
}

/// `first_bad_field` finds the least index of a field that fails.
pub proof fn first_bad_field_is_least(fields: Seq<FieldView>, i: int)
    requires
        0 <= i,
    ensures
        match first_bad_field(fields, i) {
            Some(k) => i <= k < fields.len() && field_widget(fields[k]) is Err && forall|j: int|
                i <= j < k ==> (#[trigger] field_widget(fields[j])) is Ok,
            None => forall|j: int|
                i <= j < fields.len() ==> (#[trigger] field_widget(fields[j])) is Ok,
        },
    decreases fields.len() - i,
{
    if i < fields.len() && field_widget(fields[i]) is Ok {
        first_bad_field_is_least(fields, i + 1);
    }
}

/// Whether `ty` names one of the integer types.
pub fn names_integer(ty: &str) -> (b: bool)
    ensures
        b == is_integer_type(ty@),
{
    text_is(ty, "u8") || text_is(ty, "u16") || text_is(ty, "u32") || text_is(ty, "u64") || text_is(
        ty,
        "u128",
    ) || text_is(ty, "usize") || text_is(ty, "i8") || text_is(ty, "i16") || text_is(ty, "i32")
        || text_is(ty, "i64") || text_is(ty, "i128") || text_is(ty, "isize")
}

/// Whether `ty` names one of the floating-point types.
pub fn names_float(ty: &str) -> (b: bool)
    ensures
        b == is_float_type(ty@),
{
    text_is(ty, "f32") || text_is(ty, "f64")
}

/// Chooses the widget of a field from its name, the text of its declared
/// type, and its control directive if it has one.
pub fn select_widget(name: &str, ty: &str, control: Option<Control>) -> (w: Widget)
    ensures
        w@ == selected_widget(
            name@,
            ty@,
            match control {
                Some(c) => Some(c@),
                None => None,
            },
        ),
{
    match control {
        Some(Control::Slider(range)) => Widget::Slider { field: name.to_owned(), range },
        Some(Control::TextBox) => Widget::TextBox { field: name.to_owned(), hinted: false },
        None => {
            if names_integer(ty) {
                Widget::Slider { field: name.to_owned(), range: "0..=100".to_owned() }
            } else if names_float(ty) {
                Widget::Slider { field: name.to_owned(), range: "0.0..=1.0".to_owned() }
            } else {
                Widget::TextBox { field: name.to_owned(), hinted: true }
            }
        },
    }
}

impl Widget {
    /// Appends the expression that constructs this widget.
    pub fn push_expression(&self, out: &mut String)
        ensures
            final(out)@ == old(out)@ + expression(self@),
    {
        match self {
            Widget::Slider { field, range } => {
                out.append("::eframe::egui::Slider::new(&mut self.");
                out.append(field.as_str());
                out.append(", ");
                out.append(range.as_str());
                out.append(")");
                assert(out@ == old(out)@ + expression(self@));
            },
            Widget::TextBox { field, hinted } => {
                out.append("::eframe::egui::TextEdit::singleline(&mut self.");
                out.append(field.as_str());
                out.append(")");
                if *hinted {
                    out.append(".hint_text(\"Unsupported type. Will treat it as string.\")");
                }
                assert(out@ == old(out)@ + expression(self@));
            },
        }
    }

    /// The expression that constructs this widget.
    pub fn expression(&self) -> (out: String)
        ensures
            out@ == expression(self@),
    {
        let mut out = String::new();
        self.push_expression(&mut out);
        assert(out@ == expression(self@));
        out
    }
}

/// The widget of each field, in declaration order. Fails with the error of
/// the first field whose control directive is not understood.
pub fn parse_widgets_from_fields(fields: &Vec<Field>) -> (r: Result<Vec<Widget>, ExpandError>)
    ensures
        match widgets(views(fields@)) {
            Ok(ws) => r matches Ok(found) && views(found@) == ws,
            Err(e) => r matches Err(found) && found@ == e,
        },
{
    let mut out: Vec<Widget> = Vec::new();
    let mut i: usize = 0;
    while i < fields.len()
        invariant
            i <= fields.len(),
            out.len() == i,
            first_bad_field(views(fields@), 0) == first_bad_field(views(fields@), i as int),
            forall|j: int|
                0 <= j < i ==> field_widget(fields@[j]@) == Ok::<WidgetView, DirectiveError>(
                    (#[trigger] out@[j])@,
                ),
        decreases fields.len() - i,
    {
        assert(views(fields@)[i as int] == fields@[i as int]@);
        let field = &fields[i];
        match parse_control(&field.attrs) {
            Ok(c) => {
                let w = select_widget(field.name.as_str(), field.ty.as_str(), c);
                out.push(w);
            },
            Err(error) => {
                return Err(ExpandError::Directive { field: field.name.clone(), error });
            },
        }
        i += 1;
    }
    assert(views(out@) =~= widgets(views(fields@))->Ok_0);
    Ok(out)
}

} // verus!
