//! The panel: one row per field, and the source of the method that draws it.

use crate::decl::{Data, DataView, DeriveInput, DeriveInputView, Field, FieldView};
use crate::doc::{descriptions, parse_doc_comments_from_fields};
use crate::error::{ExpandError, ExpandErrorView};
use crate::text::{push_string_literal, string_literal};
use crate::views::{views, views_of_one_more};
use crate::widget::{expression, parse_widgets_from_fields, widgets, Widget, WidgetView};
use vstd::prelude::*;

verus! {

/// One row of the panel: the field's name, its control, its description.
#[derive(Clone, Debug, PartialEq, Eq)]
pub struct Row {
    pub name: String,
    pub widget: Widget,
    pub description: String,
}

/// What a `Row` holds, as a mathematical value.
pub struct RowView {
    pub name: Seq<char>,
    pub widget: WidgetView,
    pub description: Seq<char>,
}

impl View for Row {
    type V = RowView;

    open spec fn view(&self) -> RowView {
        RowView { name: self.name@, widget: self.widget@, description: self.description@ }
    }
}

/// The panel of one struct.
#[derive(Clone, Debug, PartialEq, Eq)]
pub struct Panel {
    /// The name of the struct that the method is attached to.
    pub name: String,
    /// The identifier of the grid that lays the rows out.
    pub grid_id: String,
    /// The rows, in the order in which they are drawn.
    pub rows: Vec<Row>,
}

/// What a `Panel` holds, as a mathematical value.
pub struct PanelView {
    pub name: Seq<char>,
    pub grid_id: Seq<char>,
    pub rows: Seq<RowView>,
}

impl View for Panel {
    type V = PanelView;

    open spec fn view(&self) -> PanelView {
        PanelView { name: self.name@, grid_id: self.grid_id@, rows: views(self.rows@) }
    }
}

/// The identifier of the grid for the struct `name`.
pub open spec fn grid_id(name: Seq<char>) -> Seq<char> {
    name + "__control-panel"@
}

/// The fields that rows are made for: those of a struct with named fields,
/// none for a struct without a field list. Other declarations are rejected.
pub open spec fn named_fields(data: DataView) -> Result<Seq<FieldView>, ExpandErrorView> {
    match data {
        DataView::Struct(fields) => Ok(fields),
        DataView::Unit => Ok(Seq::empty()),
        DataView::Tuple => Err(ExpandErrorView::ExpectedNamedFields),
        DataView::Enum => Err(ExpandErrorView::ExpectedStruct),
        DataView::Union => Err(ExpandErrorView::ExpectedStruct),
    }
}

/// The row of the field at each position, from the fields' names, their
/// widgets and their descriptions.
pub open spec fn zipped(
    fields: Seq<FieldView>,
    widgets: Seq<WidgetView>,
    descriptions: Seq<Seq<char>>,
) -> Seq<RowView> {
    Seq::new(
        fields.len(),
        |i: int| RowView { name: fields[i].name, widget: widgets[i], description: descriptions[i] },
    )
}

/// One row per field, in declaration order, or the error of the first field
/// whose control directive is not understood.
pub open spec fn rows(fields: Seq<FieldView>) -> Result<Seq<RowView>, ExpandErrorView> {
    match widgets(fields) {
        Ok(ws) => Ok(zipped(fields, ws, descriptions(fields))),
        Err(e) => Err(e),
    }
}

/// The panel of a declaration, or why it has none.
pub open spec fn panel(input: DeriveInputView) -> Result<PanelView, ExpandErrorView> {
    match named_fields(input.data) {
        Err(e) => Err(e),
        Ok(fields) => match rows(fields) {
            Err(e) => Err(e),
            Ok(rs) => Ok(PanelView { name: input.name, grid_id: grid_id(input.name), rows: rs }),
        },
    }
}

/// The statements that draw one row: the name, the widget, the description,
/// then the step to the next row.
pub open spec fn row_source(r: RowView) -> Seq<char> {
    "                {\n                    ui.label("@ + string_literal(r.name)
        + ");\n                    ui.add("@ + expression(r.widget)
        + ");\n                    ui.vertical(|ui| {\n                        ui.label("@
        + string_literal(r.description)
        + ");\n                    });\n                    ui.end_row();\n                }\n"@
}

/// The statements that draw the rows, one after the other.
pub open spec fn rows_source(rows: Seq<RowView>) -> Seq<char>
    decreases rows.len(),
{
    if rows.len() == 0 {
        Seq::empty()
    } else {
        rows_source(rows.drop_last()) + row_source(rows.last())
    }
}

/// The source of the method that draws the panel: a grid of three columns
/// under the panel's identifier, a header row, then the rows in order. The
/// method hands back the response of the grid.
pub open spec fn source(p: PanelView) -> Seq<char> {
    "impl "@ + p.name
        + " {\n    pub fn ui(&mut self, ui: &mut ::eframe::egui::Ui) -> ::eframe::egui::Response {\n        ::eframe::egui::Grid::new("@
        + string_literal(p.grid_id)
        + ")\n            .num_columns(3)\n            .spacing([40.0, 20.0])\n            .striped(true)\n            .show(ui, |ui| {\n                ui.heading(\"Setting\");\n                ui.heading(\"Value\");\n                ui.heading(\"Description\");\n                ui.end_row();\n"@
        + rows_source(p.rows) + "            })\n            .response\n    }\n}\n"@
}

/// The source generated for a declaration, or why there is none.
pub open spec fn expansion(input: DeriveInputView) -> Result<Seq<char>, ExpandErrorView> {
    match panel(input) {
        Ok(p) => Ok(source(p)),
        Err(e) => Err(e),
    }
}

impl Row {
    /// Appends the statements that draw this row.
    pub fn push_source(&self, out: &mut String)
        ensures
            final(out)@ == old(out)@ + row_source(self@),
    {
        out.append("                {\n                    ui.label(");
        push_string_literal(out, self.name.as_str());
        out.append(");\n                    ui.add(");
        self.widget.push_expression(out);
        out.append(
            ");\n                    ui.vertical(|ui| {\n                        ui.label(",
        );
        push_string_literal(out, self.description.as_str());
        out.append(
            ");\n                    });\n                    ui.end_row();\n                }\n",
        );
        assert(out@ == old(out)@ + row_source(self@));
    }
}

impl Panel {
    /// The source of the method that draws this panel.
    pub fn source(&self) -> (out: String)
        ensures
            out@ == source(self@),
    {
        let mut out = "impl ".to_owned();
        out.append(self.name.as_str());
        out.append(
            " {\n    pub fn ui(&mut self, ui: &mut ::eframe::egui::Ui) -> ::eframe::egui::Response {\n        ::eframe::egui::Grid::new(",
        );
        push_string_literal(&mut out, self.grid_id.as_str());
        out.append(
            ")\n            .num_columns(3)\n            .spacing([40.0, 20.0])\n            .striped(true)\n            .show(ui, |ui| {\n                ui.heading(\"Setting\");\n                ui.heading(\"Value\");\n                ui.heading(\"Description\");\n                ui.end_row();\n",
        );
        let ghost head = out@;
        let mut i: usize = 0;
        while i < self.rows.len()
            invariant
                i <= self.rows.len(),
                out@ == head + rows_source(views(self.rows@.take(i as int))),
            decreases self.rows.len() - i,
        {
            proof {
                views_of_one_more(self.rows@, i as int);
            }
            self.rows[i].push_source(&mut out);
            i += 1;
        }
        assert(self.rows@.take(self.rows.len() as int) == self.rows@);
        out.append("            })\n            .response\n    }\n}\n");
        assert(out@ == source(self@));
        out
    }
}

/// The identifier of the grid for the struct `name`: the name followed by
/// `__control-panel`.
pub fn grid_id_for(name: &str) -> (id: String)
    ensures
        id@ == grid_id(name@),
{
    let mut id = name.to_owned();
    id.append("__control-panel");
    id
}

/// Puts the rows together from the fields' names, their widgets and their
/// descriptions, position by position.
fn zip_rows(fields: &Vec<Field>, widgets: Vec<Widget>, descriptions: &Vec<String>) -> (out: Vec<
    Row,
>)
    requires
        widgets.len() == fields.len(),
        descriptions.len() == fields.len(),
    ensures
        views(out@) == zipped(views(fields@), views(widgets@), views(descriptions@)),
{
    let mut out: Vec<Row> = Vec::new();
    let ghost all = widgets@;
    for widget in it: widgets
        invariant
            it.seq() == all,
            all.len() == fields.len(),
            descriptions.len() == fields.len(),
            out.len() == it.index(),
            forall|j: int|
                0 <= j < it.index() ==> (#[trigger] out@[j])@ == (RowView {
                    name: fields@[j].name@,
                    widget: all[j]@,
                    description: descriptions@[j]@,
                }),
    {
        let i: usize = out.len();
        out.push(
            Row { name: fields[i].name.clone(), widget, description: descriptions[i].clone() },
        );
    }
    assert(views(out@) =~= zipped(views(fields@), views(all), views(descriptions@)));
    out
}

/// The panel of a declaration: one row per field, in declaration order.
///
/// Enums and unions are rejected, and so are structs with positional fields;
/// a struct without a field list has no rows. A field whose control directive
/// is not understood fails the whole declaration, with the error of the first
/// such field.
pub fn assemble(input: &DeriveInput) -> (r: Result<Panel, ExpandError>)
    ensures
        match panel(input@) {
            Ok(p) => r matches Ok(found) && found@ == p,
            Err(e) => r matches Err(found) && found@ == e,
        },
{
    let none: Vec<Field> = Vec::new();
    let fields: &Vec<Field> = match &input.data {
        Data::Struct(fields) => fields,
        Data::Unit => &none,
        Data::Tuple => {
            return Err(ExpandError::ExpectedNamedFields);
        },
        Data::Enum => {
            return Err(ExpandError::ExpectedStruct);
        },
        Data::Union => {
            return Err(ExpandError::ExpectedStruct);
        },
    };
    assert(named_fields(input@.data) == Ok::<Seq<FieldView>, ExpandErrorView>(views(fields@))) by {
        assert(views(none@) =~= Seq::<FieldView>::empty());
    }
    let descriptions = parse_doc_comments_from_fields(fields);
    match parse_widgets_from_fields(fields) {
        Err(e) => Err(e),
        Ok(widgets) => {
            assert(views(widgets@).len() == fields.len());
            assert(views(descriptions@).len() == fields.len());
            let rows = zip_rows(fields, widgets, &descriptions);
            Ok(Panel { name: input.name.clone(), grid_id: grid_id_for(input.name.as_str()), rows })
        },
    }
}

/// The source of the method that draws the panel of a declaration.
pub fn expand(input: &DeriveInput) -> (r: Result<String, ExpandError>)
    ensures
        match expansion(input@) {
            Ok(text) => r matches Ok(found) && found@ == text,
            Err(e) => r matches Err(found) && found@ == e,
        },
{
    match assemble(input) {
        Ok(p) => Ok(p.source()),
        Err(e) => Err(e),
    }
}

} // verus!
