//! Generation of an egui control panel from an annotated struct declaration.
//!
//! A declaration names a struct and lists its fields; each field carries its
//! documentation lines and at most one meaningful `#[control(...)]`
//! directive. [`expand`] turns a declaration into the source of a method
//! `ui` that draws one row per field: the field's name, a control bound to
//! the field, and the field's description.

pub mod control;
pub mod decl;
pub mod doc;
pub mod error;
pub mod laws;
pub mod panel;
pub mod text;
pub mod text_laws;
pub mod token;
pub mod views;
pub mod widget;

pub use crate::control::{parse_control, parse_directive, Control, DirectiveError};
pub use crate::decl::{Attribute, Data, DeriveInput, Field, Meta};
pub use crate::doc::{describe, parse_doc_comments_from_fields};
pub use crate::error::ExpandError;
pub use crate::panel::{assemble, expand, Panel, Row};
pub use crate::token::{Delimiter, Token};
pub use crate::widget::{parse_widgets_from_fields, select_widget, Widget};
