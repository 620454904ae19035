//! Why no panel can be generated for a declaration.

use crate::control::DirectiveError;
use vstd::prelude::*;

verus! {

/// The reason a declaration was rejected.
#[derive(Clone, Debug, PartialEq, Eq)]
pub enum ExpandError {
    /// The declaration is an enum or a union.
    ExpectedStruct,
    /// The struct has positional fields.
    ExpectedNamedFields,
    /// The control directive of the named field was not understood.
    Directive { field: String, error: DirectiveError },
}

/// What an `ExpandError` holds, as a mathematical value.
pub enum ExpandErrorView {
    ExpectedStruct,
    ExpectedNamedFields,
    Directive { field: Seq<char>, error: DirectiveError },
}

impl View for ExpandError {
    type V = ExpandErrorView;

    open spec fn view(&self) -> ExpandErrorView {
        match *self {
            ExpandError::ExpectedStruct => ExpandErrorView::ExpectedStruct,
            ExpandError::ExpectedNamedFields => ExpandErrorView::ExpectedNamedFields,
            ExpandError::Directive { field, error } => ExpandErrorView::Directive {
                field: field@,
                error,
            },
        }
    }
}

/// What was expected where a directive failed.
pub open spec fn expectation(error: DirectiveError) -> Seq<char> {
    match error {
        DirectiveError::Empty => "expected `slider(<range>)` or `textbox`, found an empty directive"@,
        DirectiveError::Unknown => "expected `slider(<range>)` or `textbox`"@,
        DirectiveError::MissingRange => "expected a range in parentheses after `slider`"@,
    }
}

/// The diagnostic for an error. For a directive it names the field and says
/// what was expected.
pub open spec fn message_text(e: ExpandErrorView) -> Seq<char> {
    match e {
        ExpandErrorView::ExpectedStruct => "expected a struct"@,
        ExpandErrorView::ExpectedNamedFields => "expected a struct with named fields"@,
        ExpandErrorView::Directive { field, error } => "field `"@ + field + "`: "@ + expectation(
            error,
        ),
    }
}

impl ExpandError {
    /// The diagnostic to show for this error.
    pub fn message(&self) -> (out: String)
        ensures
            out@ == message_text(self@),
    {
        match self {
            ExpandError::ExpectedStruct => "expected a struct".to_owned(),
            ExpandError::ExpectedNamedFields => "expected a struct with named fields".to_owned(),
            ExpandError::Directive { field, error } => {
                let mut out = "field `".to_owned();
                out.append(field.as_str());
                out.append("`: ");
                match error {
                    DirectiveError::Empty => out.append(
                        "expected `slider(<range>)` or `textbox`, found an empty directive",
                    ),
                    DirectiveError::Unknown => out.append("expected `slider(<range>)` or `textbox`"),
                    DirectiveError::MissingRange => out.append(
                        "expected a range in parentheses after `slider`",
                    ),
                }
                out
            },
        }
    }
}

} // verus!
