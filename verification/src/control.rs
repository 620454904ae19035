//! Control directives: the `#[control(...)]` entry of a field and what it
//! asks for.

use crate::decl::{Attribute, AttributeView, Meta};
use crate::text::text_is;
use crate::token::{Delimiter, Token, TokenView};
use crate::views::views;
use vstd::prelude::*;

verus! {

/// The widget a directive selects.
#[derive(Clone, Debug, PartialEq, Eq)]
pub enum Control {
    /// `slider(range)`: a slider over `range`, kept as written.
    Slider(String),
    /// `textbox`: a single-line text box.
    TextBox,
}

/// What a `Control` holds, as a mathematical value.
pub enum ControlView {
    Slider(Seq<char>),
    TextBox,
}

impl View for Control {
    type V = ControlView;

    open spec fn view(&self) -> ControlView {
        match *self {
            Control::Slider(range) => ControlView::Slider(range@),
            Control::TextBox => ControlView::TextBox,
        }
    }
}

/// Why a directive was not understood.
#[derive(Clone, Copy, Debug, PartialEq, Eq)]
pub enum DirectiveError {
    /// The directive holds no token.
    Empty,
    /// The first token is neither `slider` nor `textbox`.
    Unknown,
    /// `slider` is not followed by a range in parentheses or square brackets.
    MissingRange,
}

/// Whether the entry is a control directive: a token list under the path
/// `control`.
pub open spec fn is_control(a: AttributeView) -> bool {
    a.meta is List && a.path.len() == 1 && a.path[0] == "control"@
}

/// Whether the token can hold a slider's range: a group in parentheses or
/// square brackets.
pub open spec fn is_range_group(t: TokenView) -> bool {
    t matches TokenView::Group(delimiter, _) && (delimiter == Delimiter::Parenthesis || delimiter
        == Delimiter::Bracket)
}

/// What the tokens of a directive ask for.
pub open spec fn directive(tokens: Seq<TokenView>) -> Result<ControlView, DirectiveError> {
    if tokens.len() == 0 {
        Err(DirectiveError::Empty)
    } else if tokens[0] == TokenView::Ident("slider"@) {
        if tokens.len() > 1 && is_range_group(tokens[1]) {
            Ok(ControlView::Slider(tokens[1]->Group_1))
        } else {
            Err(DirectiveError::MissingRange)
        }
    } else if tokens[0] == TokenView::Ident("textbox"@) {
        Ok(ControlView::TextBox)
    } else {
        Err(DirectiveError::Unknown)
    }
}

/// Index of the first control directive at or after `i`, if there is one.
pub open spec fn first_control(attrs: Seq<AttributeView>, i: int) -> Option<int>
    decreases attrs.len() - i,
{
    if i < 0 || i >= attrs.len() {
        None
    } else if is_control(attrs[i]) {
        Some(i)
    } else {
        first_control(attrs, i + 1)
    }
}

/// Whether a field with the metadata `attrs` carries a control directive.
pub open spec fn has_control(attrs: Seq<AttributeView>) -> bool {
    exists|i: int| 0 <= i < attrs.len() && is_control(#[trigger] attrs[i])
}

/// The control that the metadata `attrs` selects: that of the first control
/// directive, `None` where there is no directive.
pub open spec fn control(attrs: Seq<AttributeView>) -> Result<Option<ControlView>, DirectiveError> {
    match first_control(attrs, 0) {
        None => Ok(None),
        Some(k) => match directive(attrs[k].meta->List_0) {
            Ok(c) => Ok(Some(c)),
            Err(e) => Err(e),
        },
    }
}

/// `first_control` finds the least index of a control directive.
pub proof fn first_control_is_least(attrs: Seq<AttributeView>, i: int)
    requires
        0 <= i,
    ensures
        match first_control(attrs, i) {
            Some(k) => i <= k < attrs.len() && is_control(attrs[k]) && forall|j: int|
                i <= j < k ==> !is_control(#[trigger] attrs[j]),
            None => forall|j: int| i <= j < attrs.len() ==> !is_control(#[trigger] attrs[j]),
        },
    decreases attrs.len() - i,
{
    if i < attrs.len() && !is_control(attrs[i]) {
        first_control_is_least(attrs, i + 1);
    }
}

/// Whether the token is the identifier `word`.
pub fn is_ident(token: &Token, word: &str) -> (b: bool)
    ensures
        b == (token@ == TokenView::Ident(word@)),
{
    match token {
        Token::Ident(name) => text_is(name.as_str(), word),
        _ => false,
    }
}

/// Reads the tokens of a control directive.
pub fn parse_directive(tokens: &Vec<Token>) -> (r: Result<Control, DirectiveError>)
    ensures
        match directive(views(tokens@)) {
            Ok(c) => r matches Ok(found) && found@ == c,
            Err(e) => r == Err::<Control, DirectiveError>(e),
        },
{
    if tokens.len() == 0 {
        return Err(DirectiveError::Empty);
    }
    assert(views(tokens@)[0] == tokens@[0]@);
    if is_ident(&tokens[0], "slider") {
        if tokens.len() > 1 {
            assert(views(tokens@)[1] == tokens@[1]@);
            match &tokens[1] {
                Token::Group(Delimiter::Parenthesis, inner) => Ok(Control::Slider(inner.clone())),
                Token::Group(Delimiter::Bracket, inner) => Ok(Control::Slider(inner.clone())),
                _ => Err(DirectiveError::MissingRange),
            }
        } else {
            Err(DirectiveError::MissingRange)
        }
    } else if is_ident(&tokens[0], "textbox") {
        Ok(Control::TextBox)
    } else {
        Err(DirectiveError::Unknown)
    }
}

/// Whether the entry is a control directive.
pub fn is_control_entry(attr: &Attribute) -> (b: bool)
    ensures
        b == is_control(attr@),
{
    match &attr.meta {
        Meta::List(_) => {
            if attr.path.len() == 1 {
                assert(views(attr.path@)[0] == attr.path@[0]@);
                text_is(attr.path[0].as_str(), "control")
            } else {
                false
            }
        },
        _ => false,
    }
}

/// The control that a field's metadata selects, if any.
pub fn parse_control(attrs: &Vec<Attribute>) -> (r: Result<Option<Control>, DirectiveError>)
    ensures
        match control(views(attrs@)) {
            Ok(Some(c)) => r matches Ok(Some(found)) && found@ == c,
            Ok(None) => r == Ok::<Option<Control>, DirectiveError>(None),
            Err(e) => r == Err::<Option<Control>, DirectiveError>(e),
        },
{
    let mut i: usize = 0;
    while i < attrs.len()
        invariant
            i <= attrs.len(),
            first_control(views(attrs@), 0) == first_control(views(attrs@), i as int),
        decreases attrs.len() - i,
    {
        assert(views(attrs@)[i as int] == attrs@[i as int]@);
        if is_control_entry(&attrs[i]) {
            match &attrs[i].meta {
                Meta::List(tokens) => {
                    return match parse_directive(tokens) {
                        Ok(c) => Ok(Some(c)),
                        Err(e) => Err(e),
                    };
                },
                _ => {
                    return Ok(None);
                },
            }
        }
        i += 1;
    }
    Ok(None)
}

} // verus!
