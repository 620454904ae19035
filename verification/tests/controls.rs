use egui_controls::control::{is_control_entry, is_ident};
use egui_controls::{
    parse_control, parse_directive, Attribute, Control, Delimiter, DirectiveError, Meta, Token,
};

fn ident(name: &str) -> Token {
    Token::Ident(name.to_string())
}

fn group(delimiter: Delimiter, inner: &str) -> Token {
    Token::Group(delimiter, inner.to_string())
}

fn control_entry(tokens: Vec<Token>) -> Attribute {
    Attribute { path: vec!["control".to_string()], meta: Meta::List(tokens) }
}

#[test]
fn slider_with_range_in_parentheses() {
    let tokens = vec![ident("slider"), group(Delimiter::Parenthesis, "0.0 ..= 1.0")];
    assert_eq!(parse_directive(&tokens), Ok(Control::Slider("0.0 ..= 1.0".to_string())));
}

#[test]
fn slider_with_range_in_square_brackets() {
    let tokens = vec![ident("slider"), group(Delimiter::Bracket, "2 ..= 10")];
    assert_eq!(parse_directive(&tokens), Ok(Control::Slider("2 ..= 10".to_string())));
}

#[test]
fn slider_range_is_not_looked_into() {
    let tokens = vec![ident("slider"), group(Delimiter::Parenthesis, "min = 0, max = 10")];
    assert_eq!(parse_directive(&tokens), Ok(Control::Slider("min = 0, max = 10".to_string())));
    let tokens = vec![ident("slider"), group(Delimiter::Parenthesis, "")];
    assert_eq!(parse_directive(&tokens), Ok(Control::Slider(String::new())));
}

#[test]
fn slider_without_range_is_an_error() {
    assert_eq!(parse_directive(&vec![ident("slider")]), Err(DirectiveError::MissingRange));
}

#[test]
fn slider_followed_by_something_else_is_an_error() {
    for next in [
        ident("range"),
        Token::Punct('='),
        Token::Literal("10".to_string()),
        group(Delimiter::Brace, "0 ..= 1"),
        group(Delimiter::Invisible, "0 ..= 1"),
    ] {
        assert_eq!(
            parse_directive(&vec![ident("slider"), next]),
            Err(DirectiveError::MissingRange)
        );
    }
}

#[test]
fn textbox_needs_nothing_more() {
    assert_eq!(parse_directive(&vec![ident("textbox")]), Ok(Control::TextBox));
}

#[test]
fn tokens_after_a_complete_directive_are_ignored() {
    let tokens = vec![ident("textbox"), Token::Punct(','), ident("wide")];
    assert_eq!(parse_directive(&tokens), Ok(Control::TextBox));
    let tokens =
        vec![ident("slider"), group(Delimiter::Parenthesis, "0 ..= 5"), Token::Punct(',')];
    assert_eq!(parse_directive(&tokens), Ok(Control::Slider("0 ..= 5".to_string())));
}

#[test]
fn empty_directive_is_an_error() {
    assert_eq!(parse_directive(&Vec::new()), Err(DirectiveError::Empty));
}

#[test]
fn unknown_leading_token_is_an_error() {
    for first in [
        ident("checkbox"),
        ident("Slider"),
        Token::Punct('#'),
        Token::Literal("\"slider\"".to_string()),
        group(Delimiter::Parenthesis, "slider"),
    ] {
        assert_eq!(parse_directive(&vec![first]), Err(DirectiveError::Unknown));
    }
}

#[test]
fn is_ident_reads_identifiers_only() {
    assert!(is_ident(&ident("slider"), "slider"));
    assert!(!is_ident(&ident("slider"), "textbox"));
    assert!(!is_ident(&Token::Literal("slider".to_string()), "slider"));
    assert!(!is_ident(&group(Delimiter::Parenthesis, "slider"), "slider"));
}

#[test]
fn control_entry_is_a_list_under_the_path_control() {
    assert!(is_control_entry(&control_entry(Vec::new())));
    assert!(!is_control_entry(&Attribute { path: vec!["control".to_string()], meta: Meta::Word }));
    assert!(!is_control_entry(&Attribute {
        path: vec!["control".to_string()],
        meta: Meta::Text("\"slider\"".to_string())
    }));
    assert!(!is_control_entry(&Attribute { path: vec!["control".to_string()], meta: Meta::Value }));
    assert!(!is_control_entry(&Attribute {
        path: vec!["egui".to_string(), "control".to_string()],
        meta: Meta::List(vec![ident("textbox")])
    }));
    assert!(!is_control_entry(&Attribute {
        path: vec!["controls".to_string()],
        meta: Meta::List(vec![ident("textbox")])
    }));
    assert!(!is_control_entry(&Attribute { path: Vec::new(), meta: Meta::List(Vec::new()) }));
}

#[test]
fn field_without_directive_has_no_control() {
    assert_eq!(parse_control(&Vec::new()), Ok(None));
    let attrs = vec![
        Attribute { path: vec!["doc".to_string()], meta: Meta::Text("\" text\"".to_string()) },
        Attribute { path: vec!["control".to_string()], meta: Meta::Word },
        Attribute { path: vec!["serde".to_string()], meta: Meta::List(vec![ident("skip")]) },
    ];
    assert_eq!(parse_control(&attrs), Ok(None));
}

#[test]
fn directive_is_found_among_other_entries() {
    let attrs = vec![
        Attribute { path: vec!["doc".to_string()], meta: Meta::Text("\" text\"".to_string()) },
        control_entry(vec![ident("slider"), group(Delimiter::Parenthesis, "2 ..= 10")]),
    ];
    assert_eq!(parse_control(&attrs), Ok(Some(Control::Slider("2 ..= 10".to_string()))));
}

#[test]
fn first_directive_decides() {
    let attrs = vec![
        control_entry(vec![ident("textbox")]),
        control_entry(vec![ident("slider"), group(Delimiter::Parenthesis, "0 ..= 1")]),
    ];
    assert_eq!(parse_control(&attrs), Ok(Some(Control::TextBox)));
    let attrs = vec![control_entry(vec![ident("slider")]), control_entry(vec![ident("textbox")])];
    assert_eq!(parse_control(&attrs), Err(DirectiveError::MissingRange));
    let attrs = vec![control_entry(vec![ident("textbox")]), control_entry(vec![ident("nonsense")])];
    assert_eq!(parse_control(&attrs), Ok(Some(Control::TextBox)));
}

#[test]
fn broken_directive_is_reported() {
    assert_eq!(parse_control(&vec![control_entry(Vec::new())]), Err(DirectiveError::Empty));
    assert_eq!(
        parse_control(&vec![control_entry(vec![ident("dial")])]),
        Err(DirectiveError::Unknown)
    );
}
