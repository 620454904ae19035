use egui_controls::widget::{names_float, names_integer};
use egui_controls::{
    parse_widgets_from_fields, select_widget, Attribute, Control, Delimiter, DirectiveError,
    ExpandError, Field, Meta, Token, Widget,
};

fn plain_field(name: &str, ty: &str) -> Field {
    Field { name: name.to_string(), ty: ty.to_string(), attrs: Vec::new() }
}

fn directed_field(name: &str, ty: &str, tokens: Vec<Token>) -> Field {
    Field {
        name: name.to_string(),
        ty: ty.to_string(),
        attrs: vec![Attribute { path: vec!["control".to_string()], meta: Meta::List(tokens) }],
    }
}

fn slider(field: &str, range: &str) -> Widget {
    Widget::Slider { field: field.to_string(), range: range.to_string() }
}

#[test]
fn integer_names() {
    for ty in ["u8", "u16", "u32", "u64", "u128", "usize", "i8", "i16", "i32", "i64", "i128", "isize"]
    {
        assert!(names_integer(ty), "{}", ty);
        assert!(!names_float(ty), "{}", ty);
    }
}

#[test]
fn float_names() {
    for ty in ["f32", "f64"] {
        assert!(names_float(ty), "{}", ty);
        assert!(!names_integer(ty), "{}", ty);
    }
}

#[test]
fn other_type_texts_name_no_number() {
    for ty in ["String", "bool", "char", "U8", "u", "u7", "u256", "f16", "f128", "Vec < u8 >",
        "std :: primitive :: u8", "(u8)", "& u8", "[u8 ; 4]", " u8", "u8 ", ""]
    {
        assert!(!names_integer(ty), "{:?}", ty);
        assert!(!names_float(ty), "{:?}", ty);
    }
}

#[test]
fn integer_field_defaults_to_slider_from_0_to_100() {
    for ty in ["u8", "u16", "u32", "u64", "u128", "usize", "i8", "i16", "i32", "i64", "i128", "isize"]
    {
        assert_eq!(select_widget("count", ty, None), slider("count", "0..=100"));
    }
}

#[test]
fn float_field_defaults_to_slider_from_0_to_1() {
    assert_eq!(select_widget("ratio", "f32", None), slider("ratio", "0.0..=1.0"));
    assert_eq!(select_widget("ratio", "f64", None), slider("ratio", "0.0..=1.0"));
}

#[test]
fn other_field_defaults_to_hinted_text_box() {
    for ty in ["String", "bool", "Vec < u8 >", "Option < f64 >"] {
        assert_eq!(
            select_widget("label", ty, None),
            Widget::TextBox { field: "label".to_string(), hinted: true }
        );
    }
}

#[test]
fn directive_goes_before_the_type() {
    assert_eq!(
        select_widget("label", "String", Some(Control::Slider("2 ..= 10".to_string()))),
        slider("label", "2 ..= 10")
    );
    assert_eq!(
        select_widget("count", "u8", Some(Control::Slider("'a' ..= 'z'".to_string()))),
        slider("count", "'a' ..= 'z'")
    );
    assert_eq!(
        select_widget("count", "usize", Some(Control::TextBox)),
        Widget::TextBox { field: "count".to_string(), hinted: false }
    );
    assert_eq!(
        select_widget("label", "String", Some(Control::TextBox)),
        Widget::TextBox { field: "label".to_string(), hinted: false }
    );
}

#[test]
fn slider_expression() {
    assert_eq!(
        slider("alpha", "0.0 ..= 1.0").expression(),
        "::eframe::egui::Slider::new(&mut self.alpha, 0.0 ..= 1.0)"
    );
}

#[test]
fn text_box_expression() {
    assert_eq!(
        Widget::TextBox { field: "gamma".to_string(), hinted: false }.expression(),
        "::eframe::egui::TextEdit::singleline(&mut self.gamma)"
    );
}

#[test]
fn hinted_text_box_expression() {
    assert_eq!(
        Widget::TextBox { field: "gamma".to_string(), hinted: true }.expression(),
        "::eframe::egui::TextEdit::singleline(&mut self.gamma)\
         .hint_text(\"Unsupported type. Will treat it as string.\")"
    );
}

#[test]
fn push_expression_appends() {
    let mut out = String::from("ui.add(");
    slider("n", "0..=100").push_expression(&mut out);
    assert_eq!(out, "ui.add(::eframe::egui::Slider::new(&mut self.n, 0..=100)");
}

#[test]
fn expressions_are_rust_expressions() {
    for widget in [
        slider("alpha", "0.0 ..= 1.0"),
        slider("r#type", "[1, 2][0] ..= 10"),
        Widget::TextBox { field: "gamma".to_string(), hinted: false },
        Widget::TextBox { field: "gamma".to_string(), hinted: true },
    ] {
        let parsed: Result<syn::Expr, syn::Error> = syn::parse_str(&widget.expression());
        assert!(parsed.is_ok(), "{}", widget.expression());
    }
}

#[test]
fn widgets_come_one_per_field_in_order() {
    let fields = vec![
        plain_field("count", "i32"),
        directed_field("label", "String", vec![Token::Ident("textbox".to_string())]),
        plain_field("ratio", "f32"),
        plain_field("items", "Vec < u8 >"),
    ];
    assert_eq!(
        parse_widgets_from_fields(&fields),
        Ok(vec![
            slider("count", "0..=100"),
            Widget::TextBox { field: "label".to_string(), hinted: false },
            slider("ratio", "0.0..=1.0"),
            Widget::TextBox { field: "items".to_string(), hinted: true },
        ])
    );
    assert_eq!(parse_widgets_from_fields(&Vec::new()), Ok(Vec::new()));
}

#[test]
fn first_broken_field_fails_all() {
    let fields = vec![
        plain_field("count", "i32"),
        directed_field("first", "f64", vec![Token::Ident("dial".to_string())]),
        directed_field("second", "f64", vec![Token::Ident("slider".to_string())]),
    ];
    assert_eq!(
        parse_widgets_from_fields(&fields),
        Err(ExpandError::Directive { field: "first".to_string(), error: DirectiveError::Unknown })
    );
}

#[test]
fn slider_keeps_its_range_whatever_the_type() {
    for ty in ["f64", "usize", "String", "Vec < u8 >"] {
        let fields = vec![directed_field(
            "x",
            ty,
            vec![
                Token::Ident("slider".to_string()),
                Token::Group(Delimiter::Parenthesis, "2. ..= 15.0".to_string()),
            ],
        )];
        assert_eq!(parse_widgets_from_fields(&fields), Ok(vec![slider("x", "2. ..= 15.0")]));
    }
}
