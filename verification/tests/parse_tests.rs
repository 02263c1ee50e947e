use errgo::data::FieldWithValueNamed;
use errgo::data::FieldWithValueUnnamed;
use errgo::data::MultipleFieldsWithValueNamed;
use errgo::data::MultipleFieldsWithValues;
use errgo::data::MultipleFieldsWithValuesUnnamed;
use errgo::data::VariantWithValue;
use errgo::data::path;
use errgo::token::Delim;
use errgo::token::Tok;
use errgo::token::ident;

fn pt_lit(s: &str) -> Tok {
    Tok::Lit(s.to_string())
}

#[test]
fn parse_unit_variant() {
    let toks = vec![ident("Foo")];
    let v = VariantWithValue::parse(&toks).expect("couldn't parse tokens");
    assert_eq!(
        v,
        VariantWithValue {
            attrs: vec![],
            ident: "Foo".to_string(),
            fields: MultipleFieldsWithValues::Unit,
            discriminant: None,
        }
    );
}

#[test]
fn parse_unit_variant_with_discriminant() {
    let toks = vec![ident("Foo"), Tok::Punct('='), pt_lit("1")];
    let v = VariantWithValue::parse(&toks).expect("couldn't parse tokens");
    assert_eq!(
        v,
        VariantWithValue {
            attrs: vec![],
            ident: "Foo".to_string(),
            fields: MultipleFieldsWithValues::Unit,
            discriminant: Some(vec![pt_lit("1")]),
        }
    );
}

#[test]
fn parse_named_variant() {
    let toks = vec![
        ident("Foo"),
        Tok::Open(Delim::Brace),
        ident("bar"),
        Tok::Punct(':'),
        ident("usize"),
        Tok::Punct('='),
        pt_lit("1"),
        Tok::Close(Delim::Brace),
    ];
    let v = VariantWithValue::parse(&toks).expect("couldn't parse tokens");
    assert_eq!(
        v,
        VariantWithValue {
            attrs: vec![],
            ident: "Foo".to_string(),
            fields: MultipleFieldsWithValues::Named(MultipleFieldsWithValueNamed {
                fields: vec![FieldWithValueNamed {
                    attrs: vec![],
                    ident: "bar".to_string(),
                    ty: vec![ident("usize")],
                    expr: vec![pt_lit("1")],
                }],
            }),
            discriminant: None,
        }
    );
}

#[test]
fn parse_unnamed_variant() {
    let toks = vec![
        ident("Foo"),
        Tok::Open(Delim::Paren),
        ident("usize"),
        Tok::Punct('='),
        pt_lit("1"),
        Tok::Close(Delim::Paren),
    ];
    let v = VariantWithValue::parse(&toks).expect("couldn't parse tokens");
    assert_eq!(
        v,
        VariantWithValue {
            attrs: vec![],
            ident: "Foo".to_string(),
            fields: MultipleFieldsWithValues::Unnamed(MultipleFieldsWithValuesUnnamed {
                fields: vec![FieldWithValueUnnamed {
                    attrs: vec![],
                    ty: vec![ident("usize")],
                    expr: vec![pt_lit("1")],
                }],
            }),
            discriminant: None,
        }
    );
}

#[test]
fn use_unit_variant() {
    let toks = vec![ident("Foo")];
    let v = VariantWithValue::parse(&toks).expect("invalid call_site");
    assert_eq!(v.into_syn_expr_with_prefix(&path(vec![])), vec![ident("Foo")]);
    assert_eq!(v.into_syn_variant(), vec![ident("Foo")]);
}

#[test]
fn use_named_variant() {
    let toks = vec![
        ident("Foo"),
        Tok::Open(Delim::Brace),
        ident("bar"),
        Tok::Punct(':'),
        ident("usize"),
        Tok::Punct('='),
        pt_lit("1"),
        Tok::Punct(','),
        ident("baz"),
        Tok::Punct(':'),
        ident("char"),
        Tok::Punct('='),
        pt_lit("'a'"),
        Tok::Close(Delim::Brace),
    ];
    let v = VariantWithValue::parse(&toks).expect("invalid call_site");
    assert_eq!(
        v.into_syn_expr_with_prefix(&path(vec![])),
        vec![
            ident("Foo"),
            Tok::Open(Delim::Brace),
            ident("bar"),
            Tok::Punct(':'),
            pt_lit("1"),
            Tok::Punct(','),
            ident("baz"),
            Tok::Punct(':'),
            pt_lit("'a'"),
            Tok::Close(Delim::Brace),
        ]
    );
    assert_eq!(
        v.into_syn_variant(),
        vec![
            ident("Foo"),
            Tok::Open(Delim::Brace),
            ident("bar"),
            Tok::Punct(':'),
            ident("usize"),
            Tok::Punct(','),
            ident("baz"),
            Tok::Punct(':'),
            ident("char"),
            Tok::Close(Delim::Brace),
        ]
    );
}

#[test]
fn use_unnamed_variant() {
    let toks = vec![
        ident("Foo"),
        Tok::Open(Delim::Paren),
        ident("usize"),
        Tok::Punct('='),
        pt_lit("1"),
        Tok::Punct(','),
        ident("char"),
        Tok::Punct('='),
        pt_lit("'a'"),
        Tok::Close(Delim::Paren),
    ];
    let v = VariantWithValue::parse(&toks).expect("invalid call_site");
    assert_eq!(
        v.into_syn_expr_with_prefix(&path(vec![])),
        vec![
            ident("Foo"),
            Tok::Open(Delim::Paren),
            pt_lit("1"),
            Tok::Punct(','),
            pt_lit("'a'"),
            Tok::Close(Delim::Paren),
        ]
    );
    assert_eq!(
        v.into_syn_variant(),
        vec![
            ident("Foo"),
            Tok::Open(Delim::Paren),
            ident("usize"),
            Tok::Punct(','),
            ident("char"),
            Tok::Close(Delim::Paren),
        ]
    );
}

#[test]
fn parse_named_variant_with_metadata() {
    let toks = vec![
        Tok::Punct('#'),
        Tok::Open(Delim::Bracket),
        ident("default"),
        Tok::Close(Delim::Bracket),
        ident("Unit"),
    ];
    let v = VariantWithValue::parse(&toks).expect("couldn't parse tokens");
    assert_eq!(
        v,
        VariantWithValue {
            attrs: vec![
                Tok::Punct('#'),
                Tok::Open(Delim::Bracket),
                ident("default"),
                Tok::Close(Delim::Bracket),
            ],
            ident: "Unit".to_string(),
            fields: MultipleFieldsWithValues::Unit,
            discriminant: None,
        }
    );
}

#[test]
fn parse_empty_named_list_stays_named() {
    let toks = vec![ident("Foo"), Tok::Open(Delim::Brace), Tok::Close(Delim::Brace)];
    let v = VariantWithValue::parse(&toks).expect("couldn't parse tokens");
    assert_eq!(
        v.fields,
        MultipleFieldsWithValues::Named(MultipleFieldsWithValueNamed { fields: vec![] })
    );
    // The degenerate empty list is not coerced into the unit shape.
    assert_eq!(
        v.into_syn_variant(),
        vec![ident("Foo"), Tok::Open(Delim::Brace), Tok::Close(Delim::Brace)]
    );
}

#[test]
fn parse_discriminant_after_fields_is_permitted() {
    let toks = vec![
        ident("Foo"),
        Tok::Open(Delim::Paren),
        ident("usize"),
        Tok::Punct('='),
        pt_lit("1"),
        Tok::Close(Delim::Paren),
        Tok::Punct('='),
        pt_lit("7"),
    ];
    let v = VariantWithValue::parse(&toks).expect("couldn't parse tokens");
    assert_eq!(v.discriminant, Some(vec![pt_lit("7")]));
}

#[test]
fn parse_trailing_comma_permitted() {
    let toks = vec![
        ident("Foo"),
        Tok::Open(Delim::Brace),
        ident("bar"),
        Tok::Punct(':'),
        ident("usize"),
        Tok::Punct('='),
        pt_lit("1"),
        Tok::Punct(','),
        Tok::Close(Delim::Brace),
    ];
    let v = VariantWithValue::parse(&toks).expect("couldn't parse tokens");
    match v.fields {
        MultipleFieldsWithValues::Named(n) => assert_eq!(n.fields.len(), 1),
        _ => panic!("expected named fields"),
    }
}

#[test]
fn parse_missing_name_is_error() {
    let toks = vec![Tok::Open(Delim::Brace), Tok::Close(Delim::Brace)];
    assert!(VariantWithValue::parse(&toks).is_err());
    assert!(VariantWithValue::parse(&vec![]).is_err());
}

#[test]
fn parse_unbalanced_field_list_is_error() {
    let toks = vec![ident("Foo"), Tok::Open(Delim::Brace)];
    assert!(VariantWithValue::parse(&toks).is_err());
}

#[test]
fn parse_missing_discriminant_expression_is_error() {
    let toks = vec![ident("Foo"), Tok::Punct('=')];
    assert!(VariantWithValue::parse(&toks).is_err());
}

#[test]
fn parse_missing_field_value_is_error() {
    let toks = vec![
        ident("Foo"),
        Tok::Open(Delim::Brace),
        ident("bar"),
        Tok::Punct(':'),
        ident("usize"),
        Tok::Punct('='),
        Tok::Close(Delim::Brace),
    ];
    assert!(VariantWithValue::parse(&toks).is_err());
}

#[test]
fn parse_trailing_tokens_are_error() {
    let toks = vec![ident("Foo"), ident("Bar")];
    assert!(VariantWithValue::parse(&toks).is_err());
}

#[test]
fn parse_generic_field_type_keeps_commas() {
    // map: HashMap<K, V> = m — the comma inside the angle brackets does
    // not end the entry.
    let toks = vec![
        ident("Foo"),
        Tok::Open(Delim::Brace),
        ident("map"),
        Tok::Punct(':'),
        ident("HashMap"),
        Tok::Punct('<'),
        ident("K"),
        Tok::Punct(','),
        ident("V"),
        Tok::Punct('>'),
        Tok::Punct('='),
        ident("m"),
        Tok::Close(Delim::Brace),
    ];
    let v = VariantWithValue::parse(&toks).expect("couldn't parse tokens");
    match v.fields {
        MultipleFieldsWithValues::Named(n) => {
            assert_eq!(n.fields.len(), 1);
            assert_eq!(
                n.fields[0].ty,
                vec![
                    ident("HashMap"),
                    Tok::Punct('<'),
                    ident("K"),
                    Tok::Punct(','),
                    ident("V"),
                    Tok::Punct('>'),
                ]
            );
            assert_eq!(n.fields[0].expr, vec![ident("m")]);
        },
        _ => panic!("expected named fields"),
    }
}
