use errgo::data::VariantWithValue;
use errgo::token::Delim;
use errgo::token::Tok;
use errgo::token::ident;
use errgo::walker::ErrAsYouGoVisitor;
use errgo::walker::MacroCall;

fn wt_marker(name: &str, contents: Vec<Tok>) -> Vec<Tok> {
    let mut toks = vec![ident(name), Tok::Punct('!'), Tok::Open(Delim::Paren)];
    toks.extend(contents);
    toks.push(Tok::Close(Delim::Paren));
    toks
}

fn wt_nothing_wrap(contents: Vec<Tok>) -> Vec<Tok> {
    let mut toks = vec![
        ident("errgo"),
        Tok::Punct(':'),
        Tok::Punct(':'),
        ident("__nothing"),
        Tok::Punct('!'),
        Tok::Open(Delim::Paren),
    ];
    toks.extend(contents);
    toks.push(Tok::Close(Delim::Paren));
    toks
}

#[test]
fn walk_collects_in_encounter_order() {
    // Three markers with distinct names, the second inside a nested scope.
    let mut body: Vec<Tok> = Vec::new();
    body.extend(wt_marker("err", vec![ident("Alpha")]));
    body.push(Tok::Open(Delim::Brace));
    body.extend(wt_marker("err", vec![ident("Beta")]));
    body.push(Tok::Close(Delim::Brace));
    body.extend(wt_marker("err", vec![ident("Gamma")]));

    let mut visitor = ErrAsYouGoVisitor::new("FooError".to_string());
    visitor.visit_token_stream_mut(&mut body);

    assert_eq!(
        visitor.variants,
        vec![vec![ident("Alpha")], vec![ident("Beta")], vec![ident("Gamma")]]
    );
    assert!(visitor.collection_errors.is_empty());

    let mut expected: Vec<Tok> = Vec::new();
    expected.extend(wt_nothing_wrap(vec![
        ident("FooError"),
        Tok::Punct(':'),
        Tok::Punct(':'),
        ident("Alpha"),
    ]));
    expected.push(Tok::Open(Delim::Brace));
    expected.extend(wt_nothing_wrap(vec![
        ident("FooError"),
        Tok::Punct(':'),
        Tok::Punct(':'),
        ident("Beta"),
    ]));
    expected.push(Tok::Close(Delim::Brace));
    expected.extend(wt_nothing_wrap(vec![
        ident("FooError"),
        Tok::Punct(':'),
        Tok::Punct(':'),
        ident("Gamma"),
    ]));
    assert_eq!(body, expected);
}

#[test]
fn walk_recovers_from_one_malformed_occurrence() {
    // Foo { bar = 1 } is malformed (no `: type`); its neighbours are fine.
    let malformed = vec![
        ident("Foo"),
        Tok::Open(Delim::Brace),
        ident("bar"),
        Tok::Punct('='),
        Tok::Lit("1".to_string()),
        Tok::Close(Delim::Brace),
    ];
    let mut body: Vec<Tok> = Vec::new();
    body.extend(wt_marker("err", vec![ident("Alpha")]));
    let malformed_marker_pos = body.len();
    body.extend(wt_marker("err", malformed.clone()));
    body.extend(wt_marker("err", vec![ident("Gamma")]));

    let mut visitor = ErrAsYouGoVisitor::new("FooError".to_string());
    visitor.visit_token_stream_mut(&mut body);

    // Exactly one diagnostic, anchored at the malformed occurrence, and
    // the two valid occurrences' declarations are intact and in order.
    assert_eq!(visitor.collection_errors.len(), 1);
    assert_eq!(visitor.collection_errors[0].pos, malformed_marker_pos);
    assert_eq!(visitor.variants, vec![vec![ident("Alpha")], vec![ident("Gamma")]]);

    // The malformed occurrence is left inert: wrapped with its original
    // contents; the valid ones are rewritten.
    let mut expected: Vec<Tok> = Vec::new();
    expected.extend(wt_nothing_wrap(vec![
        ident("FooError"),
        Tok::Punct(':'),
        Tok::Punct(':'),
        ident("Alpha"),
    ]));
    expected.extend(wt_nothing_wrap(malformed.clone()));
    expected.extend(wt_nothing_wrap(vec![
        ident("FooError"),
        Tok::Punct(':'),
        Tok::Punct(':'),
        ident("Gamma"),
    ]));
    assert_eq!(body, expected);

    // The grammar error itself is anchored at the malformed entry.
    let e = VariantWithValue::parse(&malformed).expect_err("expected a grammar error");
    assert_eq!(e.pos, 2);
}

#[test]
fn walk_leaves_plain_tokens_alone() {
    let mut body = vec![
        ident("let"),
        ident("x"),
        Tok::Punct('='),
        Tok::Lit("1".to_string()),
        Tok::Punct(';'),
    ];
    let original = body.clone();
    let mut visitor = ErrAsYouGoVisitor::new("FooError".to_string());
    visitor.visit_token_stream_mut(&mut body);
    assert_eq!(body, original);
    assert!(visitor.variants.is_empty());
    assert!(visitor.collection_errors.is_empty());
}

#[test]
fn walk_ignores_not_equals_after_marker_name() {
    // `err != (x)` is a comparison, not an occurrence.
    let mut body = vec![
        ident("err"),
        Tok::Punct('!'),
        Tok::Punct('='),
        Tok::Open(Delim::Paren),
        ident("x"),
        Tok::Close(Delim::Paren),
    ];
    let original = body.clone();
    let mut visitor = ErrAsYouGoVisitor::new("FooError".to_string());
    visitor.visit_token_stream_mut(&mut body);
    assert_eq!(body, original);
    assert!(visitor.variants.is_empty());
}

#[test]
fn walk_rewrites_errgo_marker_with_brace_group() {
    // The `errgo!` spelling and a brace-delimited group are occurrences
    // too, and the bracket kind is kept.
    let mut body = vec![
        ident("errgo"),
        Tok::Punct('!'),
        Tok::Open(Delim::Brace),
        ident("Alpha"),
        Tok::Close(Delim::Brace),
    ];
    let mut visitor = ErrAsYouGoVisitor::new("FooError".to_string());
    visitor.visit_token_stream_mut(&mut body);
    assert_eq!(visitor.variants, vec![vec![ident("Alpha")]]);
    assert_eq!(
        body,
        vec![
            ident("errgo"),
            Tok::Punct(':'),
            Tok::Punct(':'),
            ident("__nothing"),
            Tok::Punct('!'),
            Tok::Open(Delim::Brace),
            ident("FooError"),
            Tok::Punct(':'),
            Tok::Punct(':'),
            ident("Alpha"),
            Tok::Close(Delim::Brace),
        ]
    );
}

#[test]
fn visit_macro_leaves_other_macros_alone() {
    let mut mc = MacroCall {
        path: vec!["println".to_string()],
        delim: Delim::Paren,
        tokens: vec![Tok::Lit("\"hi\"".to_string())],
        pos: 0,
    };
    let mut visitor = ErrAsYouGoVisitor::new("FooError".to_string());
    visitor.visit_macro_mut(&mut mc);
    assert_eq!(mc.path, vec!["println".to_string()]);
    assert_eq!(mc.tokens, vec![Tok::Lit("\"hi\"".to_string())]);
    assert!(visitor.variants.is_empty());
    assert!(visitor.collection_errors.is_empty());
}
