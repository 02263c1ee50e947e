use errgo::data::VariantWithValue;
use errgo::data::path;
use errgo::token::Delim;
use errgo::token::Tok;
use errgo::token::ident;
use errgo::transform::errgo;

fn tt_lit(s: &str) -> Tok {
    Tok::Lit(s.to_string())
}

fn tt_colons() -> Vec<Tok> {
    vec![Tok::Punct(':'), Tok::Punct(':')]
}

fn tt_ret_result_of(err_name: &str) -> Vec<Tok> {
    vec![
        ident("Result"),
        Tok::Punct('<'),
        Tok::Open(Delim::Paren),
        Tok::Close(Delim::Paren),
        Tok::Punct(','),
        ident(err_name),
        Tok::Punct('>'),
    ]
}

fn tt_marker(contents: Vec<Tok>) -> Vec<Tok> {
    let mut toks = vec![ident("err"), Tok::Punct('!'), Tok::Open(Delim::Paren)];
    toks.extend(contents);
    toks.push(Tok::Close(Delim::Paren));
    toks
}

fn tt_nothing_wrap(contents: Vec<Tok>) -> Vec<Tok> {
    let mut toks = vec![ident("errgo")];
    toks.extend(tt_colons());
    toks.push(ident("__nothing"));
    toks.push(Tok::Punct('!'));
    toks.push(Tok::Open(Delim::Paren));
    toks.extend(contents);
    toks.push(Tok::Close(Delim::Paren));
    toks
}

#[test]
fn scenario_unit_occurrence() {
    // `NotEnoughRazors` declares a bare name and constructs
    // `ShaveYaksError::NotEnoughRazors`.
    let toks = vec![ident("NotEnoughRazors")];
    let v = VariantWithValue::parse(&toks).expect("couldn't parse tokens");
    assert_eq!(v.into_syn_variant(), vec![ident("NotEnoughRazors")]);
    let mut expected = vec![ident("ShaveYaksError")];
    expected.extend(tt_colons());
    expected.push(ident("NotEnoughRazors"));
    assert_eq!(v.into_syn_expr_with_prefix(&path(vec!["ShaveYaksError"])), expected);
}

#[test]
fn scenario_named_occurrence() {
    // `NotEnoughBuckets { got: usize = empty_buckets, required: usize =
    // num_yaks }`: types stay in the declaration, values go to the
    // expression.
    let toks = vec![
        ident("NotEnoughBuckets"),
        Tok::Open(Delim::Brace),
        ident("got"),
        Tok::Punct(':'),
        ident("usize"),
        Tok::Punct('='),
        ident("empty_buckets"),
        Tok::Punct(','),
        ident("required"),
        Tok::Punct(':'),
        ident("usize"),
        Tok::Punct('='),
        ident("num_yaks"),
        Tok::Close(Delim::Brace),
    ];
    let v = VariantWithValue::parse(&toks).expect("couldn't parse tokens");
    assert_eq!(
        v.into_syn_variant(),
        vec![
            ident("NotEnoughBuckets"),
            Tok::Open(Delim::Brace),
            ident("got"),
            Tok::Punct(':'),
            ident("usize"),
            Tok::Punct(','),
            ident("required"),
            Tok::Punct(':'),
            ident("usize"),
            Tok::Close(Delim::Brace),
        ]
    );
    let mut expected = vec![ident("ShaveYaksError")];
    expected.extend(tt_colons());
    expected.extend(vec![
        ident("NotEnoughBuckets"),
        Tok::Open(Delim::Brace),
        ident("got"),
        Tok::Punct(':'),
        ident("empty_buckets"),
        Tok::Punct(','),
        ident("required"),
        Tok::Punct(':'),
        ident("num_yaks"),
        Tok::Close(Delim::Brace),
    ]);
    assert_eq!(v.into_syn_expr_with_prefix(&path(vec!["ShaveYaksError"])), expected);
}

#[test]
fn scenario_unnamed_occurrence() {
    // `IoErr(SomeErrType = e)` declares `IoErr(SomeErrType)` and
    // constructs `BazError::IoErr(e)`.
    let toks = vec![
        ident("IoErr"),
        Tok::Open(Delim::Paren),
        ident("SomeErrType"),
        Tok::Punct('='),
        ident("e"),
        Tok::Close(Delim::Paren),
    ];
    let v = VariantWithValue::parse(&toks).expect("couldn't parse tokens");
    assert_eq!(
        v.into_syn_variant(),
        vec![
            ident("IoErr"),
            Tok::Open(Delim::Paren),
            ident("SomeErrType"),
            Tok::Close(Delim::Paren),
        ]
    );
    let mut expected = vec![ident("BazError")];
    expected.extend(tt_colons());
    expected.extend(vec![
        ident("IoErr"),
        Tok::Open(Delim::Paren),
        ident("e"),
        Tok::Close(Delim::Paren),
    ]);
    assert_eq!(v.into_syn_expr_with_prefix(&path(vec!["BazError"])), expected);
}

#[test]
fn scenario_resolution_failure_leaves_body_unmodified() {
    // A function returning a bare type: one diagnostic, no declaration,
    // zero rewrites.
    let attr: Vec<Tok> = vec![];
    let vis: Vec<Tok> = vec![];
    let ret = vec![ident("usize")];
    let body = tt_marker(vec![ident("Alpha")]);
    let out = errgo(&attr, &vis, &ret, &body).expect("configuration is empty");
    assert!(out.decl.is_none());
    assert_eq!(out.body, body);
    assert_eq!(out.diagnostics.len(), 1);
}

#[test]
fn projection_is_pure() {
    // Projecting one definition twice gives identical outputs.
    let toks = vec![
        ident("Foo"),
        Tok::Open(Delim::Brace),
        ident("bar"),
        Tok::Punct(':'),
        ident("usize"),
        Tok::Punct('='),
        tt_lit("1"),
        Tok::Close(Delim::Brace),
    ];
    let v = VariantWithValue::parse(&toks).expect("couldn't parse tokens");
    assert_eq!(v.into_syn_variant(), v.into_syn_variant());
    let p = path(vec!["FooError"]);
    assert_eq!(v.into_syn_expr_with_prefix(&p), v.into_syn_expr_with_prefix(&p));
}

#[test]
fn errgo_assembles_declaration_and_rewrites_body() {
    // derive(Clone) passed through, the function's own visibility kept.
    let attr = vec![
        ident("derive"),
        Tok::Open(Delim::Paren),
        ident("Clone"),
        Tok::Close(Delim::Paren),
    ];
    let vis = vec![ident("pub")];
    let ret = tt_ret_result_of("FooError");
    let mut body = vec![ident("Err"), Tok::Open(Delim::Paren)];
    body.extend(tt_marker(vec![ident("Bar")]));
    body.push(Tok::Close(Delim::Paren));

    let out = errgo(&attr, &vis, &ret, &body).expect("configuration is well-formed");
    assert!(out.diagnostics.is_empty());

    let mut expected_body = vec![ident("Err"), Tok::Open(Delim::Paren)];
    let mut ctor = vec![ident("FooError")];
    ctor.extend(tt_colons());
    ctor.push(ident("Bar"));
    expected_body.extend(tt_nothing_wrap(ctor));
    expected_body.push(Tok::Close(Delim::Paren));
    assert_eq!(out.body, expected_body);

    let expected_decl = vec![
        Tok::Punct('#'),
        Tok::Open(Delim::Bracket),
        ident("derive"),
        Tok::Open(Delim::Paren),
        ident("Clone"),
        Tok::Close(Delim::Paren),
        Tok::Close(Delim::Bracket),
        ident("pub"),
        ident("enum"),
        ident("FooError"),
        Tok::Open(Delim::Brace),
        ident("Bar"),
        Tok::Close(Delim::Brace),
    ];
    assert_eq!(out.decl.expect("declaration is produced"), expected_decl);
}

#[test]
fn errgo_configured_visibility_overrides() {
    let attr = vec![
        ident("visibility"),
        Tok::Open(Delim::Paren),
        ident("pub"),
        Tok::Close(Delim::Paren),
    ];
    let vis: Vec<Tok> = vec![];
    let ret = tt_ret_result_of("FooError");
    let body: Vec<Tok> = vec![];
    let out = errgo(&attr, &vis, &ret, &body).expect("configuration is well-formed");
    assert_eq!(
        out.decl.expect("declaration is produced"),
        vec![
            ident("pub"),
            ident("enum"),
            ident("FooError"),
            Tok::Open(Delim::Brace),
            Tok::Close(Delim::Brace),
        ]
    );
}

#[test]
fn errgo_malformed_configuration_is_fatal() {
    let attr = vec![ident("derive"), Tok::Open(Delim::Paren), Tok::Close(Delim::Paren)];
    let vis: Vec<Tok> = vec![];
    let ret = tt_ret_result_of("FooError");
    let body = tt_marker(vec![ident("Alpha")]);
    assert!(errgo(&attr, &vis, &ret, &body).is_err());
}

#[test]
fn thiserror_message_simple() {
    // `#[error("no bars :(")] NoBars` inside the marker: the metadata
    // reaches the declaration verbatim, so a `thiserror`-style derive on
    // the assembled enum renders exactly that message.
    let mut attr = vec![
        ident("derive"),
        Tok::Open(Delim::Paren),
        ident("Debug"),
        Tok::Punct(','),
        ident("thiserror"),
    ];
    attr.extend(tt_colons());
    attr.push(ident("Error"));
    attr.push(Tok::Close(Delim::Paren));

    let vis: Vec<Tok> = vec![];
    let ret = tt_ret_result_of("FooError");
    let marker_contents = vec![
        Tok::Punct('#'),
        Tok::Open(Delim::Bracket),
        ident("error"),
        Tok::Open(Delim::Paren),
        tt_lit("\"no bars :(\""),
        Tok::Close(Delim::Paren),
        Tok::Close(Delim::Bracket),
        ident("NoBars"),
    ];
    let mut body = vec![ident("Err"), Tok::Open(Delim::Paren)];
    body.extend(tt_marker(marker_contents.clone()));
    body.push(Tok::Close(Delim::Paren));

    let out = errgo(&attr, &vis, &ret, &body).expect("configuration is well-formed");
    assert!(out.diagnostics.is_empty());

    let mut thiserror_path = vec![ident("thiserror")];
    thiserror_path.extend(tt_colons());
    thiserror_path.push(ident("Error"));
    let mut expected_decl = vec![
        Tok::Punct('#'),
        Tok::Open(Delim::Bracket),
        ident("derive"),
        Tok::Open(Delim::Paren),
        ident("Debug"),
        Tok::Punct(','),
    ];
    expected_decl.extend(thiserror_path);
    expected_decl.push(Tok::Close(Delim::Paren));
    expected_decl.push(Tok::Close(Delim::Bracket));
    expected_decl.push(ident("enum"));
    expected_decl.push(ident("FooError"));
    expected_decl.push(Tok::Open(Delim::Brace));
    expected_decl.extend(marker_contents);
    expected_decl.push(Tok::Close(Delim::Brace));
    assert_eq!(out.decl.expect("declaration is produced"), expected_decl);

    let mut ctor = vec![ident("FooError")];
    ctor.extend(tt_colons());
    ctor.push(ident("NoBars"));
    let mut expected_body = vec![ident("Err"), Tok::Open(Delim::Paren)];
    expected_body.extend(tt_nothing_wrap(ctor));
    expected_body.push(Tok::Close(Delim::Paren));
    assert_eq!(out.body, expected_body);
}

#[test]
fn thiserror_message_interpolated() {
    // `#[error("{0} foos is not enough!")] NotEnoughFoos(usize = u)`: the
    // format string reaches the declaration, the positional value `u` the
    // construction expression.
    let attr: Vec<Tok> = vec![];
    let vis: Vec<Tok> = vec![];
    let ret = tt_ret_result_of("BarError");
    let metadata = vec![
        Tok::Punct('#'),
        Tok::Open(Delim::Bracket),
        ident("error"),
        Tok::Open(Delim::Paren),
        tt_lit("\"{0} foos is not enough!\""),
        Tok::Close(Delim::Paren),
        Tok::Close(Delim::Bracket),
    ];
    let mut marker_contents = metadata.clone();
    marker_contents.extend(vec![
        ident("NotEnoughFoos"),
        Tok::Open(Delim::Paren),
        ident("usize"),
        Tok::Punct('='),
        ident("u"),
        Tok::Close(Delim::Paren),
    ]);
    let mut body = vec![ident("Err"), Tok::Open(Delim::Paren)];
    body.extend(tt_marker(marker_contents));
    body.push(Tok::Close(Delim::Paren));

    let out = errgo(&attr, &vis, &ret, &body).expect("configuration is empty");
    assert!(out.diagnostics.is_empty());

    let mut expected_decl: Vec<Tok> = Vec::new();
    expected_decl.push(ident("enum"));
    expected_decl.push(ident("BarError"));
    expected_decl.push(Tok::Open(Delim::Brace));
    expected_decl.extend(metadata);
    expected_decl.extend(vec![
        ident("NotEnoughFoos"),
        Tok::Open(Delim::Paren),
        ident("usize"),
        Tok::Close(Delim::Paren),
    ]);
    expected_decl.push(Tok::Close(Delim::Brace));
    assert_eq!(out.decl.expect("declaration is produced"), expected_decl);

    let mut ctor = vec![ident("BarError")];
    ctor.extend(tt_colons());
    ctor.extend(vec![
        ident("NotEnoughFoos"),
        Tok::Open(Delim::Paren),
        ident("u"),
        Tok::Close(Delim::Paren),
    ]);
    let mut expected_body = vec![ident("Err"), Tok::Open(Delim::Paren)];
    expected_body.extend(tt_nothing_wrap(ctor));
    expected_body.push(Tok::Close(Delim::Paren));
    assert_eq!(out.body, expected_body);
}

#[test]
fn duplicate_variant_names_are_not_merged() {
    // Two occurrences named `Foo` with different shapes are both
    // appended, not deduplicated.
    let attr: Vec<Tok> = vec![];
    let vis: Vec<Tok> = vec![];
    let ret = tt_ret_result_of("FooError");
    let mut body = tt_marker(vec![ident("Foo")]);
    body.extend(tt_marker(vec![
        ident("Foo"),
        Tok::Open(Delim::Paren),
        ident("usize"),
        Tok::Punct('='),
        tt_lit("1"),
        Tok::Close(Delim::Paren),
    ]));
    let out = errgo(&attr, &vis, &ret, &body).expect("configuration is empty");
    let decl = out.decl.expect("declaration is produced");
    let expected_decl = vec![
        ident("enum"),
        ident("FooError"),
        Tok::Open(Delim::Brace),
        ident("Foo"),
        Tok::Punct(','),
        ident("Foo"),
        Tok::Open(Delim::Paren),
        ident("usize"),
        Tok::Close(Delim::Paren),
        Tok::Close(Delim::Brace),
    ];
    assert_eq!(decl, expected_decl);
}

#[test]
fn expanded_example_fails_with_first_variant() {
    let r = errgo::expanded::foo();
    match r {
        Err(errgo::expanded::FooError::Structy { bars, chars }) => {
            assert_eq!(bars, 1);
            assert_eq!(chars, 'a');
        },
        _ => panic!("expected the named-shape variant"),
    }
    errgo::expanded::assert_foo_error(errgo::expanded::FooError::default());
}
