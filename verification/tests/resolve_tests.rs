use errgo::resolve::get_struct_name_from_return_type;
use errgo::token::Delim;
use errgo::token::Tok;
use errgo::token::ident;

fn rt_result_of(first: Vec<Tok>, second: Vec<Tok>) -> Vec<Tok> {
    let mut toks = vec![ident("Result"), Tok::Punct('<')];
    toks.extend(first);
    toks.push(Tok::Punct(','));
    toks.extend(second);
    toks.push(Tok::Punct('>'));
    toks
}

#[test]
fn get_result_name() {
    let toks = rt_result_of(vec![ident("T")], vec![ident("SomeConcreteErr")]);
    let name = get_struct_name_from_return_type(&toks).unwrap();
    assert_eq!(name, "SomeConcreteErr");

    let mut qualified = vec![
        Tok::Punct(':'),
        Tok::Punct(':'),
        ident("std"),
        Tok::Punct(':'),
        Tok::Punct(':'),
        ident("result"),
        Tok::Punct(':'),
        Tok::Punct(':'),
    ];
    qualified.extend(rt_result_of(vec![ident("T")], vec![ident("SomeConcreteErr")]));
    let name = get_struct_name_from_return_type(&qualified).unwrap();
    assert_eq!(name, "SomeConcreteErr");
}

#[test]
fn resolve_one_argument_is_unresolved() {
    let toks = vec![ident("Result"), Tok::Punct('<'), ident("T"), Tok::Punct('>')];
    assert!(get_struct_name_from_return_type(&toks).is_none());
}

#[test]
fn resolve_three_arguments_is_unresolved() {
    let mut toks = vec![ident("Result"), Tok::Punct('<'), ident("T"), Tok::Punct(',')];
    toks.push(ident("E"));
    toks.push(Tok::Punct(','));
    toks.push(ident("F"));
    toks.push(Tok::Punct('>'));
    assert!(get_struct_name_from_return_type(&toks).is_none());
}

#[test]
fn resolve_qualified_second_argument_is_unresolved() {
    let toks = rt_result_of(
        vec![ident("T")],
        vec![ident("a"), Tok::Punct(':'), Tok::Punct(':'), ident("B")],
    );
    assert!(get_struct_name_from_return_type(&toks).is_none());
}

#[test]
fn resolve_generic_second_argument_is_unresolved() {
    let toks = rt_result_of(
        vec![ident("T")],
        vec![ident("E"), Tok::Punct('<'), ident("F"), Tok::Punct('>')],
    );
    assert!(get_struct_name_from_return_type(&toks).is_none());
}

#[test]
fn resolve_bare_type_is_unresolved() {
    assert!(get_struct_name_from_return_type(&vec![ident("usize")]).is_none());
    assert!(get_struct_name_from_return_type(&vec![]).is_none());
}

#[test]
fn resolve_other_alias_name_is_unresolved() {
    let mut toks = vec![ident("Either"), Tok::Punct('<'), ident("T"), Tok::Punct(',')];
    toks.push(ident("E"));
    toks.push(Tok::Punct('>'));
    assert!(get_struct_name_from_return_type(&toks).is_none());
}

#[test]
fn resolve_nested_first_argument() {
    let toks = rt_result_of(
        vec![
            ident("Vec"),
            Tok::Punct('<'),
            Tok::Open(Delim::Paren),
            ident("u8"),
            Tok::Punct(','),
            ident("u8"),
            Tok::Close(Delim::Paren),
            Tok::Punct('>'),
        ],
        vec![ident("FooError")],
    );
    let name = get_struct_name_from_return_type(&toks).unwrap();
    assert_eq!(name, "FooError");
}

#[test]
fn resolve_trailing_comma_is_accepted() {
    let mut toks = rt_result_of(vec![ident("T")], vec![ident("E")]);
    toks.pop();
    toks.push(Tok::Punct(','));
    toks.push(Tok::Punct('>'));
    let name = get_struct_name_from_return_type(&toks).unwrap();
    assert_eq!(name, "E");
}

#[test]
fn resolve_trailing_tokens_are_unresolved() {
    let mut toks = rt_result_of(vec![ident("T")], vec![ident("E")]);
    toks.push(ident("junk"));
    assert!(get_struct_name_from_return_type(&toks).is_none());
}
