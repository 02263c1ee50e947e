//! The variant definition parsed out of one marker occurrence, and its two
//! projections: a type-level declaration fragment and a value-level
//! construction expression.
//!
//! Both projections are fully specified as functions of the definition's
//! mathematical view, so that a definition projects the same way however it
//! was obtained, and the declaration and the expression always agree on
//! field count and order.

use vstd::prelude::*;

use crate::token::Delim;
use crate::token::Tok;
use crate::token::TokView;
use crate::token::append_toks;
use crate::token::copy_toks;
use crate::token::push_tok;
use crate::token::str_views;
use crate::token::tok_views;

verus! {

/// A named field of a variant definition: metadata, name, an opaque type,
/// and an opaque value.
#[derive(Debug, PartialEq, Eq)]
pub struct FieldWithValueNamed {
    /// Metadata tokens, carried verbatim (each attribute as `#`, `[`, its
    /// contents, `]`).
    pub attrs: Vec<Tok>,
    /// The field's name.
    pub ident: String,
    /// The field's type, an opaque token run.
    pub ty: Vec<Tok>,
    /// The field's value, an opaque token run.
    pub expr: Vec<Tok>,
}

/// An unnamed (positional) field: metadata, an opaque type, an opaque value.
#[derive(Debug, PartialEq, Eq)]
pub struct FieldWithValueUnnamed {
    /// Metadata tokens, carried verbatim.
    pub attrs: Vec<Tok>,
    /// The field's type, an opaque token run.
    pub ty: Vec<Tok>,
    /// The field's value, an opaque token run.
    pub expr: Vec<Tok>,
}

/// The named fields of a brace-delimited field list, in source order.
#[derive(Debug, PartialEq, Eq)]
pub struct MultipleFieldsWithValueNamed {
    /// The fields, in source order.
    pub fields: Vec<FieldWithValueNamed>,
}

/// The unnamed fields of a parenthesis-delimited field list, in source order.
#[derive(Debug, PartialEq, Eq)]
pub struct MultipleFieldsWithValuesUnnamed {
    /// The fields, in source order.
    pub fields: Vec<FieldWithValueUnnamed>,
}

/// The field shape of a variant definition.
#[derive(Debug, PartialEq, Eq)]
pub enum MultipleFieldsWithValues {
    /// A brace-delimited list of named fields.
    Named(MultipleFieldsWithValueNamed),
    /// A parenthesis-delimited list of positional fields.
    Unnamed(MultipleFieldsWithValuesUnnamed),
    /// No fields at all.
    Unit,
}

/// One variant definition: the parsed contents of one marker occurrence.
#[derive(Debug, PartialEq, Eq)]
pub struct VariantWithValue {
    /// Variant-level metadata tokens, carried verbatim.
    pub attrs: Vec<Tok>,
    /// The variant's name.
    pub ident: String,
    /// The field shape.
    pub fields: MultipleFieldsWithValues,
    /// The tokens of an explicit discriminant expression, if one was given.
    pub discriminant: Option<Vec<Tok>>,
}

/// Mathematical view of a named field.
pub ghost struct FieldNamedV {
    pub attrs: Seq<TokView>,
    pub ident: Seq<char>,
    pub ty: Seq<TokView>,
    pub expr: Seq<TokView>,
}

/// Mathematical view of an unnamed field.
pub ghost struct FieldUnnamedV {
    pub attrs: Seq<TokView>,
    pub ty: Seq<TokView>,
    pub expr: Seq<TokView>,
}

/// Mathematical view of a field shape.
pub ghost enum FieldsV {
    Named(Seq<FieldNamedV>),
    Unnamed(Seq<FieldUnnamedV>),
    Unit,
}

/// Mathematical view of a variant definition.
pub ghost struct VariantV {
    pub attrs: Seq<TokView>,
    pub ident: Seq<char>,
    pub fields: FieldsV,
    pub discriminant: Option<Seq<TokView>>,
}

impl View for FieldWithValueNamed {
    type V = FieldNamedV;

    open spec fn view(&self) -> FieldNamedV {
        FieldNamedV {
            attrs: tok_views(self.attrs@),
            ident: self.ident@,
            ty: tok_views(self.ty@),
            expr: tok_views(self.expr@),
        }
    }
}

impl View for FieldWithValueUnnamed {
    type V = FieldUnnamedV;

    open spec fn view(&self) -> FieldUnnamedV {
        FieldUnnamedV {
            attrs: tok_views(self.attrs@),
            ty: tok_views(self.ty@),
            expr: tok_views(self.expr@),
        }
    }
}

/// The views of a sequence of named fields, element by element.
pub open spec fn named_views(s: Seq<FieldWithValueNamed>) -> Seq<FieldNamedV> {
    Seq::new(s.len(), |i: int| s[i]@)
}

/// The views of a sequence of unnamed fields, element by element.
pub open spec fn unnamed_views(s: Seq<FieldWithValueUnnamed>) -> Seq<FieldUnnamedV> {
    Seq::new(s.len(), |i: int| s[i]@)
}

impl View for MultipleFieldsWithValues {
    type V = FieldsV;

    open spec fn view(&self) -> FieldsV {
        match self {
            MultipleFieldsWithValues::Named(n) => FieldsV::Named(named_views(n.fields@)),
            MultipleFieldsWithValues::Unnamed(u) => FieldsV::Unnamed(unnamed_views(u.fields@)),
            MultipleFieldsWithValues::Unit => FieldsV::Unit,
        }
    }
}

impl View for VariantWithValue {
    type V = VariantV;

    open spec fn view(&self) -> VariantV {
        VariantV {
            attrs: tok_views(self.attrs@),
            ident: self.ident@,
            fields: self.fields@,
            discriminant: match &self.discriminant {
                Some(d) => Some(tok_views(d@)),
                None => None,
            },
        }
    }
}

/// The declaration entry of one named field: metadata, name, `:`, type.
/// The value does not appear.
pub open spec fn decl_named_entry(f: FieldNamedV) -> Seq<TokView> {
    f.attrs + seq![TokView::Ident(f.ident), TokView::Punct(':')] + f.ty
}

/// The declaration entry of one unnamed field: metadata, then the bare type.
pub open spec fn decl_unnamed_entry(f: FieldUnnamedV) -> Seq<TokView> {
    f.attrs + f.ty
}

/// The expression entry of one named field: name, `:`, value.  Metadata and
/// type do not appear.
pub open spec fn expr_named_entry(f: FieldNamedV) -> Seq<TokView> {
    seq![TokView::Ident(f.ident), TokView::Punct(':')] + f.expr
}

/// The expression entry of one unnamed field: the bare value.
pub open spec fn expr_unnamed_entry(f: FieldUnnamedV) -> Seq<TokView> {
    f.expr
}

/// The declaration entries of a named field list, in order.
pub open spec fn named_decl_entries(fs: Seq<FieldNamedV>) -> Seq<Seq<TokView>> {
    Seq::new(fs.len(), |i: int| decl_named_entry(fs[i]))
}

/// The declaration entries of an unnamed field list, in order.
pub open spec fn unnamed_decl_entries(fs: Seq<FieldUnnamedV>) -> Seq<Seq<TokView>> {
    Seq::new(fs.len(), |i: int| decl_unnamed_entry(fs[i]))
}

/// The expression entries of a named field list, in order.
pub open spec fn named_expr_entries(fs: Seq<FieldNamedV>) -> Seq<Seq<TokView>> {
    Seq::new(fs.len(), |i: int| expr_named_entry(fs[i]))
}

/// The expression entries of an unnamed field list, in order.
pub open spec fn unnamed_expr_entries(fs: Seq<FieldUnnamedV>) -> Seq<Seq<TokView>> {
    Seq::new(fs.len(), |i: int| expr_unnamed_entry(fs[i]))
}

/// The first `n` entries joined with a comma between neighbours.
pub open spec fn comma_join_upto(entries: Seq<Seq<TokView>>, n: int) -> Seq<TokView>
    decreases n,
{
    if n <= 0 || n > entries.len() {
        Seq::empty()
    } else if n == 1 {
        entries[0]
    } else {
        comma_join_upto(entries, n - 1) + seq![TokView::Punct(',')] + entries[n - 1]
    }
}

/// All entries joined with a comma between neighbours.
pub open spec fn comma_join(entries: Seq<Seq<TokView>>) -> Seq<TokView> {
    comma_join_upto(entries, entries.len() as int)
}

/// The first `n` of the path segments `segs`, joined with `::`.
pub open spec fn path_join_upto(segs: Seq<Seq<char>>, n: int) -> Seq<TokView>
    decreases n,
{
    if n <= 0 || n > segs.len() {
        Seq::empty()
    } else if n == 1 {
        seq![TokView::Ident(segs[0])]
    } else {
        path_join_upto(segs, n - 1) + seq![
            TokView::Punct(':'),
            TokView::Punct(':'),
            TokView::Ident(segs[n - 1]),
        ]
    }
}

/// The path `prefix::name` as tokens; a bare `name` when the prefix is empty.
pub open spec fn spec_path_toks(prefix: Seq<Seq<char>>, name: Seq<char>) -> Seq<TokView> {
    path_join_upto(prefix.push(name), prefix.len() as int + 1)
}

/// The type-level declaration fragment of a variant definition: metadata,
/// name, the field list with values dropped, and the discriminant verbatim.
pub open spec fn spec_decl(v: VariantV) -> Seq<TokView> {
    v.attrs + seq![TokView::Ident(v.ident)] + (match v.fields {
        FieldsV::Unit => Seq::<TokView>::empty(),
        FieldsV::Named(fs) => seq![TokView::Open(Delim::Brace)] + comma_join(
            named_decl_entries(fs),
        ) + seq![TokView::Close(Delim::Brace)],
        FieldsV::Unnamed(fs) => seq![TokView::Open(Delim::Paren)] + comma_join(
            unnamed_decl_entries(fs),
        ) + seq![TokView::Close(Delim::Paren)],
    }) + (match v.discriminant {
        Some(d) => seq![TokView::Punct('=')] + d,
        None => Seq::<TokView>::empty(),
    })
}

/// The value-level construction expression of a variant definition under a
/// path prefix: the prefixed name, then the field list with metadata, types
/// and discriminant dropped.
pub open spec fn spec_expr(v: VariantV, prefix: Seq<Seq<char>>) -> Seq<TokView> {
    spec_path_toks(prefix, v.ident) + (match v.fields {
        FieldsV::Unit => Seq::<TokView>::empty(),
        FieldsV::Named(fs) => seq![TokView::Open(Delim::Brace)] + comma_join(
            named_expr_entries(fs),
        ) + seq![TokView::Close(Delim::Brace)],
        FieldsV::Unnamed(fs) => seq![TokView::Open(Delim::Paren)] + comma_join(
            unnamed_expr_entries(fs),
        ) + seq![TokView::Close(Delim::Paren)],
    })
}

/// The number of fields of a definition.
pub open spec fn field_count(v: VariantV) -> nat {
    match v.fields {
        FieldsV::Unit => 0,
        FieldsV::Named(fs) => fs.len(),
        FieldsV::Unnamed(fs) => fs.len(),
    }
}

/// The trailing discriminant part of a declaration fragment.
pub open spec fn discr_toks(d: Option<Seq<TokView>>) -> Seq<TokView> {
    match d {
        Some(toks) => seq![TokView::Punct('=')] + toks,
        None => Seq::<TokView>::empty(),
    }
}

/// Shape round-trip law: for each of the three field shapes, the declaration
/// fragment and the construction expression of one definition are joins of
/// per-field entries with the same count and the same order; entry `i` of
/// the declaration holds exactly field `i`'s metadata, name and type, and
/// entry `i` of the expression exactly field `i`'s name and value — so types
/// appear only in the declaration, values only in the expression.
pub proof fn lemma_shape_round_trip(v: VariantV, prefix: Seq<Seq<char>>)
    ensures
        match v.fields {
            FieldsV::Unit => {
                &&& spec_decl(v) == v.attrs + seq![TokView::Ident(v.ident)] + discr_toks(
                    v.discriminant,
                )
                &&& spec_expr(v, prefix) == spec_path_toks(prefix, v.ident)
            },
            FieldsV::Named(fs) => {
                &&& named_decl_entries(fs).len() == field_count(v)
                &&& named_expr_entries(fs).len() == field_count(v)
                &&& forall|i: int|
                    0 <= i < fs.len() ==> #[trigger] named_decl_entries(fs)[i] == fs[i].attrs
                        + seq![TokView::Ident(fs[i].ident), TokView::Punct(':')] + fs[i].ty
                &&& forall|i: int|
                    0 <= i < fs.len() ==> #[trigger] named_expr_entries(fs)[i] == seq![
                        TokView::Ident(fs[i].ident),
                        TokView::Punct(':'),
                    ] + fs[i].expr
                &&& spec_decl(v) == v.attrs + seq![TokView::Ident(v.ident)] + seq![
                    TokView::Open(Delim::Brace),
                ] + comma_join(named_decl_entries(fs)) + seq![TokView::Close(Delim::Brace)]
                    + discr_toks(v.discriminant)
                &&& spec_expr(v, prefix) == spec_path_toks(prefix, v.ident) + seq![
                    TokView::Open(Delim::Brace),
                ] + comma_join(named_expr_entries(fs)) + seq![TokView::Close(Delim::Brace)]
            },
            FieldsV::Unnamed(fs) => {
                &&& unnamed_decl_entries(fs).len() == field_count(v)
                &&& unnamed_expr_entries(fs).len() == field_count(v)
                &&& forall|i: int|
                    0 <= i < fs.len() ==> #[trigger] unnamed_decl_entries(fs)[i] == fs[i].attrs
                        + fs[i].ty
                &&& forall|i: int|
                    0 <= i < fs.len() ==> #[trigger] unnamed_expr_entries(fs)[i] == fs[i].expr
                &&& spec_decl(v) == v.attrs + seq![TokView::Ident(v.ident)] + seq![
                    TokView::Open(Delim::Paren),
                ] + comma_join(unnamed_decl_entries(fs)) + seq![TokView::Close(Delim::Paren)]
                    + discr_toks(v.discriminant)
                &&& spec_expr(v, prefix) == spec_path_toks(prefix, v.ident) + seq![
                    TokView::Open(Delim::Paren),
                ] + comma_join(unnamed_expr_entries(fs)) + seq![TokView::Close(Delim::Paren)]
            },
        },
{
    match v.fields {
        FieldsV::Unit => {
            assert(spec_decl(v) =~= v.attrs + seq![TokView::Ident(v.ident)] + discr_toks(
                v.discriminant,
            ));
            assert(spec_expr(v, prefix) =~= spec_path_toks(prefix, v.ident));
        },
        FieldsV::Named(fs) => {
            assert(spec_decl(v) =~= v.attrs + seq![TokView::Ident(v.ident)] + seq![
                TokView::Open(Delim::Brace),
            ] + comma_join(named_decl_entries(fs)) + seq![TokView::Close(Delim::Brace)]
                + discr_toks(v.discriminant));
            assert(spec_expr(v, prefix) =~= spec_path_toks(prefix, v.ident) + seq![
                TokView::Open(Delim::Brace),
            ] + comma_join(named_expr_entries(fs)) + seq![TokView::Close(Delim::Brace)]);
        },
        FieldsV::Unnamed(fs) => {
            assert(spec_decl(v) =~= v.attrs + seq![TokView::Ident(v.ident)] + seq![
                TokView::Open(Delim::Paren),
            ] + comma_join(unnamed_decl_entries(fs)) + seq![TokView::Close(Delim::Paren)]
                + discr_toks(v.discriminant));
            assert(spec_expr(v, prefix) =~= spec_path_toks(prefix, v.ident) + seq![
                TokView::Open(Delim::Paren),
            ] + comma_join(unnamed_expr_entries(fs)) + seq![TokView::Close(Delim::Paren)]);
        },
    }
}

/// Projection purity law: both projections are functions of the definition
/// and the prefix alone, so projecting one definition twice gives outputs
/// that are identical token for token.
pub proof fn lemma_projection_pure(
    v: VariantV,
    prefix: Seq<Seq<char>>,
    d1: Seq<TokView>,
    d2: Seq<TokView>,
    e1: Seq<TokView>,
    e2: Seq<TokView>,
)
    requires
        d1 == spec_decl(v),
        d2 == spec_decl(v),
        e1 == spec_expr(v, prefix),
        e2 == spec_expr(v, prefix),
    ensures
        d1 == d2,
        e1 == e2,
{
}

/// The views of a sequence of token streams, element by element.
pub open spec fn toks2_views(s: Seq<Vec<Tok>>) -> Seq<Seq<TokView>> {
    Seq::new(s.len(), |i: int| tok_views(s[i]@))
}

pub proof fn lemma_toks2_views_push(s: Seq<Vec<Tok>>, x: Vec<Tok>)
    ensures
        toks2_views(s.push(x)) == toks2_views(s).push(tok_views(x@)),
{
    assert(toks2_views(s.push(x)) =~= toks2_views(s).push(tok_views(x@)));
}

/// Joins the given entries with a comma between neighbours.
pub(crate) fn comma_join_toks(entries: &Vec<Vec<Tok>>) -> (r: Vec<Tok>)
    ensures
        tok_views(r@) == comma_join(toks2_views(entries@)),
{
    let mut r: Vec<Tok> = Vec::new();
    let mut i: usize = 0;
    assert(tok_views(r@) =~= comma_join_upto(toks2_views(entries@), 0));
    while i < entries.len()
        invariant
            i <= entries@.len(),
            tok_views(r@) == comma_join_upto(toks2_views(entries@), i as int),
        decreases entries@.len() - i,
    {
        if i > 0 {
            push_tok(&mut r, Tok::Punct(','));
        }
        append_toks(&mut r, copy_toks(&entries[i]));
        proof {
            assert(tok_views(r@) =~= comma_join_upto(toks2_views(entries@), i as int + 1));
        }
        i = i + 1;
    }
    r
}

/// The declaration entry of one named field, as tokens.
fn named_decl_entry_toks(f: &FieldWithValueNamed) -> (r: Vec<Tok>)
    ensures
        tok_views(r@) == decl_named_entry(f@),
{
    let mut r = copy_toks(&f.attrs);
    push_tok(&mut r, Tok::Ident(f.ident.clone()));
    push_tok(&mut r, Tok::Punct(':'));
    append_toks(&mut r, copy_toks(&f.ty));
    proof {
        assert(tok_views(r@) =~= decl_named_entry(f@));
    }
    r
}

/// The declaration entry of one unnamed field, as tokens.
fn unnamed_decl_entry_toks(f: &FieldWithValueUnnamed) -> (r: Vec<Tok>)
    ensures
        tok_views(r@) == decl_unnamed_entry(f@),
{
    let mut r = copy_toks(&f.attrs);
    append_toks(&mut r, copy_toks(&f.ty));
    proof {
        assert(tok_views(r@) =~= decl_unnamed_entry(f@));
    }
    r
}

/// The expression entry of one named field, as tokens.
fn named_expr_entry_toks(f: &FieldWithValueNamed) -> (r: Vec<Tok>)
    ensures
        tok_views(r@) == expr_named_entry(f@),
{
    let mut r: Vec<Tok> = Vec::new();
    push_tok(&mut r, Tok::Ident(f.ident.clone()));
    push_tok(&mut r, Tok::Punct(':'));
    append_toks(&mut r, copy_toks(&f.expr));
    proof {
        assert(tok_views(r@) =~= expr_named_entry(f@));
    }
    r
}

/// The expression entry of one unnamed field, as tokens.
fn unnamed_expr_entry_toks(f: &FieldWithValueUnnamed) -> (r: Vec<Tok>)
    ensures
        tok_views(r@) == expr_unnamed_entry(f@),
{
    let r = copy_toks(&f.expr);
    r
}

/// The declaration entries of a named field list, as token streams.
fn named_decl_entry_vecs(fs: &Vec<FieldWithValueNamed>) -> (r: Vec<Vec<Tok>>)
    ensures
        toks2_views(r@) == named_decl_entries(named_views(fs@)),
{
    let mut r: Vec<Vec<Tok>> = Vec::new();
    let mut i: usize = 0;
    assert(toks2_views(r@) =~= named_decl_entries(named_views(fs@)).subrange(0, 0));
    while i < fs.len()
        invariant
            i <= fs@.len(),
            toks2_views(r@) == named_decl_entries(named_views(fs@)).subrange(0, i as int),
        decreases fs@.len() - i,
    {
        let ghost r0 = r@;
        let e = named_decl_entry_toks(&fs[i]);
        r.push(e);
        proof {
            lemma_toks2_views_push(r0, e);
            assert(toks2_views(r@) =~= named_decl_entries(named_views(fs@)).subrange(
                0,
                i as int + 1,
            ));
        }
        i = i + 1;
    }
    proof {
        assert(named_decl_entries(named_views(fs@)).subrange(
            0,
            fs@.len() as int,
        ) =~= named_decl_entries(named_views(fs@)));
    }
    r
}

/// The declaration entries of an unnamed field list, as token streams.
fn unnamed_decl_entry_vecs(fs: &Vec<FieldWithValueUnnamed>) -> (r: Vec<Vec<Tok>>)
    ensures
        toks2_views(r@) == unnamed_decl_entries(unnamed_views(fs@)),
{
    let mut r: Vec<Vec<Tok>> = Vec::new();
    let mut i: usize = 0;
    assert(toks2_views(r@) =~= unnamed_decl_entries(unnamed_views(fs@)).subrange(0, 0));
    while i < fs.len()
        invariant
            i <= fs@.len(),
            toks2_views(r@) == unnamed_decl_entries(unnamed_views(fs@)).subrange(0, i as int),
        decreases fs@.len() - i,
    {
        let ghost r0 = r@;
        let e = unnamed_decl_entry_toks(&fs[i]);
        r.push(e);
        proof {
            lemma_toks2_views_push(r0, e);
            assert(toks2_views(r@) =~= unnamed_decl_entries(unnamed_views(fs@)).subrange(
                0,
                i as int + 1,
            ));
        }
        i = i + 1;
    }
    proof {
        assert(unnamed_decl_entries(unnamed_views(fs@)).subrange(
            0,
            fs@.len() as int,
        ) =~= unnamed_decl_entries(unnamed_views(fs@)));
    }
    r
}

/// The expression entries of a named field list, as token streams.
fn named_expr_entry_vecs(fs: &Vec<FieldWithValueNamed>) -> (r: Vec<Vec<Tok>>)
    ensures
        toks2_views(r@) == named_expr_entries(named_views(fs@)),
{
    let mut r: Vec<Vec<Tok>> = Vec::new();
    let mut i: usize = 0;
    assert(toks2_views(r@) =~= named_expr_entries(named_views(fs@)).subrange(0, 0));
    while i < fs.len()
        invariant
            i <= fs@.len(),
            toks2_views(r@) == named_expr_entries(named_views(fs@)).subrange(0, i as int),
        decreases fs@.len() - i,
    {
        let ghost r0 = r@;
        let e = named_expr_entry_toks(&fs[i]);
        r.push(e);
        proof {
            lemma_toks2_views_push(r0, e);
            assert(toks2_views(r@) =~= named_expr_entries(named_views(fs@)).subrange(
                0,
                i as int + 1,
            ));
        }
        i = i + 1;
    }
    proof {
        assert(named_expr_entries(named_views(fs@)).subrange(
            0,
            fs@.len() as int,
        ) =~= named_expr_entries(named_views(fs@)));
    }
    r
}

/// The expression entries of an unnamed field list, as token streams.
fn unnamed_expr_entry_vecs(fs: &Vec<FieldWithValueUnnamed>) -> (r: Vec<Vec<Tok>>)
    ensures
        toks2_views(r@) == unnamed_expr_entries(unnamed_views(fs@)),
{
    let mut r: Vec<Vec<Tok>> = Vec::new();
    let mut i: usize = 0;
    assert(toks2_views(r@) =~= unnamed_expr_entries(unnamed_views(fs@)).subrange(0, 0));
    while i < fs.len()
        invariant
            i <= fs@.len(),
            toks2_views(r@) == unnamed_expr_entries(unnamed_views(fs@)).subrange(0, i as int),
        decreases fs@.len() - i,
    {
        let ghost r0 = r@;
        let e = unnamed_expr_entry_toks(&fs[i]);
        r.push(e);
        proof {
            lemma_toks2_views_push(r0, e);
            assert(toks2_views(r@) =~= unnamed_expr_entries(unnamed_views(fs@)).subrange(
                0,
                i as int + 1,
            ));
        }
        i = i + 1;
    }
    proof {
        assert(unnamed_expr_entries(unnamed_views(fs@)).subrange(
            0,
            fs@.len() as int,
        ) =~= unnamed_expr_entries(unnamed_views(fs@)));
    }
    r
}

/// The path `prefix::last` as tokens; a bare `last` when `prefix` is empty.
fn path_toks(prefix: &Vec<String>, last: &String) -> (r: Vec<Tok>)
    ensures
        tok_views(r@) == spec_path_toks(str_views(prefix@), last@),
{
    let ghost segs = str_views(prefix@).push(last@);
    let mut r: Vec<Tok> = Vec::new();
    let mut i: usize = 0;
    while i < prefix.len()
        invariant
            i <= prefix@.len(),
            segs == str_views(prefix@).push(last@),
            tok_views(r@) == path_join_upto(segs, i as int) + (if i > 0 {
                seq![TokView::Punct(':'), TokView::Punct(':')]
            } else {
                Seq::<TokView>::empty()
            }),
        decreases prefix@.len() - i,
    {
        push_tok(&mut r, Tok::Ident(prefix[i].clone()));
        push_tok(&mut r, Tok::Punct(':'));
        push_tok(&mut r, Tok::Punct(':'));
        proof {
            assert(segs[i as int] == prefix@[i as int]@);
            assert(tok_views(r@) =~= path_join_upto(segs, i as int + 1) + seq![
                TokView::Punct(':'),
                TokView::Punct(':'),
            ]);
        }
        i = i + 1;
    }
    push_tok(&mut r, Tok::Ident(last.clone()));
    proof {
        assert(segs[prefix@.len() as int] == last@);
        assert(tok_views(r@) =~= path_join_upto(segs, prefix@.len() as int + 1));
    }
    r
}

/// The views of a sequence of string slices, element by element.
pub open spec fn strslice_views(s: Seq<&str>) -> Seq<Seq<char>> {
    Seq::new(s.len(), |i: int| s[i]@)
}

/// A path built from segment names, for use as a construction-expression
/// prefix.
pub fn path(segments: Vec<&str>) -> (r: Vec<String>)
    ensures
        str_views(r@) == strslice_views(segments@),
{
    let n = segments.len();
    let mut r: Vec<String> = Vec::new();
    let mut i: usize = 0;
    assert(str_views(r@) =~= strslice_views(segments@).subrange(0, 0));
    while i < n
        invariant
            i <= n,
            n == segments@.len(),
            str_views(r@) == strslice_views(segments@).subrange(0, i as int),
        decreases n - i,
    {
        let ghost r0 = r@;
        let s: String = segments[i].to_owned();
        let ghost sv = s@;
        r.push(s);
        proof {
            assert(str_views(r@) =~= str_views(r0).push(sv));
            assert(str_views(r0).push(strslice_views(segments@)[i as int]) =~= strslice_views(
                segments@,
            ).subrange(0, i + 1));
        }
        i = i + 1;
    }
    proof {
        assert(strslice_views(segments@).subrange(0, n as int) =~= strslice_views(segments@));
    }
    r
}

/// A whole path rendered as tokens: its segments joined with `::`.
pub fn render_path(p: &Vec<String>) -> (r: Vec<Tok>)
    ensures
        tok_views(r@) == path_join_upto(str_views(p@), p@.len() as int),
{
    let ghost segs = str_views(p@);
    let n = p.len();
    let mut r: Vec<Tok> = Vec::new();
    let mut i: usize = 0;
    assert(tok_views(r@) =~= path_join_upto(segs, 0));
    while i < n
        invariant
            i <= n,
            n == p@.len(),
            segs == str_views(p@),
            tok_views(r@) == path_join_upto(segs, i as int) + (if 0 < i && i < n {
                seq![TokView::Punct(':'), TokView::Punct(':')]
            } else {
                Seq::<TokView>::empty()
            }),
        decreases n - i,
    {
        push_tok(&mut r, Tok::Ident(p[i].clone()));
        proof {
            assert(segs[i as int] == p@[i as int]@);
            assert(tok_views(r@) =~= path_join_upto(segs, i as int + 1));
        }
        if i + 1 < n {
            push_tok(&mut r, Tok::Punct(':'));
            push_tok(&mut r, Tok::Punct(':'));
            proof {
                assert(tok_views(r@) =~= path_join_upto(segs, i as int + 1) + seq![
                    TokView::Punct(':'),
                    TokView::Punct(':'),
                ]);
            }
        }
        i = i + 1;
    }
    proof {
        if n == 0 {
            assert(tok_views(r@) =~= path_join_upto(segs, 0));
        }
    }
    r
}

impl VariantWithValue {
    /// The type-level declaration fragment of this definition, as tokens.
    pub fn into_syn_variant(&self) -> (r: Vec<Tok>)
        ensures
            tok_views(r@) == spec_decl(self@),
    {
        let mut r = copy_toks(&self.attrs);
        push_tok(&mut r, Tok::Ident(self.ident.clone()));
        let ghost head = tok_views(r@);
        proof {
            assert(head =~= tok_views(self.attrs@) + seq![TokView::Ident(self.ident@)]);
        }
        match &self.fields {
            MultipleFieldsWithValues::Unit => {
            },
            MultipleFieldsWithValues::Named(n) => {
                push_tok(&mut r, Tok::Open(Delim::Brace));
                append_toks(&mut r, comma_join_toks(&named_decl_entry_vecs(&n.fields)));
                push_tok(&mut r, Tok::Close(Delim::Brace));
                proof {
                    assert(tok_views(r@) =~= head + (seq![TokView::Open(Delim::Brace)]
                        + comma_join(named_decl_entries(named_views(n.fields@))) + seq![
                        TokView::Close(Delim::Brace),
                    ]));
                }
            },
            MultipleFieldsWithValues::Unnamed(u) => {
                push_tok(&mut r, Tok::Open(Delim::Paren));
                append_toks(&mut r, comma_join_toks(&unnamed_decl_entry_vecs(&u.fields)));
                push_tok(&mut r, Tok::Close(Delim::Paren));
                proof {
                    assert(tok_views(r@) =~= head + (seq![TokView::Open(Delim::Paren)]
                        + comma_join(unnamed_decl_entries(unnamed_views(u.fields@))) + seq![
                        TokView::Close(Delim::Paren),
                    ]));
                }
            },
        }
        match &self.discriminant {
            Some(d) => {
                push_tok(&mut r, Tok::Punct('='));
                append_toks(&mut r, copy_toks(d));
            },
            None => {
            },
        }
        proof {
            assert(tok_views(r@) =~= spec_decl(self@));
        }
        r
    }

    /// The value-level construction expression of this definition under the
    /// given path prefix, as tokens.
    pub fn into_syn_expr_with_prefix(&self, prefix: &Vec<String>) -> (r: Vec<Tok>)
        ensures
            tok_views(r@) == spec_expr(self@, str_views(prefix@)),
    {
        let mut r = path_toks(prefix, &self.ident);
        let ghost head = tok_views(r@);
        match &self.fields {
            MultipleFieldsWithValues::Unit => {
            },
            MultipleFieldsWithValues::Named(n) => {
                push_tok(&mut r, Tok::Open(Delim::Brace));
                append_toks(&mut r, comma_join_toks(&named_expr_entry_vecs(&n.fields)));
                push_tok(&mut r, Tok::Close(Delim::Brace));
                proof {
                    assert(tok_views(r@) =~= head + (seq![TokView::Open(Delim::Brace)]
                        + comma_join(named_expr_entries(named_views(n.fields@))) + seq![
                        TokView::Close(Delim::Brace),
                    ]));
                }
            },
            MultipleFieldsWithValues::Unnamed(u) => {
                push_tok(&mut r, Tok::Open(Delim::Paren));
                append_toks(&mut r, comma_join_toks(&unnamed_expr_entry_vecs(&u.fields)));
                push_tok(&mut r, Tok::Close(Delim::Paren));
                proof {
                    assert(tok_views(r@) =~= head + (seq![TokView::Open(Delim::Paren)]
                        + comma_join(unnamed_expr_entries(unnamed_views(u.fields@))) + seq![
                        TokView::Close(Delim::Paren),
                    ]));
                }
            },
        }
        proof {
            assert(tok_views(r@) =~= spec_expr(self@, str_views(prefix@)));
        }
        r
    }
}

} // verus!
