//! The whole transform for one function, and the assembly of its output.
//!
//! One invocation takes the configuration tokens, the function's
//! visibility, the tokens of its declared result type, and its body.  A
//! malformed configuration is fatal before any work on the body.  An
//! unresolved result type leaves the body untouched and costs exactly one
//! diagnostic.  Otherwise the body is walked once, every marker occurrence
//! is rewritten in place, and the collected declaration fragments are
//! assembled into the declaration of the synthesized enum.

use vstd::prelude::*;

use crate::config::Config;
use crate::config::ConfigError;
use crate::config::ConfigV;
use crate::config::spec_config;
use crate::data::comma_join;
use crate::data::comma_join_toks;
use crate::data::toks2_views;
use crate::resolve::get_struct_name_from_return_type;
use crate::resolve::spec_resolve;
use crate::token::Delim;
use crate::token::Tok;
use crate::token::TokView;
use crate::token::append_toks;
use crate::token::copy_toks;
use crate::token::ident;
use crate::token::push_tok;
use crate::token::tok_views;
use crate::walker::Diagnostic;
use crate::walker::ErrAsYouGoVisitor;
use crate::walker::diag_views;
use crate::walker::spec_walk_from;

verus! {

/// What one invocation of the transform produces.
pub struct ErrgoOutput {
    /// The declaration of the synthesized enum, absent when the result
    /// type did not resolve.
    pub decl: Option<Vec<Tok>>,
    /// The rewritten function body — the input body, unmodified, when the
    /// result type did not resolve.
    pub body: Vec<Tok>,
    /// The diagnostics of the pass, in encounter order.
    pub diagnostics: Vec<Diagnostic>,
}

/// The declaration of the synthesized enum: the pass-through metadata, a
/// `derive` attribute when derives were configured, the configured
/// visibility or else the function's own, and the collected variant
/// declarations joined with commas.
pub open spec fn spec_assemble(
    cfg: ConfigV,
    fn_vis: Seq<TokView>,
    name: Seq<char>,
    decls: Seq<Seq<TokView>>,
) -> Seq<TokView> {
    (match cfg.attributes {
        Some(a) => a,
        None => Seq::<TokView>::empty(),
    }) + (match cfg.derives {
        Some(ds) => seq![
            TokView::Punct('#'),
            TokView::Open(Delim::Bracket),
            TokView::Ident("derive"@),
            TokView::Open(Delim::Paren),
        ] + comma_join(ds) + seq![TokView::Close(Delim::Paren), TokView::Close(Delim::Bracket)],
        None => Seq::<TokView>::empty(),
    }) + (match cfg.visibility {
        Some(v) => v,
        None => fn_vis,
    }) + seq![TokView::Ident("enum"@), TokView::Ident(name), TokView::Open(Delim::Brace)]
        + comma_join(decls) + seq![TokView::Close(Delim::Brace)]
}

/// Assembles the declaration of the synthesized enum.
fn assemble_decl(cfg: &Config, fn_vis: &Vec<Tok>, name: &String, variants: &Vec<Vec<Tok>>) -> (r:
    Vec<Tok>)
    ensures
        tok_views(r@) == spec_assemble(cfg@, tok_views(fn_vis@), name@, toks2_views(variants@)),
{
    let mut r: Vec<Tok> = Vec::new();
    match &cfg.attributes {
        Some(a) => {
            append_toks(&mut r, copy_toks(a));
        },
        None => {
        },
    }
    let ghost part_attrs = tok_views(r@);
    match &cfg.derives {
        Some(ds) => {
            push_tok(&mut r, Tok::Punct('#'));
            push_tok(&mut r, Tok::Open(Delim::Bracket));
            push_tok(&mut r, ident("derive"));
            push_tok(&mut r, Tok::Open(Delim::Paren));
            append_toks(&mut r, comma_join_toks(ds));
            push_tok(&mut r, Tok::Close(Delim::Paren));
            push_tok(&mut r, Tok::Close(Delim::Bracket));
            proof {
                assert(tok_views(r@) =~= part_attrs + (seq![
                    TokView::Punct('#'),
                    TokView::Open(Delim::Bracket),
                    TokView::Ident("derive"@),
                    TokView::Open(Delim::Paren),
                ] + comma_join(toks2_views(ds@)) + seq![
                    TokView::Close(Delim::Paren),
                    TokView::Close(Delim::Bracket),
                ]));
            }
        },
        None => {
        },
    }
    let ghost part_derives = tok_views(r@);
    match &cfg.visibility {
        Some(v) => {
            append_toks(&mut r, copy_toks(v));
        },
        None => {
            append_toks(&mut r, copy_toks(fn_vis));
        },
    }
    let ghost part_vis = tok_views(r@);
    push_tok(&mut r, ident("enum"));
    push_tok(&mut r, Tok::Ident(name.clone()));
    push_tok(&mut r, Tok::Open(Delim::Brace));
    append_toks(&mut r, comma_join_toks(variants));
    push_tok(&mut r, Tok::Close(Delim::Brace));
    proof {
        assert(tok_views(r@) =~= part_vis + (seq![
            TokView::Ident("enum"@),
            TokView::Ident(name@),
            TokView::Open(Delim::Brace),
        ] + comma_join(toks2_views(variants@)) + seq![TokView::Close(Delim::Brace)]));
        assert(tok_views(r@) =~= spec_assemble(
            cfg@,
            tok_views(fn_vis@),
            name@,
            toks2_views(variants@),
        ));
    }
    r
}

/// A pass-through node: hands its tokens back unchanged.  The construction
/// expression that replaces a parsed occurrence is wrapped in a call of
/// this, so the replacement site stays a macro node that no later walk
/// rewrites again.
pub fn __nothing(input: Vec<Tok>) -> (r: Vec<Tok>)
    ensures
        tok_views(r@) == tok_views(input@),
{
    input
}

/// The whole transform for one function.
///
/// A malformed configuration is the fatal [`ConfigError`]: it is reported
/// before the body is looked at, and no output is produced.  When the
/// result type does not resolve, the output is the body unmodified, no
/// declaration, and exactly one diagnostic — the fatal resolution failure.
/// Otherwise the output holds the body after one walk, the walk's
/// diagnostics, and the assembled declaration of the synthesized enum.
pub fn errgo(attr: &Vec<Tok>, fn_vis: &Vec<Tok>, ret: &Vec<Tok>, body: &Vec<Tok>) -> (r: Result<
    ErrgoOutput,
    ConfigError,
>)
    ensures
        match r {
            Err(e) => spec_config(tok_views(attr@)) is None && e.pos <= attr@.len(),
            Ok(out) => {
                &&& spec_config(tok_views(attr@)) is Some
                &&& match spec_resolve(tok_views(ret@)) {
                    None => {
                        &&& out.decl is None
                        &&& tok_views(out.body@) == tok_views(body@)
                        &&& diag_views(out.diagnostics@) == seq![0int]
                    },
                    Some(name) => {
                        &&& ({
                            let w = spec_walk_from(tok_views(body@), name, 0);
                            &&& tok_views(out.body@) == w.out
                            &&& diag_views(out.diagnostics@) == w.diags
                            &&& out.decl matches Some(d) && tok_views(d@) == spec_assemble(
                                spec_config(tok_views(attr@))->Some_0,
                                tok_views(fn_vis@),
                                name,
                                w.decls,
                            )
                        })
                    },
                }
            },
        },
{
    let config = match Config::parse(attr) {
        Ok(c) => c,
        Err(e) => {
            return Err(e);
        },
    };
    let name = match get_struct_name_from_return_type(ret) {
        Some(n) => n,
        None => {
            let mut diags: Vec<Diagnostic> = Vec::new();
            diags.push(
                Diagnostic {
                    pos: 0,
                    msg:
                        "unsupported return type - function must return a `Result<_, SomeConcreteErr>`".to_owned(),
                },
            );
            proof {
                assert(diag_views(diags@) =~= seq![0int]);
            }
            return Ok(
                ErrgoOutput { decl: None, body: copy_toks(body), diagnostics: diags },
            );
        },
    };
    let mut visitor = ErrAsYouGoVisitor::new(name.clone());
    let mut b = copy_toks(body);
    proof {
        assert(toks2_views(visitor.variants@) =~= Seq::<Seq<TokView>>::empty());
        assert(diag_views(visitor.collection_errors@) =~= Seq::<int>::empty());
    }
    visitor.visit_token_stream_mut(&mut b);
    proof {
        let w = spec_walk_from(tok_views(body@), name@, 0);
        assert(toks2_views(visitor.variants@) =~= w.decls);
        assert(diag_views(visitor.collection_errors@) =~= w.diags);
    }
    let decl = assemble_decl(&config, fn_vis, &name, &visitor.variants);
    Ok(ErrgoOutput { decl: Some(decl), body: b, diagnostics: visitor.collection_errors })
}

} // verus!
