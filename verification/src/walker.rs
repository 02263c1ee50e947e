//! The tree walker and collector.
//!
//! One pass over a function body finds every marker occurrence — the
//! identifier `err` or `errgo`, a `!`, and a delimited group, at any depth
//! of the stream — parses its contents, and rewrites it in place.  A parsed
//! occurrence contributes its declaration fragment to the collected set, in
//! encounter order, and is replaced by its construction expression wrapped
//! in a pass-through `errgo::__nothing!` node, so the replacement is never
//! visited again.  A malformed occurrence is left syntactically inert in
//! the same wrapping, with its original contents, and contributes one
//! diagnostic; the walk never stops early.

use vstd::prelude::*;

use crate::data::VariantWithValue;
use crate::data::path_join_upto;
use crate::data::render_path;
use crate::data::spec_decl;
use crate::data::spec_expr;
use crate::data::toks2_views;
use crate::parse::spec_parse_variant;
use crate::token::Delim;
use crate::token::Tok;
use crate::token::TokView;
use crate::token::append_toks;
use crate::token::at_ident_str;
use crate::token::at_punct;
use crate::token::copy_range;
use crate::token::get_ident;
use crate::token::get_open;
use crate::token::lemma_scan_close_bounds;
use crate::token::push_tok;
use crate::token::scan_close;
use crate::token::spec_scan_close;
use crate::token::str_eq;
use crate::token::str_views;
use crate::token::tok_views;

verus! {

/// One non-aborting, position-anchored error gathered during a pass.
#[derive(Debug, PartialEq, Eq)]
pub struct Diagnostic {
    /// Index of the occurrence in the walked token stream.
    pub pos: usize,
    /// What was wrong with the occurrence.
    pub msg: String,
}

/// The positions of a sequence of diagnostics, element by element.
pub open spec fn diag_views(s: Seq<Diagnostic>) -> Seq<int> {
    Seq::new(s.len(), |k: int| s[k].pos as int)
}

/// One marker occurrence found in a stream, as a syntax node: a path, a
/// bang, and a delimited group of tokens, at position `pos`.
#[derive(Debug)]
pub struct MacroCall {
    /// The macro's path segments.
    pub path: Vec<String>,
    /// The bracket kind of its group.
    pub delim: Delim,
    /// The tokens inside its group.
    pub tokens: Vec<Tok>,
    /// The position of the node in the enclosing stream.
    pub pos: usize,
}

/// Whether a macro path is one of the fixed marker names.
pub open spec fn spec_is_marker_path(p: Seq<Seq<char>>) -> bool {
    p.len() == 1 && (p[0] == "err"@ || p[0] == "errgo"@)
}

/// Whether a marker occurrence starts at position `i` of the stream.
pub open spec fn spec_is_marker_at(t: Seq<TokView>, i: int) -> bool {
    &&& 0 <= i && i + 2 < t.len()
    &&& (t[i] == TokView::Ident("err"@) || t[i] == TokView::Ident("errgo"@))
    &&& t[i + 1] == TokView::Punct('!')
    &&& t[i + 2] is Open
}

/// The bracket kind of an opening token.
pub open spec fn spec_open_delim(v: TokView) -> Delim {
    match v {
        TokView::Open(d) => d,
        _ => Delim::Paren,
    }
}

/// The pass-through node that replaces an occurrence: the inner tokens
/// wrapped in `errgo :: __nothing ! ( ... )` with the occurrence's own
/// bracket kind.
pub open spec fn spec_wrap(d: Delim, inner: Seq<TokView>) -> Seq<TokView> {
    seq![
        TokView::Ident("errgo"@),
        TokView::Punct(':'),
        TokView::Punct(':'),
        TokView::Ident("__nothing"@),
        TokView::Punct('!'),
        TokView::Open(d),
    ] + inner + seq![TokView::Close(d)]
}

/// The outcome of one walk from position `i` to the end of the stream.
pub ghost struct WalkV {
    /// The rewritten stream.
    pub out: Seq<TokView>,
    /// The declaration fragments of the parsed occurrences, in encounter
    /// order.
    pub decls: Seq<Seq<TokView>>,
    /// The positions of the malformed occurrences, in encounter order.
    pub diags: Seq<int>,
}

/// The whole walk, stated as one function of the stream: at a marker
/// occurrence with a closed group, rewrite and step past it; everywhere
/// else, keep the token and step one position.
pub open spec fn spec_walk_from(t: Seq<TokView>, name: Seq<char>, i: int) -> WalkV
    decreases t.len() - i,
{
    if !(0 <= i < t.len()) {
        WalkV { out: Seq::empty(), decls: Seq::empty(), diags: Seq::empty() }
    } else if spec_is_marker_at(t, i) {
        match spec_scan_close(t, i + 3, 0) {
            Some(j) => {
                proof {
                    lemma_scan_close_bounds(t, i + 3, 0);
                }
                let d = spec_open_delim(t[i + 2]);
                let contents = t.subrange(i + 3, j);
                let rest = spec_walk_from(t, name, j + 1);
                match spec_parse_variant(contents) {
                    Some(v) => WalkV {
                        out: spec_wrap(d, spec_expr(v, seq![name])) + rest.out,
                        decls: seq![spec_decl(v)] + rest.decls,
                        diags: rest.diags,
                    },
                    None => WalkV {
                        out: spec_wrap(d, contents) + rest.out,
                        decls: rest.decls,
                        diags: seq![i] + rest.diags,
                    },
                }
            },
            None => {
                let rest = spec_walk_from(t, name, i + 1);
                WalkV {
                    out: seq![t[i]] + rest.out,
                    decls: rest.decls,
                    diags: rest.diags,
                }
            },
        }
    } else {
        let rest = spec_walk_from(t, name, i + 1);
        WalkV { out: seq![t[i]] + rest.out, decls: rest.decls, diags: rest.diags }
    }
}

/// One marker occurrence as the walk meets it: its position and the
/// tokens inside its group.
pub ghost struct OccV {
    pub pos: int,
    pub contents: Seq<TokView>,
}

/// The marker occurrences of a stream from position `i` on, in encounter
/// order.  The contents of an occurrence are not searched again, and a
/// marker head whose group never closes is no occurrence.
pub open spec fn spec_occurrences(t: Seq<TokView>, i: int) -> Seq<OccV>
    decreases t.len() - i,
{
    if !(0 <= i < t.len()) {
        Seq::empty()
    } else if spec_is_marker_at(t, i) {
        match spec_scan_close(t, i + 3, 0) {
            Some(j) => {
                proof {
                    lemma_scan_close_bounds(t, i + 3, 0);
                }
                seq![OccV { pos: i, contents: t.subrange(i + 3, j) }] + spec_occurrences(t, j + 1)
            },
            None => spec_occurrences(t, i + 1),
        }
    } else {
        spec_occurrences(t, i + 1)
    }
}

/// The declaration fragments of the occurrences whose contents parse, in
/// the same order.
pub open spec fn occ_decls(os: Seq<OccV>) -> Seq<Seq<TokView>>
    decreases os.len(),
{
    if os.len() == 0 {
        Seq::empty()
    } else {
        match spec_parse_variant(os[0].contents) {
            Some(v) => seq![spec_decl(v)] + occ_decls(os.drop_first()),
            None => occ_decls(os.drop_first()),
        }
    }
}

/// The positions of the occurrences whose contents do not parse, in the
/// same order.
pub open spec fn occ_diags(os: Seq<OccV>) -> Seq<int>
    decreases os.len(),
{
    if os.len() == 0 {
        Seq::empty()
    } else {
        match spec_parse_variant(os[0].contents) {
            Some(v) => occ_diags(os.drop_first()),
            None => seq![os[0].pos] + occ_diags(os.drop_first()),
        }
    }
}

/// Every occurrence is accounted for exactly once: a declaration fragment
/// when its contents parse, a diagnostic when they do not.
pub proof fn lemma_walk_counts(os: Seq<OccV>)
    ensures
        occ_decls(os).len() + occ_diags(os).len() == os.len(),
    decreases os.len(),
{
    if os.len() > 0 {
        lemma_walk_counts(os.drop_first());
    }
}

/// Collection-order and non-fatal-recovery law: one walk collects exactly
/// the declaration fragment of each occurrence whose contents parse, in
/// encounter order — nested occurrences included — and exactly one
/// diagnostic, anchored at the occurrence, for each whose contents do not.
/// In particular a malformed occurrence among well-formed ones costs one
/// diagnostic and leaves every other occurrence's declaration and rewrite
/// in place: no occurrence stops the walk.
pub proof fn lemma_walk_occurrences(t: Seq<TokView>, name: Seq<char>, i: int)
    ensures
        spec_walk_from(t, name, i).decls == occ_decls(spec_occurrences(t, i)),
        spec_walk_from(t, name, i).diags == occ_diags(spec_occurrences(t, i)),
    decreases t.len() - i,
{
    if !(0 <= i < t.len()) {
    } else if spec_is_marker_at(t, i) {
        match spec_scan_close(t, i + 3, 0) {
            Some(j) => {
                lemma_scan_close_bounds(t, i + 3, 0);
                lemma_walk_occurrences(t, name, j + 1);
                let os = spec_occurrences(t, i);
                let o = OccV { pos: i, contents: t.subrange(i + 3, j) };
                assert(os == seq![o] + spec_occurrences(t, j + 1));
                assert(os.len() > 0);
                assert(os[0] == o);
                assert(os.drop_first() =~= spec_occurrences(t, j + 1));
                match spec_parse_variant(o.contents) {
                    Some(v) => {
                        assert(occ_decls(os) == seq![spec_decl(v)] + occ_decls(os.drop_first()));
                        assert(occ_diags(os) == occ_diags(os.drop_first()));
                    },
                    None => {
                        assert(occ_decls(os) == occ_decls(os.drop_first()));
                        assert(occ_diags(os) == seq![i] + occ_diags(os.drop_first()));
                    },
                }
            },
            None => {
                lemma_walk_occurrences(t, name, i + 1);
            },
        }
    } else {
        lemma_walk_occurrences(t, name, i + 1);
    }
}

proof fn lemma_wrap_path()
    ensures
        path_join_upto(seq!["errgo"@, "__nothing"@], 2) == seq![
            TokView::Ident("errgo"@),
            TokView::Punct(':'),
            TokView::Punct(':'),
            TokView::Ident("__nothing"@),
        ],
{
    let segs: Seq<Seq<char>> = seq!["errgo"@, "__nothing"@];
    assert(path_join_upto(segs, 1) =~= seq![TokView::Ident("errgo"@)]);
    assert(path_join_upto(segs, 2) =~= seq![
        TokView::Ident("errgo"@),
        TokView::Punct(':'),
        TokView::Punct(':'),
        TokView::Ident("__nothing"@),
    ]);
}

proof fn lemma_wrap_build(before: Seq<TokView>, rendered: Seq<TokView>, d: Delim, inner: Seq<TokView>)
    requires
        rendered == path_join_upto(seq!["errgo"@, "__nothing"@], 2),
    ensures
        ((((before + rendered).push(TokView::Punct('!'))).push(TokView::Open(d)) + inner).push(
            TokView::Close(d),
        )) == before + spec_wrap(d, inner),
{
    lemma_wrap_path();
    assert(((((before + rendered).push(TokView::Punct('!'))).push(TokView::Open(d)) + inner).push(
        TokView::Close(d),
    )) =~= before + spec_wrap(d, inner));
}

/// The walker: the resolved target-type name, the collected declaration
/// set, and the diagnostics of one pass.
#[derive(Debug)]
pub struct ErrAsYouGoVisitor {
    /// The resolved name: the prefix of every construction expression.
    pub error_name: String,
    /// The declaration fragments collected so far, in encounter order.
    pub variants: Vec<Vec<Tok>>,
    /// One diagnostic per malformed occurrence, in encounter order.
    pub collection_errors: Vec<Diagnostic>,
}

impl ErrAsYouGoVisitor {
    /// A fresh walker for one pass, with nothing collected.
    pub fn new(error_name: String) -> (r: ErrAsYouGoVisitor)
        ensures
            r.error_name@ == error_name@,
            r.variants@.len() == 0,
            r.collection_errors@.len() == 0,
    {
        ErrAsYouGoVisitor { error_name, variants: Vec::new(), collection_errors: Vec::new() }
    }

    /// Visits one macro node.  A node whose path is not a marker name is
    /// left untouched.  A marker whose contents parse contributes its
    /// declaration fragment and becomes the pass-through construction
    /// expression; a marker whose contents do not parse keeps its contents,
    /// becomes pass-through, and contributes one diagnostic at its
    /// position.
    pub fn visit_macro_mut(&mut self, m: &mut MacroCall)
        ensures
            final(self).error_name@ == old(self).error_name@,
            final(m).pos == old(m).pos,
            final(m).delim == old(m).delim,
            !spec_is_marker_path(str_views(old(m).path@)) ==> {
                &&& str_views(final(m).path@) == str_views(old(m).path@)
                &&& tok_views(final(m).tokens@) == tok_views(old(m).tokens@)
                &&& final(self).variants@ == old(self).variants@
                &&& final(self).collection_errors@ == old(self).collection_errors@
            },
            spec_is_marker_path(str_views(old(m).path@)) ==> {
                &&& str_views(final(m).path@) == seq!["errgo"@, "__nothing"@]
                &&& match spec_parse_variant(tok_views(old(m).tokens@)) {
                    Some(v) => {
                        &&& toks2_views(final(self).variants@) == toks2_views(
                            old(self).variants@,
                        ).push(spec_decl(v))
                        &&& final(self).collection_errors@ == old(self).collection_errors@
                        &&& tok_views(final(m).tokens@) == spec_expr(
                            v,
                            seq![old(self).error_name@],
                        )
                    },
                    None => {
                        &&& final(self).variants@ == old(self).variants@
                        &&& diag_views(final(self).collection_errors@) == diag_views(
                            old(self).collection_errors@,
                        ).push(old(m).pos as int)
                        &&& tok_views(final(m).tokens@) == tok_views(old(m).tokens@)
                    },
                }
            },
    {
        let is_marker = m.path.len() == 1 && (str_eq(&m.path[0], "err") || str_eq(
            &m.path[0],
            "errgo",
        ));
        proof {
            assert(str_views(m.path@).len() == m.path@.len());
            if m.path@.len() == 1 {
                assert(str_views(m.path@)[0] == m.path@[0]@);
            }
        }
        if !is_marker {
            return ;
        }
        let mut np: Vec<String> = Vec::new();
        np.push("errgo".to_owned());
        np.push("__nothing".to_owned());
        proof {
            assert(str_views(np@) =~= seq!["errgo"@, "__nothing"@]);
        }
        match VariantWithValue::parse(&m.tokens) {
            Ok(v) => {
                let decl = v.into_syn_variant();
                let ghost v0 = self.variants@;
                self.variants.push(decl);
                let mut prefix: Vec<String> = Vec::new();
                prefix.push(self.error_name.clone());
                proof {
                    assert(str_views(prefix@) =~= seq![self.error_name@]);
                }
                let e = v.into_syn_expr_with_prefix(&prefix);
                m.path = np;
                m.tokens = e;
                proof {
                    crate::data::lemma_toks2_views_push(v0, decl);
                }
            },
            Err(ge) => {
                let ghost e0 = self.collection_errors@;
                self.collection_errors.push(Diagnostic { pos: m.pos, msg: ge.msg });
                m.path = np;
                proof {
                    assert(diag_views(self.collection_errors@) =~= diag_views(e0).push(
                        m.pos as int,
                    ));
                }
            },
        }
    }

    /// Rewrites a whole stream: the returned stream, together with what
    /// the walk appended to the collected declaration set and to the
    /// diagnostics, is exactly one walk of the input.
    #[verifier::rlimit(50)]
    fn rewrite(&mut self, t: &Vec<Tok>) -> (out: Vec<Tok>)
        ensures
            final(self).error_name@ == old(self).error_name@,
            ({
                let w = spec_walk_from(tok_views(t@), old(self).error_name@, 0);
                &&& tok_views(out@) == w.out
                &&& toks2_views(final(self).variants@) == toks2_views(old(self).variants@)
                    + w.decls
                &&& diag_views(final(self).collection_errors@) == diag_views(
                    old(self).collection_errors@,
                ) + w.diags
            }),
    {
        let ghost tv = tok_views(t@);
        let ghost nm = self.error_name@;
        let ghost full = spec_walk_from(tv, nm, 0);
        let ghost v0 = toks2_views(self.variants@);
        let ghost e0 = diag_views(self.collection_errors@);
        let n = t.len();
        let mut out: Vec<Tok> = Vec::new();
        let mut i: usize = 0;
        proof {
            assert(tok_views(out@) + full.out =~= full.out);
        }
        while i < n
            invariant
                i <= n,
                n == t@.len(),
                tv == tok_views(t@),
                self.error_name@ == nm,
                full == spec_walk_from(tv, nm, 0),
                full.out == tok_views(out@) + spec_walk_from(tv, nm, i as int).out,
                v0 + full.decls == toks2_views(self.variants@) + spec_walk_from(
                    tv,
                    nm,
                    i as int,
                ).decls,
                e0 + full.diags == diag_views(self.collection_errors@) + spec_walk_from(
                    tv,
                    nm,
                    i as int,
                ).diags,
            decreases n - i,
        {
            let ghost w_here = spec_walk_from(tv, nm, i as int);
            let is_head = n - i > 2 && (at_ident_str(t, i, "err") || at_ident_str(t, i, "errgo"))
                && at_punct(t, i + 1, '!');
            let od = if is_head {
                get_open(t, i + 2)
            } else {
                None
            };
            if is_head && od.is_some() {
                let d = od.unwrap();
                assert(spec_is_marker_at(tv, i as int));
                match scan_close(t, i + 3) {
                    Some(j) => {
                        let name = get_ident(t, i).unwrap();
                        let contents = copy_range(t, i + 3, j);
                        let ghost cv = tok_views(contents@);
                        proof {
                            assert(cv == tv.subrange(i + 3, j as int));
                        }
                        let mut mc = MacroCall { path: Vec::new(), delim: d, tokens: contents, pos: i };
                        let ghost namev = name@;
                        mc.path.push(name);
                        proof {
                            assert(str_views(mc.path@) =~= seq![namev]);
                            assert(spec_is_marker_path(str_views(mc.path@)));
                        }
                        let ghost vars_before = toks2_views(self.variants@);
                        let ghost errs_before = diag_views(self.collection_errors@);
                        self.visit_macro_mut(&mut mc);
                        let rendered = render_path(&mc.path);
                        let ghost rendered0 = rendered@;
                        let ghost out_before = tok_views(out@);
                        append_toks(&mut out, rendered);
                        push_tok(&mut out, Tok::Punct('!'));
                        push_tok(&mut out, Tok::Open(mc.delim));
                        let inner = mc.tokens;
                        let ghost iv = tok_views(inner@);
                        append_toks(&mut out, inner);
                        push_tok(&mut out, Tok::Close(mc.delim));
                        proof {
                            lemma_wrap_build(out_before, tok_views(rendered0), d, iv);
                            assert(tok_views(out@) == out_before + spec_wrap(d, iv));
                            match spec_parse_variant(cv) {
                                Some(v) => {
                                    assert(seq![nm] =~= seq![self.error_name@]);
                                    assert(w_here.out == spec_wrap(d, spec_expr(v, seq![nm]))
                                        + spec_walk_from(tv, nm, j + 1).out);
                                    assert(full.out =~= tok_views(out@) + spec_walk_from(
                                        tv,
                                        nm,
                                        j + 1,
                                    ).out);
                                    assert(toks2_views(self.variants@) =~= vars_before.push(
                                        spec_decl(v),
                                    ));
                                    assert(v0 + full.decls =~= toks2_views(self.variants@)
                                        + spec_walk_from(tv, nm, j + 1).decls);
                                    assert(e0 + full.diags =~= diag_views(self.collection_errors@)
                                        + spec_walk_from(tv, nm, j + 1).diags);
                                },
                                None => {
                                    assert(iv == cv);
                                    assert(full.out =~= tok_views(out@) + spec_walk_from(
                                        tv,
                                        nm,
                                        j + 1,
                                    ).out);
                                    assert(v0 + full.decls =~= toks2_views(self.variants@)
                                        + spec_walk_from(tv, nm, j + 1).decls);
                                    assert(e0 + full.diags =~= diag_views(self.collection_errors@)
                                        + spec_walk_from(tv, nm, j + 1).diags);
                                },
                            }
                        }
                        i = j + 1;
                    },
                    None => {
                        push_tok(&mut out, t[i].dup());
                        proof {
                            assert(full.out =~= tok_views(out@) + spec_walk_from(
                                tv,
                                nm,
                                i + 1,
                            ).out);
                        }
                        i = i + 1;
                    },
                }
            } else {
                proof {
                    assert(!spec_is_marker_at(tv, i as int));
                }
                push_tok(&mut out, t[i].dup());
                proof {
                    assert(full.out =~= tok_views(out@) + spec_walk_from(tv, nm, i + 1).out);
                }
                i = i + 1;
            }
        }
        proof {
            assert(full.out =~= tok_views(out@));
            assert(v0 + full.decls =~= toks2_views(self.variants@));
            assert(e0 + full.diags =~= diag_views(self.collection_errors@));
        }
        out
    }

    /// One pass over a mutable body: rewrites every occurrence in place
    /// and appends the declarations and diagnostics of the walk.
    pub fn visit_token_stream_mut(&mut self, body: &mut Vec<Tok>)
        ensures
            final(self).error_name@ == old(self).error_name@,
            ({
                let w = spec_walk_from(tok_views(old(body)@), old(self).error_name@, 0);
                &&& tok_views(final(body)@) == w.out
                &&& toks2_views(final(self).variants@) == toks2_views(old(self).variants@)
                    + w.decls
                &&& diag_views(final(self).collection_errors@) == diag_views(
                    old(self).collection_errors@,
                ) + w.diags
            }),
    {
        let out = self.rewrite(body);
        *body = out;
    }
}

} // verus!
