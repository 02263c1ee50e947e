//! The grammar of one marker occurrence, and its parser.
//!
//! The grammar, over the flat token stream:
//!
//! ```text
//! marker        := metadata* visibility? name fields? ("=" discriminant)?
//! fields        := "{" named_list "}" | "(" unnamed_list ")"
//! named_list    := (named_entry ("," named_entry)* ","?)?
//! unnamed_list  := (unnamed_entry ("," unnamed_entry)* ","?)?
//! named_entry   := metadata* ident ":" type "=" value
//! unnamed_entry := metadata* type "=" value
//! metadata      := "#" "[" ... "]"
//! ```
//!
//! Types, values, metadata and the discriminant are opaque token runs.  A
//! type runs to the first `=` that stands outside groups and outside angle
//! brackets (a `>` with no open `<`, as in `fn() -> T`, does not close
//! anything); a value runs to the first `,` outside groups; the discriminant
//! runs to the end of the marker.  The whole grammar is stated by the
//! `spec_` functions here, and the parser is proved to decide it: it returns
//! a definition exactly on the streams the grammar accepts.

use vstd::prelude::*;

use crate::data::FieldNamedV;
use crate::data::FieldUnnamedV;
use crate::data::FieldWithValueNamed;
use crate::data::FieldWithValueUnnamed;
use crate::data::FieldsV;
use crate::data::MultipleFieldsWithValueNamed;
use crate::data::MultipleFieldsWithValues;
use crate::data::MultipleFieldsWithValuesUnnamed;
use crate::data::VariantV;
use crate::data::VariantWithValue;
use crate::data::named_views;
use crate::data::unnamed_views;
use crate::token::Delim;
use crate::token::Tok;
use crate::token::TokView;
use crate::token::at_ident_str;
use crate::token::at_open;
use crate::token::at_punct;
use crate::token::copy_range;
use crate::token::get_ident;
use crate::token::lemma_scan_close_bounds;
use crate::token::scan_close;
use crate::token::spec_scan_close;
use crate::token::tok_views;

verus! {

/// A malformed marker: the position of the entry or token at fault, and a
/// human-readable message.
#[derive(Debug, PartialEq, Eq)]
pub struct GrammarError {
    /// Index into the parsed token stream where the fault is anchored.
    pub pos: usize,
    /// What was expected or found.
    pub msg: String,
}

/// The first position after the run of metadata (`# [ ... ]` pairs) that
/// starts at `i`; `None` when a `#` is not followed by a bracket group.
pub open spec fn spec_attrs_end(t: Seq<TokView>, i: int) -> Option<int>
    decreases t.len() - i,
{
    if !(0 <= i < t.len()) {
        Some(i)
    } else if t[i] == TokView::Punct('#') {
        if i + 1 < t.len() && t[i + 1] == TokView::Open(Delim::Bracket) {
            match spec_scan_close(t, i + 2, 0) {
                Some(j) => {
                    proof {
                        lemma_scan_close_bounds(t, i + 2, 0);
                    }
                    spec_attrs_end(t, j + 1)
                },
                None => None,
            }
        } else {
            None
        }
    } else {
        Some(i)
    }
}

pub proof fn lemma_attrs_end_bounds(t: Seq<TokView>, i: int)
    requires
        0 <= i <= t.len(),
    ensures
        spec_attrs_end(t, i) matches Some(a) ==> i <= a <= t.len(),
    decreases t.len() - i,
{
    if 0 <= i < t.len() && t[i] == TokView::Punct('#') && i + 1 < t.len() && t[i + 1]
        == TokView::Open(Delim::Bracket) {
        lemma_scan_close_bounds(t, i + 2, 0);
        if let Some(j) = spec_scan_close(t, i + 2, 0) {
            lemma_attrs_end_bounds(t, j + 1);
        }
    }
}

/// The first position after an optional visibility (`pub`, optionally with
/// a parenthesized argument) starting at `i`.  The tokens are accepted and
/// dropped, as the grammar carries no visibility of its own.
pub open spec fn spec_skip_vis(t: Seq<TokView>, i: int) -> int {
    if 0 <= i < t.len() && t[i] == TokView::Ident("pub"@) {
        if i + 1 < t.len() && t[i + 1] == TokView::Open(Delim::Paren) {
            match spec_scan_close(t, i + 2, 0) {
                Some(j) => j + 1,
                None => i + 1,
            }
        } else {
            i + 1
        }
    } else {
        i
    }
}

/// The first position at or after `i` holding the punctuation `c` outside
/// groups and outside angle brackets.  `<` opens an angle level, `>` closes
/// one when any is open and is otherwise passed over.
pub open spec fn spec_find_ty(t: Seq<TokView>, i: int, c: char, ad: int) -> Option<int>
    decreases t.len() - i,
{
    if !(0 <= i < t.len()) {
        None
    } else {
        match t[i] {
            TokView::Open(_) => match spec_scan_close(t, i + 1, 0) {
                Some(j) => {
                    proof {
                        lemma_scan_close_bounds(t, i + 1, 0);
                    }
                    spec_find_ty(t, j + 1, c, ad)
                },
                None => None,
            },
            TokView::Punct(p) => if p == '<' {
                spec_find_ty(t, i + 1, c, ad + 1)
            } else if p == '>' {
                spec_find_ty(t, i + 1, c, if ad > 0 {
                    ad - 1
                } else {
                    0
                })
            } else if p == c && ad == 0 {
                Some(i)
            } else {
                spec_find_ty(t, i + 1, c, ad)
            },
            _ => spec_find_ty(t, i + 1, c, ad),
        }
    }
}

pub proof fn lemma_find_ty_bounds(t: Seq<TokView>, i: int, c: char, ad: int)
    ensures
        spec_find_ty(t, i, c, ad) matches Some(j) ==> i <= j < t.len(),
    decreases t.len() - i,
{
    if 0 <= i < t.len() {
        match t[i] {
            TokView::Open(_) => {
                lemma_scan_close_bounds(t, i + 1, 0);
                if let Some(j) = spec_scan_close(t, i + 1, 0) {
                    lemma_find_ty_bounds(t, j + 1, c, ad);
                }
            },
            TokView::Punct(p) => {
                lemma_find_ty_bounds(t, i + 1, c, ad + 1);
                lemma_find_ty_bounds(t, i + 1, c, if ad > 0 {
                    ad - 1
                } else {
                    0
                });
                lemma_find_ty_bounds(t, i + 1, c, ad);
            },
            _ => {
                lemma_find_ty_bounds(t, i + 1, c, ad);
            },
        }
    }
}

/// The first position at or after `i` holding a comma outside groups.
pub open spec fn spec_find_comma(t: Seq<TokView>, i: int) -> Option<int>
    decreases t.len() - i,
{
    if !(0 <= i < t.len()) {
        None
    } else {
        match t[i] {
            TokView::Open(_) => match spec_scan_close(t, i + 1, 0) {
                Some(j) => {
                    proof {
                        lemma_scan_close_bounds(t, i + 1, 0);
                    }
                    spec_find_comma(t, j + 1)
                },
                None => None,
            },
            _ => if t[i] == TokView::Punct(',') {
                Some(i)
            } else {
                spec_find_comma(t, i + 1)
            },
        }
    }
}

pub proof fn lemma_find_comma_bounds(t: Seq<TokView>, i: int)
    ensures
        spec_find_comma(t, i) matches Some(j) ==> i <= j < t.len(),
    decreases t.len() - i,
{
    if 0 <= i < t.len() {
        match t[i] {
            TokView::Open(_) => {
                lemma_scan_close_bounds(t, i + 1, 0);
                if let Some(j) = spec_scan_close(t, i + 1, 0) {
                    lemma_find_comma_bounds(t, j + 1);
                }
            },
            _ => {
                lemma_find_comma_bounds(t, i + 1);
            },
        }
    }
}

/// The result of parsing one named entry: the field and the position of the
/// next entry (after the separating comma, when one follows).
pub ghost struct SpecNamedEntry {
    pub field: FieldNamedV,
    pub next: int,
}

/// The result of parsing one unnamed entry.
pub ghost struct SpecUnnamedEntry {
    pub field: FieldUnnamedV,
    pub next: int,
}

/// One named entry starting at `i`: metadata, name, `:`, a non-empty type
/// run up to `=`, and a non-empty value run up to the entry's comma or the
/// end.  A type run that would cross the entry's own comma is malformed.
pub open spec fn spec_named_entry(t: Seq<TokView>, i: int) -> Option<SpecNamedEntry> {
    match spec_attrs_end(t, i) {
        None => None,
        Some(a) => if a + 1 < t.len() && t[a + 1] == TokView::Punct(':') {
            match t[a] {
                TokView::Ident(name) => match spec_find_ty(t, a + 2, '=', 0) {
                    None => None,
                    Some(eq) => {
                        let comma_ok = match spec_find_ty(t, a + 2, ',', 0) {
                            Some(cm) => eq < cm,
                            None => true,
                        };
                        if comma_ok && a + 2 < eq {
                            let end = match spec_find_comma(t, eq + 1) {
                                Some(cm2) => cm2,
                                None => t.len() as int,
                            };
                            if eq + 1 < end {
                                Some(
                                    SpecNamedEntry {
                                        field: FieldNamedV {
                                            attrs: t.subrange(i, a),
                                            ident: name,
                                            ty: t.subrange(a + 2, eq),
                                            expr: t.subrange(eq + 1, end),
                                        },
                                        next: if end < t.len() {
                                            end + 1
                                        } else {
                                            end
                                        },
                                    },
                                )
                            } else {
                                None
                            }
                        } else {
                            None
                        }
                    },
                },
                _ => None,
            }
        } else {
            None
        },
    }
}

/// One unnamed entry starting at `i`: metadata, a non-empty type run up to
/// `=`, and a non-empty value run up to the entry's comma or the end.
pub open spec fn spec_unnamed_entry(t: Seq<TokView>, i: int) -> Option<SpecUnnamedEntry> {
    match spec_attrs_end(t, i) {
        None => None,
        Some(a) => match spec_find_ty(t, a, '=', 0) {
            None => None,
            Some(eq) => {
                let comma_ok = match spec_find_ty(t, a, ',', 0) {
                    Some(cm) => eq < cm,
                    None => true,
                };
                if comma_ok && a < eq {
                    let end = match spec_find_comma(t, eq + 1) {
                        Some(cm2) => cm2,
                        None => t.len() as int,
                    };
                    if eq + 1 < end {
                        Some(
                            SpecUnnamedEntry {
                                field: FieldUnnamedV {
                                    attrs: t.subrange(i, a),
                                    ty: t.subrange(a, eq),
                                    expr: t.subrange(eq + 1, end),
                                },
                                next: if end < t.len() {
                                    end + 1
                                } else {
                                    end
                                },
                            },
                        )
                    } else {
                        None
                    }
                } else {
                    None
                }
            },
        },
    }
}

pub proof fn lemma_named_entry_bounds(t: Seq<TokView>, i: int)
    requires
        0 <= i <= t.len(),
    ensures
        spec_named_entry(t, i) matches Some(e) ==> i < e.next <= t.len(),
{
    lemma_attrs_end_bounds(t, i);
    if let Some(a) = spec_attrs_end(t, i) {
        lemma_find_ty_bounds(t, a + 2, '=', 0);
        if let Some(eq) = spec_find_ty(t, a + 2, '=', 0) {
            lemma_find_comma_bounds(t, eq + 1);
        }
    }
}

pub proof fn lemma_unnamed_entry_bounds(t: Seq<TokView>, i: int)
    requires
        0 <= i <= t.len(),
    ensures
        spec_unnamed_entry(t, i) matches Some(e) ==> i < e.next <= t.len(),
{
    lemma_attrs_end_bounds(t, i);
    if let Some(a) = spec_attrs_end(t, i) {
        lemma_find_ty_bounds(t, a, '=', 0);
        if let Some(eq) = spec_find_ty(t, a, '=', 0) {
            lemma_find_comma_bounds(t, eq + 1);
        }
    }
}

/// The named entries of a whole comma-terminated list, starting at `i`.
/// The empty region is the empty list; a trailing comma is permitted; a
/// malformed entry fails the whole list.
pub open spec fn spec_named_list(t: Seq<TokView>, i: int) -> Option<Seq<FieldNamedV>>
    decreases t.len() - i,
{
    if i == t.len() {
        Some(Seq::empty())
    } else if !(0 <= i < t.len()) {
        None
    } else {
        match spec_named_entry(t, i) {
            None => None,
            Some(e) => {
                proof {
                    lemma_named_entry_bounds(t, i);
                }
                match spec_named_list(t, e.next) {
                    None => None,
                    Some(rest) => Some(seq![e.field] + rest),
                }
            },
        }
    }
}

/// The unnamed entries of a whole comma-terminated list, starting at `i`.
pub open spec fn spec_unnamed_list(t: Seq<TokView>, i: int) -> Option<Seq<FieldUnnamedV>>
    decreases t.len() - i,
{
    if i == t.len() {
        Some(Seq::empty())
    } else if !(0 <= i < t.len()) {
        None
    } else {
        match spec_unnamed_entry(t, i) {
            None => None,
            Some(e) => {
                proof {
                    lemma_unnamed_entry_bounds(t, i);
                }
                match spec_unnamed_list(t, e.next) {
                    None => None,
                    Some(rest) => Some(seq![e.field] + rest),
                }
            },
        }
    }
}

/// What may follow the field shape at position `p`: nothing, or `=` and a
/// non-empty discriminant run to the end.  Anything else is malformed.
pub open spec fn spec_variant_tail(
    t: Seq<TokView>,
    p: int,
    attrs: Seq<TokView>,
    name: Seq<char>,
    fields: FieldsV,
) -> Option<VariantV> {
    if p == t.len() {
        Some(VariantV { attrs, ident: name, fields, discriminant: None })
    } else if 0 <= p < t.len() && t[p] == TokView::Punct('=') {
        if p + 1 < t.len() {
            Some(
                VariantV {
                    attrs,
                    ident: name,
                    fields,
                    discriminant: Some(t.subrange(p + 1, t.len() as int)),
                },
            )
        } else {
            None
        }
    } else {
        None
    }
}

/// The whole marker grammar: metadata, an ignored visibility, the required
/// name, a field shape chosen by one token of lookahead (`{` for named, `(`
/// for unnamed, anything else for unit), then an optional discriminant.
/// The discriminant is accepted after every shape, not only after unit.
pub open spec fn spec_parse_variant(t: Seq<TokView>) -> Option<VariantV> {
    match spec_attrs_end(t, 0) {
        None => None,
        Some(a0) => {
            let v = spec_skip_vis(t, a0);
            if 0 <= v < t.len() {
                match t[v] {
                    TokView::Ident(name) => {
                        let attrs = t.subrange(0, a0);
                        if v + 1 < t.len() && t[v + 1] == TokView::Open(Delim::Brace) {
                            match spec_scan_close(t, v + 2, 0) {
                                None => None,
                                Some(j) => match spec_named_list(t.subrange(v + 2, j), 0) {
                                    None => None,
                                    Some(fs) => spec_variant_tail(
                                        t,
                                        j + 1,
                                        attrs,
                                        name,
                                        FieldsV::Named(fs),
                                    ),
                                },
                            }
                        } else if v + 1 < t.len() && t[v + 1] == TokView::Open(Delim::Paren) {
                            match spec_scan_close(t, v + 2, 0) {
                                None => None,
                                Some(j) => match spec_unnamed_list(t.subrange(v + 2, j), 0) {
                                    None => None,
                                    Some(fs) => spec_variant_tail(
                                        t,
                                        j + 1,
                                        attrs,
                                        name,
                                        FieldsV::Unnamed(fs),
                                    ),
                                },
                            }
                        } else {
                            spec_variant_tail(t, v + 1, attrs, name, FieldsV::Unit)
                        }
                    },
                    _ => None,
                }
            } else {
                None
            }
        },
    }
}

/// The first position after the run of metadata starting at `i`.
pub(crate) fn attrs_end(t: &Vec<Tok>, i: usize) -> (r: Option<usize>)
    requires
        i <= t@.len(),
    ensures
        match r {
            Some(a) => i <= a <= t@.len() && spec_attrs_end(tok_views(t@), i as int) == Some(
                a as int,
            ),
            None => spec_attrs_end(tok_views(t@), i as int) is None,
        },
{
    let ghost tv = tok_views(t@);
    let n = t.len();
    let mut k: usize = i;
    loop
        invariant
            i <= k <= t@.len(),
            n == t@.len(),
            tv == tok_views(t@),
            spec_attrs_end(tv, i as int) == spec_attrs_end(tv, k as int),
        decreases t@.len() - k,
    {
        if at_punct(t, k, '#') {
            if at_open(t, k + 1, Delim::Bracket) {
                match scan_close(t, k + 2) {
                    Some(j) => {
                        k = j + 1;
                    },
                    None => {
                        return None;
                    },
                }
            } else {
                return None;
            }
        } else {
            return Some(k);
        }
    }
}

/// The first position after an optional visibility starting at `i`.
fn skip_vis(t: &Vec<Tok>, i: usize) -> (r: usize)
    requires
        i <= t@.len(),
    ensures
        r as int == spec_skip_vis(tok_views(t@), i as int),
        i <= r <= t@.len(),
{
    let n = t.len();
    if i < n && at_ident_str(t, i, "pub") {
        if at_open(t, i + 1, Delim::Paren) {
            match scan_close(t, i + 2) {
                Some(j) => j + 1,
                None => i + 1,
            }
        } else {
            i + 1
        }
    } else {
        i
    }
}

/// The first `c` at or after `start` outside groups and angle brackets.
pub(crate) fn find_ty(t: &Vec<Tok>, start: usize, c: char) -> (r: Option<usize>)
    requires
        start <= t@.len(),
    ensures
        match r {
            Some(j) => start <= j < t@.len() && spec_find_ty(tok_views(t@), start as int, c, 0)
                == Some(j as int) && tok_views(t@)[j as int] == TokView::Punct(c),
            None => spec_find_ty(tok_views(t@), start as int, c, 0) is None,
        },
{
    let ghost tv = tok_views(t@);
    let n = t.len();
    let mut k: usize = start;
    let mut ad: usize = 0;
    loop
        invariant
            start <= k <= t@.len(),
            n == t@.len(),
            ad <= k - start,
            tv == tok_views(t@),
            spec_find_ty(tv, start as int, c, 0) == spec_find_ty(tv, k as int, c, ad as int),
        decreases t@.len() - k,
    {
        if k >= n {
            return None;
        }
        match &t[k] {
            Tok::Open(_) => {
                match scan_close(t, k + 1) {
                    Some(j) => {
                        k = j + 1;
                    },
                    None => {
                        return None;
                    },
                }
            },
            Tok::Punct(p) => {
                if *p == '<' {
                    ad = ad + 1;
                    k = k + 1;
                } else if *p == '>' {
                    if ad > 0 {
                        ad = ad - 1;
                    }
                    k = k + 1;
                } else if *p == c {
                    if ad == 0 {
                        return Some(k);
                    }
                    k = k + 1;
                } else {
                    k = k + 1;
                }
            },
            _ => {
                k = k + 1;
            },
        }
    }
}

/// The first comma at or after `start` outside groups.
fn find_comma(t: &Vec<Tok>, start: usize) -> (r: Option<usize>)
    requires
        start <= t@.len(),
    ensures
        match r {
            Some(j) => start <= j < t@.len() && spec_find_comma(tok_views(t@), start as int)
                == Some(j as int),
            None => spec_find_comma(tok_views(t@), start as int) is None,
        },
{
    let ghost tv = tok_views(t@);
    let n = t.len();
    let mut k: usize = start;
    loop
        invariant
            start <= k <= t@.len(),
            n == t@.len(),
            tv == tok_views(t@),
            spec_find_comma(tv, start as int) == spec_find_comma(tv, k as int),
        decreases t@.len() - k,
    {
        if k >= n {
            return None;
        }
        match &t[k] {
            Tok::Open(_) => {
                match scan_close(t, k + 1) {
                    Some(j) => {
                        k = j + 1;
                    },
                    None => {
                        return None;
                    },
                }
            },
            Tok::Punct(p) => {
                if *p == ',' {
                    return Some(k);
                }
                k = k + 1;
            },
            _ => {
                k = k + 1;
            },
        }
    }
}

fn grammar_error(pos: usize, msg: &str) -> (r: GrammarError)
    ensures
        r.pos == pos,
{
    GrammarError { pos, msg: msg.to_owned() }
}

impl FieldWithValueNamed {
    /// Parses one named field entry starting at `i`; returns the field and
    /// the position of the next entry.  Fails exactly where the grammar
    /// rejects, anchored at the entry's start.
    pub fn parse(t: &Vec<Tok>, i: usize) -> (r: Result<(FieldWithValueNamed, usize), GrammarError>)
        requires
            i <= t@.len(),
        ensures
            match r {
                Ok(p) => spec_named_entry(tok_views(t@), i as int) == Some(
                    SpecNamedEntry { field: p.0@, next: p.1 as int },
                ) && i < p.1 <= t@.len(),
                Err(e) => spec_named_entry(tok_views(t@), i as int) is None && e.pos <= t@.len(),
            },
    {
        let ghost tv = tok_views(t@);
        let n = t.len();
        let a = match attrs_end(t, i) {
            Some(a) => a,
            None => {
                return Err(grammar_error(i, "malformed metadata in field entry"));
            },
        };
        let name = match get_ident(t, a) {
            Some(n) => n,
            None => {
                return Err(grammar_error(i, "expected a field name"));
            },
        };
        if !at_punct(t, a + 1, ':') {
            return Err(grammar_error(i, "expected `:` after the field name"));
        }
        let eq = match find_ty(t, a + 2, '=') {
            Some(eq) => eq,
            None => {
                return Err(grammar_error(i, "expected `= value` after the field type"));
            },
        };
        if let Some(cm) = find_ty(t, a + 2, ',') {
            if cm < eq {
                return Err(grammar_error(i, "expected `: type = value` in the field entry"));
            }
        }
        if !(a + 2 < eq) {
            return Err(grammar_error(i, "expected a type after `:`"));
        }
        let end = match find_comma(t, eq + 1) {
            Some(cm2) => cm2,
            None => t.len(),
        };
        if !(eq + 1 < end) {
            return Err(grammar_error(i, "expected a value after `=`"));
        }
        let f = FieldWithValueNamed {
            attrs: copy_range(t, i, a),
            ident: name,
            ty: copy_range(t, a + 2, eq),
            expr: copy_range(t, eq + 1, end),
        };
        let next = if end < t.len() {
            end + 1
        } else {
            end
        };
        proof {
            assert(spec_named_entry(tv, i as int) == Some(
                SpecNamedEntry { field: f@, next: next as int },
            ));
        }
        Ok((f, next))
    }
}

impl FieldWithValueUnnamed {
    /// Parses one unnamed field entry starting at `i`; returns the field
    /// and the position of the next entry.
    pub fn parse(t: &Vec<Tok>, i: usize) -> (r: Result<
        (FieldWithValueUnnamed, usize),
        GrammarError,
    >)
        requires
            i <= t@.len(),
        ensures
            match r {
                Ok(p) => spec_unnamed_entry(tok_views(t@), i as int) == Some(
                    SpecUnnamedEntry { field: p.0@, next: p.1 as int },
                ) && i < p.1 <= t@.len(),
                Err(e) => spec_unnamed_entry(tok_views(t@), i as int) is None && e.pos <= t@.len(),
            },
    {
        let ghost tv = tok_views(t@);
        let n = t.len();
        let a = match attrs_end(t, i) {
            Some(a) => a,
            None => {
                return Err(grammar_error(i, "malformed metadata in field entry"));
            },
        };
        let eq = match find_ty(t, a, '=') {
            Some(eq) => eq,
            None => {
                return Err(grammar_error(i, "expected `= value` after the field type"));
            },
        };
        if let Some(cm) = find_ty(t, a, ',') {
            if cm < eq {
                return Err(grammar_error(i, "expected `type = value` in the field entry"));
            }
        }
        if !(a < eq) {
            return Err(grammar_error(i, "expected a type"));
        }
        let end = match find_comma(t, eq + 1) {
            Some(cm2) => cm2,
            None => t.len(),
        };
        if !(eq + 1 < end) {
            return Err(grammar_error(i, "expected a value after `=`"));
        }
        let f = FieldWithValueUnnamed {
            attrs: copy_range(t, i, a),
            ty: copy_range(t, a, eq),
            expr: copy_range(t, eq + 1, end),
        };
        let next = if end < t.len() {
            end + 1
        } else {
            end
        };
        proof {
            assert(spec_unnamed_entry(tv, i as int) == Some(
                SpecUnnamedEntry { field: f@, next: next as int },
            ));
        }
        Ok((f, next))
    }
}

impl MultipleFieldsWithValueNamed {
    /// Parses a whole comma-terminated named field list (the tokens inside
    /// the braces).  A malformed entry fails the whole list.
    pub fn parse(t: &Vec<Tok>) -> (r: Result<MultipleFieldsWithValueNamed, GrammarError>)
        ensures
            match r {
                Ok(m) => spec_named_list(tok_views(t@), 0) == Some(named_views(m.fields@)),
                Err(e) => spec_named_list(tok_views(t@), 0) is None && e.pos <= t@.len(),
            },
    {
        let ghost tv = tok_views(t@);
        let mut fields: Vec<FieldWithValueNamed> = Vec::new();
        let mut i: usize = 0;
        proof {
            match spec_named_list(tv, 0) {
                Some(rest) => {
                    assert(named_views(fields@) + rest =~= rest);
                },
                None => {
                },
            }
        }
        loop
            invariant
                i <= t@.len(),
                tv == tok_views(t@),
                spec_named_list(tv, 0) == (match spec_named_list(tv, i as int) {
                    None => None::<Seq<FieldNamedV>>,
                    Some(rest) => Some(named_views(fields@) + rest),
                }),
            decreases t@.len() - i,
        {
            if i == t.len() {
                proof {
                    assert(named_views(fields@) + Seq::<FieldNamedV>::empty() =~= named_views(
                        fields@,
                    ));
                }
                return Ok(MultipleFieldsWithValueNamed { fields });
            }
            match FieldWithValueNamed::parse(t, i) {
                Err(e) => {
                    return Err(e);
                },
                Ok((f, next)) => {
                    let ghost f0 = fields@;
                    let ghost fv = f@;
                    fields.push(f);
                    proof {
                        assert(named_views(fields@) =~= named_views(f0).push(fv));
                        match spec_named_list(tv, next as int) {
                            Some(rest2) => {
                                assert(named_views(f0) + (seq![fv] + rest2) =~= named_views(
                                    fields@,
                                ) + rest2);
                            },
                            None => {
                            },
                        }
                    }
                    i = next;
                },
            }
        }
    }
}

impl MultipleFieldsWithValuesUnnamed {
    /// Parses a whole comma-terminated unnamed field list (the tokens
    /// inside the parentheses).
    pub fn parse(t: &Vec<Tok>) -> (r: Result<MultipleFieldsWithValuesUnnamed, GrammarError>)
        ensures
            match r {
                Ok(m) => spec_unnamed_list(tok_views(t@), 0) == Some(unnamed_views(m.fields@)),
                Err(e) => spec_unnamed_list(tok_views(t@), 0) is None && e.pos <= t@.len(),
            },
    {
        let ghost tv = tok_views(t@);
        let mut fields: Vec<FieldWithValueUnnamed> = Vec::new();
        let mut i: usize = 0;
        proof {
            match spec_unnamed_list(tv, 0) {
                Some(rest) => {
                    assert(unnamed_views(fields@) + rest =~= rest);
                },
                None => {
                },
            }
        }
        loop
            invariant
                i <= t@.len(),
                tv == tok_views(t@),
                spec_unnamed_list(tv, 0) == (match spec_unnamed_list(tv, i as int) {
                    None => None::<Seq<FieldUnnamedV>>,
                    Some(rest) => Some(unnamed_views(fields@) + rest),
                }),
            decreases t@.len() - i,
        {
            if i == t.len() {
                proof {
                    assert(unnamed_views(fields@) + Seq::<FieldUnnamedV>::empty() =~= unnamed_views(
                        fields@,
                    ));
                }
                return Ok(MultipleFieldsWithValuesUnnamed { fields });
            }
            match FieldWithValueUnnamed::parse(t, i) {
                Err(e) => {
                    return Err(e);
                },
                Ok((f, next)) => {
                    let ghost f0 = fields@;
                    let ghost fv = f@;
                    fields.push(f);
                    proof {
                        assert(unnamed_views(fields@) =~= unnamed_views(f0).push(fv));
                        match spec_unnamed_list(tv, next as int) {
                            Some(rest2) => {
                                assert(unnamed_views(f0) + (seq![fv] + rest2) =~= unnamed_views(
                                    fields@,
                                ) + rest2);
                            },
                            None => {
                            },
                        }
                    }
                    i = next;
                },
            }
        }
    }
}

impl VariantWithValue {
    /// Parses the contents of one marker occurrence into a variant
    /// definition.  Returns a definition exactly on the streams the marker
    /// grammar accepts, and a [`GrammarError`] on every other stream.
    pub fn parse(t: &Vec<Tok>) -> (r: Result<VariantWithValue, GrammarError>)
        ensures
            match r {
                Ok(v) => spec_parse_variant(tok_views(t@)) == Some(v@),
                Err(e) => spec_parse_variant(tok_views(t@)) is None && e.pos <= t@.len(),
            },
    {
        let ghost tv = tok_views(t@);
        let n = t.len();
        let a0 = match attrs_end(t, 0) {
            Some(a0) => a0,
            None => {
                return Err(grammar_error(0, "malformed metadata"));
            },
        };
        let v = skip_vis(t, a0);
        let name = match get_ident(t, v) {
            Some(n) => n,
            None => {
                return Err(grammar_error(v, "expected a variant name"));
            },
        };
        let attrs = copy_range(t, 0, a0);
        let ghost attrs_v = tok_views(t@).subrange(0, a0 as int);
        if at_open(t, v + 1, Delim::Brace) {
            let j = match scan_close(t, v + 2) {
                Some(j) => j,
                None => {
                    return Err(grammar_error(v + 1, "unbalanced `{` in the field list"));
                },
            };
            let contents = copy_range(t, v + 2, j);
            let m = match MultipleFieldsWithValueNamed::parse(&contents) {
                Ok(m) => m,
                Err(e) => {
                    return Err(GrammarError { pos: v + 2 + e.pos, msg: e.msg });
                },
            };
            let fields = MultipleFieldsWithValues::Named(m);
            Self::parse_tail(t, j + 1, attrs, name, fields, Ghost(attrs_v))
        } else if at_open(t, v + 1, Delim::Paren) {
            let j = match scan_close(t, v + 2) {
                Some(j) => j,
                None => {
                    return Err(grammar_error(v + 1, "unbalanced `(` in the field list"));
                },
            };
            let contents = copy_range(t, v + 2, j);
            let m = match MultipleFieldsWithValuesUnnamed::parse(&contents) {
                Ok(m) => m,
                Err(e) => {
                    return Err(GrammarError { pos: v + 2 + e.pos, msg: e.msg });
                },
            };
            let fields = MultipleFieldsWithValues::Unnamed(m);
            Self::parse_tail(t, j + 1, attrs, name, fields, Ghost(attrs_v))
        } else {
            let fields = MultipleFieldsWithValues::Unit;
            Self::parse_tail(t, v + 1, attrs, name, fields, Ghost(attrs_v))
        }
    }

    /// Parses the optional discriminant after the field shape and checks
    /// that nothing else follows.
    fn parse_tail(
        t: &Vec<Tok>,
        p: usize,
        attrs: Vec<Tok>,
        name: String,
        fields: MultipleFieldsWithValues,
        av: Ghost<Seq<TokView>>,
    ) -> (r: Result<VariantWithValue, GrammarError>)
        requires
            p <= t@.len(),
            tok_views(attrs@) == av@,
        ensures
            match r {
                Ok(v) => spec_variant_tail(tok_views(t@), p as int, av@, name@, fields@) == Some(
                    v@,
                ) && v@.attrs == av@ && v@.ident == name@ && v@.fields == fields@,
                Err(e) => spec_variant_tail(tok_views(t@), p as int, av@, name@, fields@) is None
                    && e.pos <= t@.len(),
            },
    {
        if p == t.len() {
            let v = VariantWithValue { attrs, ident: name, fields, discriminant: None };
            return Ok(v);
        }
        if !at_punct(t, p, '=') {
            return Err(grammar_error(p, "unexpected tokens after the variant"));
        }
        if !(p + 1 < t.len()) {
            return Err(grammar_error(p, "expected a discriminant expression after `=`"));
        }
        let d = copy_range(t, p + 1, t.len());
        let v = VariantWithValue { attrs, ident: name, fields, discriminant: Some(d) };
        Ok(v)
    }
}

} // verus!
