//! The target-type resolver.
//!
//! Given the tokens of a function's declared result type, it recognizes a
//! two-argument parametric `Result` — with any leading path qualification —
//! whose second type argument is a single, unqualified, non-generic name,
//! and returns that name.  Every other shape is unresolved, which callers
//! treat as fatal for the whole pass.

use vstd::prelude::*;

use crate::token::Tok;
use crate::token::TokView;
use crate::token::at_punct;
use crate::token::copy_range;
use crate::token::get_ident;
use crate::token::lemma_scan_close_bounds;
use crate::token::scan_close;
use crate::token::spec_scan_close;
use crate::token::str_eq;
use crate::token::tok_views;

verus! {

/// The position of the last identifier of a `::`-separated path starting at
/// `i`; `None` when no identifier stands at `i` or after a `::`.
pub open spec fn spec_last_seg(t: Seq<TokView>, i: int) -> Option<int>
    decreases t.len() - i,
{
    if !(0 <= i < t.len()) {
        None
    } else if t[i] is Ident {
        if i + 2 < t.len() && t[i + 1] == TokView::Punct(':') && t[i + 2] == TokView::Punct(':') {
            spec_last_seg(t, i + 3)
        } else {
            Some(i)
        }
    } else {
        None
    }
}

pub proof fn lemma_last_seg_bounds(t: Seq<TokView>, i: int)
    ensures
        spec_last_seg(t, i) matches Some(j) ==> i <= j < t.len() && t[j] is Ident,
    decreases t.len() - i,
{
    if 0 <= i < t.len() && t[i] is Ident && i + 2 < t.len() && t[i + 1] == TokView::Punct(':')
        && t[i + 2] == TokView::Punct(':') {
        lemma_last_seg_bounds(t, i + 3);
    }
}

/// The position of the `>` that closes the angle bracket opened just before
/// `i`, with `ad` further angle levels open; groups are passed over whole.
pub open spec fn spec_angle_close(t: Seq<TokView>, i: int, ad: int) -> Option<int>
    decreases t.len() - i,
{
    if !(0 <= i < t.len()) {
        None
    } else {
        match t[i] {
            TokView::Open(_) => match spec_scan_close(t, i + 1, 0) {
                Some(j) => {
                    proof {
                        lemma_scan_close_bounds(t, i + 1, 0);
                    }
                    spec_angle_close(t, j + 1, ad)
                },
                None => None,
            },
            TokView::Punct(p) => if p == '<' {
                spec_angle_close(t, i + 1, ad + 1)
            } else if p == '>' {
                if ad == 0 {
                    Some(i)
                } else {
                    spec_angle_close(t, i + 1, ad - 1)
                }
            } else {
                spec_angle_close(t, i + 1, ad)
            },
            _ => spec_angle_close(t, i + 1, ad),
        }
    }
}

/// The identifier of the error alternative in a result type, if the type
/// has the recognized shape: an optionally `::`-qualified path whose last
/// segment is `Result` applied to exactly two arguments — a trailing comma
/// permitted — the second of which is one bare identifier.
pub open spec fn spec_resolve(t: Seq<TokView>) -> Option<Seq<char>> {
    let start: int = if t.len() >= 2 && t[0] == TokView::Punct(':') && t[1] == TokView::Punct(':') {
        2
    } else {
        0
    };
    match spec_last_seg(t, start) {
        None => None,
        Some(li) => {
            if t[li] == TokView::Ident("Result"@) && li + 1 < t.len() && t[li + 1]
                == TokView::Punct('<') {
                match spec_angle_close(t, li + 2, 0) {
                    None => None,
                    Some(gt) => {
                        if gt == t.len() - 1 {
                            spec_second_arg(t.subrange(li + 2, gt))
                        } else {
                            None
                        }
                    },
                }
            } else {
                None
            }
        },
    }
}

/// The second of exactly two comma-separated argument regions, provided the
/// first is non-empty and the second is a single identifier.
pub open spec fn spec_second_arg(args: Seq<TokView>) -> Option<Seq<char>> {
    match crate::parse::spec_find_ty(args, 0, ',', 0) {
        None => None,
        Some(cm) => {
            if cm >= 1 {
                let hi: int = match crate::parse::spec_find_ty(args, cm + 1, ',', 0) {
                    Some(c2) => if c2 == args.len() - 1 {
                        c2
                    } else {
                        -1
                    },
                    None => args.len() as int,
                };
                if cm + 2 == hi {
                    match args[cm + 1] {
                        TokView::Ident(name) => Some(name),
                        _ => None,
                    }
                } else {
                    None
                }
            } else {
                None
            }
        },
    }
}

/// The position of the last identifier of a `::`-separated path.
pub(crate) fn last_seg(t: &Vec<Tok>, i: usize) -> (r: Option<usize>)
    requires
        i <= t@.len(),
    ensures
        match r {
            Some(j) => i <= j < t@.len() && spec_last_seg(tok_views(t@), i as int) == Some(
                j as int,
            ),
            None => spec_last_seg(tok_views(t@), i as int) is None,
        },
{
    let ghost tv = tok_views(t@);
    let n = t.len();
    let mut k: usize = i;
    loop
        invariant
            i <= k <= t@.len(),
            n == t@.len(),
            tv == tok_views(t@),
            spec_last_seg(tv, i as int) == spec_last_seg(tv, k as int),
        decreases t@.len() - k,
    {
        match get_ident(t, k) {
            None => {
                return None;
            },
            Some(_) => {
                if at_punct(t, k + 1, ':') && at_punct(t, k + 2, ':') {
                    k = k + 3;
                } else {
                    return Some(k);
                }
            },
        }
    }
}

/// The position of the `>` that closes the angle bracket opened just
/// before `start`.
fn angle_close(t: &Vec<Tok>, start: usize) -> (r: Option<usize>)
    requires
        start <= t@.len(),
    ensures
        match r {
            Some(j) => start <= j < t@.len() && spec_angle_close(tok_views(t@), start as int, 0)
                == Some(j as int),
            None => spec_angle_close(tok_views(t@), start as int, 0) is None,
        },
{
    let ghost tv = tok_views(t@);
    let n = t.len();
    let mut k: usize = start;
    let mut ad: usize = 0;
    loop
        invariant
            start <= k <= t@.len(),
            n == t@.len(),
            ad <= k - start,
            tv == tok_views(t@),
            spec_angle_close(tv, start as int, 0) == spec_angle_close(tv, k as int, ad as int),
        decreases t@.len() - k,
    {
        if k >= n {
            return None;
        }
        match &t[k] {
            Tok::Open(_) => {
                match scan_close(t, k + 1) {
                    Some(j) => {
                        k = j + 1;
                    },
                    None => {
                        return None;
                    },
                }
            },
            Tok::Punct(p) => {
                if *p == '<' {
                    ad = ad + 1;
                    k = k + 1;
                } else if *p == '>' {
                    if ad == 0 {
                        return Some(k);
                    }
                    ad = ad - 1;
                    k = k + 1;
                } else {
                    k = k + 1;
                }
            },
            _ => {
                k = k + 1;
            },
        }
    }
}

/// Resolves the name of the error alternative from the tokens of a
/// function's declared result type.  Returns the name exactly on types of
/// the recognized `Result` shape, and `None` on every other type.
pub fn get_struct_name_from_return_type(t: &Vec<Tok>) -> (r: Option<String>)
    ensures
        match r {
            Some(s) => spec_resolve(tok_views(t@)) == Some(s@),
            None => spec_resolve(tok_views(t@)) is None,
        },
{
    let ghost tv = tok_views(t@);
    let n = t.len();
    let start: usize = if n >= 2 && at_punct(t, 0, ':') && at_punct(t, 1, ':') {
        2
    } else {
        0
    };
    let li = match last_seg(t, start) {
        Some(li) => li,
        None => {
            return None;
        },
    };
    let name = match get_ident(t, li) {
        Some(s) => s,
        None => {
            return None;
        },
    };
    if !str_eq(&name, "Result") {
        return None;
    }
    if !at_punct(t, li + 1, '<') {
        return None;
    }
    let gt = match angle_close(t, li + 2) {
        Some(gt) => gt,
        None => {
            return None;
        },
    };
    if gt + 1 != n {
        return None;
    }
    let args = copy_range(t, li + 2, gt);
    second_arg(&args)
}

/// The second of exactly two comma-separated argument regions, when it is
/// a single bare identifier.
fn second_arg(args: &Vec<Tok>) -> (r: Option<String>)
    ensures
        match r {
            Some(s) => spec_second_arg(tok_views(args@)) == Some(s@),
            None => spec_second_arg(tok_views(args@)) is None,
        },
{
    let ghost av = tok_views(args@);
    let n = args.len();
    let cm = match crate::parse::find_ty(args, 0, ',') {
        Some(cm) => cm,
        None => {
            return None;
        },
    };
    if !(cm >= 1) {
        return None;
    }
    let hi: usize = match crate::parse::find_ty(args, cm + 1, ',') {
        Some(c2) => {
            if c2 + 1 == n {
                c2
            } else {
                return None;
            }
        },
        None => n,
    };
    if !(hi - cm == 2) {
        return None;
    }
    match get_ident(args, cm + 1) {
        Some(s) => Some(s),
        None => None,
    }
}

} // verus!
