//! The flat token stream that every pass of the library works on.
//!
//! A token is an identifier, a single punctuation character, a literal, or
//! one side of a delimited group.  A whole stream is a `Vec<Tok>`; a group
//! appears in it as an `Open` token, the tokens inside, and the matching
//! `Close` token.  Opaque payloads (types, values, metadata) are carried as
//! sub-ranges of such a stream and never interpreted.

use vstd::prelude::*;

verus! {

/// The kind of bracket that opens or closes a delimited group.
#[derive(Clone, Copy, PartialEq, Eq, Structural, Debug)]
pub enum Delim {
    Paren,
    Brace,
    Bracket,
}

/// One token of a flat token stream.
#[derive(Debug, Clone, PartialEq, Eq)]
pub enum Tok {
    /// An identifier or keyword, e.g. `foo`, `usize`, `pub`.
    Ident(String),
    /// A single punctuation character, e.g. `:`, `=`, `#`.  Multi-character
    /// operators are consecutive `Punct` tokens.
    Punct(char),
    /// A literal, carried verbatim, e.g. `1`, `'a'`, `"hi"`.
    Lit(String),
    /// The opening bracket of a group.
    Open(Delim),
    /// The closing bracket of a group.
    Close(Delim),
}

/// The mathematical value of one token.
pub ghost enum TokView {
    Ident(Seq<char>),
    Punct(char),
    Lit(Seq<char>),
    Open(Delim),
    Close(Delim),
}

impl View for Tok {
    type V = TokView;

    open spec fn view(&self) -> TokView {
        match self {
            Tok::Ident(s) => TokView::Ident(s@),
            Tok::Punct(c) => TokView::Punct(*c),
            Tok::Lit(s) => TokView::Lit(s@),
            Tok::Open(d) => TokView::Open(*d),
            Tok::Close(d) => TokView::Close(*d),
        }
    }
}

/// The views of a token sequence, element by element.
pub open spec fn tok_views(s: Seq<Tok>) -> Seq<TokView> {
    Seq::new(s.len(), |i: int| s[i]@)
}

/// The views of a sequence of strings, element by element.
pub open spec fn str_views(s: Seq<String>) -> Seq<Seq<char>> {
    Seq::new(s.len(), |i: int| s[i]@)
}

pub proof fn lemma_tok_views_push(s: Seq<Tok>, t: Tok)
    ensures
        tok_views(s.push(t)) == tok_views(s).push(t@),
{
    assert(tok_views(s.push(t)) =~= tok_views(s).push(t@));
}

pub proof fn lemma_tok_views_concat(a: Seq<Tok>, b: Seq<Tok>)
    ensures
        tok_views(a + b) == tok_views(a) + tok_views(b),
{
    assert(tok_views(a + b) =~= tok_views(a) + tok_views(b));
}

/// The index of the first closing bracket at nesting level zero, scanning
/// from `i` with `depth` levels already open.  Bracket kinds are not
/// compared: in a balanced stream the count alone finds the partner.
pub open spec fn spec_scan_close(t: Seq<TokView>, i: int, depth: int) -> Option<int>
    decreases t.len() - i,
{
    if !(0 <= i < t.len()) {
        None
    } else {
        match t[i] {
            TokView::Open(_) => spec_scan_close(t, i + 1, depth + 1),
            TokView::Close(_) => if depth == 0 {
                Some(i)
            } else {
                spec_scan_close(t, i + 1, depth - 1)
            },
            _ => spec_scan_close(t, i + 1, depth),
        }
    }
}

pub proof fn lemma_scan_close_bounds(t: Seq<TokView>, i: int, depth: int)
    ensures
        spec_scan_close(t, i, depth) matches Some(j) ==> i <= j < t.len() && t[j] is Close,
    decreases t.len() - i,
{
    if 0 <= i < t.len() {
        match t[i] {
            TokView::Open(_) => lemma_scan_close_bounds(t, i + 1, depth + 1),
            TokView::Close(_) => lemma_scan_close_bounds(t, i + 1, depth - 1),
            _ => lemma_scan_close_bounds(t, i + 1, depth),
        }
    }
}

/// The index of the closing bracket that matches nesting level zero at
/// `start`, if the stream has one.
pub fn scan_close(t: &Vec<Tok>, start: usize) -> (r: Option<usize>)
    ensures
        match r {
            Some(j) => start <= j < t@.len() && spec_scan_close(tok_views(t@), start as int, 0)
                == Some(j as int),
            None => spec_scan_close(tok_views(t@), start as int, 0) is None,
        },
{
    let ghost tv = tok_views(t@);
    let mut i: usize = start;
    let mut depth: usize = 0;
    loop
        invariant
            start <= i,
            depth <= i - start,
            spec_scan_close(tv, start as int, 0) == spec_scan_close(tv, i as int, depth as int),
            tv == tok_views(t@),
        decreases t@.len() - i,
    {
        if i >= t.len() {
            return None;
        }
        match &t[i] {
            Tok::Open(_) => {
                depth = depth + 1;
            },
            Tok::Close(_) => {
                if depth == 0 {
                    return Some(i);
                }
                depth = depth - 1;
            },
            _ => {
            },
        }
        i = i + 1;
    }
}

impl Tok {
    /// A structurally equal copy of the token.
    pub fn dup(&self) -> (t: Tok)
        ensures
            t@ == self@,
    {
        match self {
            Tok::Ident(s) => Tok::Ident(s.clone()),
            Tok::Punct(c) => Tok::Punct(*c),
            Tok::Lit(s) => Tok::Lit(s.clone()),
            Tok::Open(d) => Tok::Open(*d),
            Tok::Close(d) => Tok::Close(*d),
        }
    }
}

/// A copy of the tokens of `t` from index `a` (inclusive) to `b` (exclusive).
pub fn copy_range(t: &Vec<Tok>, a: usize, b: usize) -> (r: Vec<Tok>)
    requires
        a <= b <= t@.len(),
    ensures
        tok_views(r@) == tok_views(t@).subrange(a as int, b as int),
{
    let mut r: Vec<Tok> = Vec::new();
    let mut k: usize = a;
    assert(tok_views(r@) =~= tok_views(t@).subrange(a as int, a as int));
    while k < b
        invariant
            a <= k <= b <= t@.len(),
            tok_views(r@) == tok_views(t@).subrange(a as int, k as int),
        decreases b - k,
    {
        let ghost r0 = r@;
        let x = t[k].dup();
        let ghost xv = x@;
        r.push(x);
        proof {
            lemma_tok_views_push(r0, x);
            assert(tok_views(r@) == tok_views(r0).push(xv));
            assert(tok_views(t@).subrange(a as int, k as int).push(tok_views(t@)[k as int]) =~= tok_views(
                t@,
            ).subrange(a as int, k + 1));
        }
        k = k + 1;
    }
    r
}

/// A structurally equal copy of a whole token stream.
pub fn copy_toks(t: &Vec<Tok>) -> (r: Vec<Tok>)
    ensures
        tok_views(r@) == tok_views(t@),
{
    let r = copy_range(t, 0, t.len());
    proof {
        assert(tok_views(t@).subrange(0, t@.len() as int) =~= tok_views(t@));
    }
    r
}

/// Appends one token, tracked at the level of views.
pub fn push_tok(dst: &mut Vec<Tok>, t: Tok)
    ensures
        tok_views(final(dst)@) == tok_views(old(dst)@).push(t@),
{
    let ghost d0 = dst@;
    let ghost tv = t@;
    dst.push(t);
    proof {
        assert(tok_views(d0.push(dst@[d0.len() as int])) =~= tok_views(d0).push(tv));
    }
}

/// Appends a whole token stream, tracked at the level of views.
pub fn append_toks(dst: &mut Vec<Tok>, src: Vec<Tok>)
    ensures
        tok_views(final(dst)@) == tok_views(old(dst)@) + tok_views(src@),
{
    let ghost d0 = dst@;
    let ghost s0 = src@;
    let mut s = src;
    dst.append(&mut s);
    proof {
        lemma_tok_views_concat(d0, s0);
    }
}

/// Whether position `i` holds the punctuation character `c`.
pub fn at_punct(t: &Vec<Tok>, i: usize, c: char) -> (r: bool)
    ensures
        r == (i < t@.len() && tok_views(t@)[i as int] == TokView::Punct(c)),
{
    if i < t.len() {
        match &t[i] {
            Tok::Punct(p) => *p == c,
            _ => false,
        }
    } else {
        false
    }
}

/// Whether position `i` opens a group with bracket kind `d`.
pub fn at_open(t: &Vec<Tok>, i: usize, d: Delim) -> (r: bool)
    ensures
        r == (i < t@.len() && tok_views(t@)[i as int] == TokView::Open(d)),
{
    if i < t.len() {
        match &t[i] {
            Tok::Open(e) => *e == d,
            _ => false,
        }
    } else {
        false
    }
}

/// The identifier at position `i`, if that position holds one.
pub fn get_ident(t: &Vec<Tok>, i: usize) -> (r: Option<String>)
    ensures
        match r {
            Some(s) => i < t@.len() && tok_views(t@)[i as int] == TokView::Ident(s@),
            None => !(i < t@.len() && tok_views(t@)[i as int] is Ident),
        },
{
    if i < t.len() {
        match &t[i] {
            Tok::Ident(s) => Some(s.clone()),
            _ => None,
        }
    } else {
        None
    }
}

/// The bracket kind at position `i`, if that position opens a group.
pub fn get_open(t: &Vec<Tok>, i: usize) -> (r: Option<Delim>)
    ensures
        match r {
            Some(d) => i < t@.len() && tok_views(t@)[i as int] == TokView::Open(d),
            None => !(i < t@.len() && tok_views(t@)[i as int] is Open),
        },
{
    if i < t.len() {
        match &t[i] {
            Tok::Open(d) => Some(*d),
            _ => None,
        }
    } else {
        None
    }
}

/// Whether position `i` holds exactly the identifier `s`.
pub fn at_ident_str(t: &Vec<Tok>, i: usize, s: &str) -> (r: bool)
    ensures
        r == (i < t@.len() && tok_views(t@)[i as int] == TokView::Ident(s@)),
{
    if i < t.len() {
        match &t[i] {
            Tok::Ident(n) => str_eq(n, s),
            _ => false,
        }
    } else {
        false
    }
}

/// An identifier token made from a string slice.
pub fn ident(s: &str) -> (t: Tok)
    ensures
        t@ == TokView::Ident(s@),
{
    Tok::Ident(s.to_owned())
}

/// Whether the string `a` holds exactly the characters of `b`.
pub fn str_eq(a: &String, b: &str) -> (r: bool)
    ensures
        r == (a@ == b@),
{
    let bo: String = b.to_owned();
    *a == bo
}

} // verus!
