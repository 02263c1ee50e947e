//! The pass-through configuration: `derive(...)`, `attributes(...)` (also
//! written `attrs` or `attr`), and `visibility(...)` (also `vis`).
//!
//! The configuration is a comma-separated list of `name ( contents )`
//! items.  Each option may be given at most once; a second occurrence, an
//! unrecognized name, or malformed contents is a fatal [`ConfigError`],
//! reported before any work on the function body begins.

use vstd::prelude::*;

use crate::data::toks2_views;
use crate::parse::attrs_end;
use crate::parse::spec_attrs_end;
use crate::resolve::lemma_last_seg_bounds;
use crate::resolve::last_seg;
use crate::resolve::spec_last_seg;
use crate::token::Delim;
use crate::token::Tok;
use crate::token::TokView;
use crate::token::at_ident_str;
use crate::token::at_open;
use crate::token::at_punct;
use crate::token::copy_range;
use crate::token::copy_toks;
use crate::token::get_ident;
use crate::token::lemma_scan_close_bounds;
use crate::token::scan_close;
use crate::token::spec_scan_close;
use crate::token::str_eq;
use crate::token::tok_views;

verus! {

/// The parsed configuration.  Absent options stay `None`; the assembler
/// fills in its defaults.
#[derive(Debug, PartialEq, Eq)]
pub struct Config {
    /// The verbatim paths listed under `derive(...)`, each a plain
    /// `::`-separated identifier path.
    pub derives: Option<Vec<Vec<Tok>>>,
    /// The verbatim metadata tokens listed under `attributes(...)`,
    /// concatenated in the order given.
    pub attributes: Option<Vec<Tok>>,
    /// The verbatim visibility tokens given under `visibility(...)`.
    pub visibility: Option<Vec<Tok>>,
}

/// Mathematical view of a configuration.
pub ghost struct ConfigV {
    pub derives: Option<Seq<Seq<TokView>>>,
    pub attributes: Option<Seq<TokView>>,
    pub visibility: Option<Seq<TokView>>,
}

impl View for Config {
    type V = ConfigV;

    open spec fn view(&self) -> ConfigV {
        ConfigV {
            derives: match &self.derives {
                Some(d) => Some(toks2_views(d@)),
                None => None,
            },
            attributes: match &self.attributes {
                Some(a) => Some(tok_views(a@)),
                None => None,
            },
            visibility: match &self.visibility {
                Some(v) => Some(tok_views(v@)),
                None => None,
            },
        }
    }
}

impl Default for Config {
    /// The configuration with no option given.
    fn default() -> (r: Self)
        ensures
            r@ == (ConfigV { derives: None, attributes: None, visibility: None }),
    {
        Config { derives: None, attributes: None, visibility: None }
    }
}

/// A malformed configuration: the position of the item at fault and a
/// human-readable message.
#[derive(Debug, PartialEq, Eq)]
pub struct ConfigError {
    /// Index into the configuration token stream where the fault is
    /// anchored.
    pub pos: usize,
    /// What was expected or found.
    pub msg: String,
}

/// The first position after one plain path starting at `i`: an optional
/// leading `::`, then identifiers separated by `::`.
pub open spec fn spec_path_end(t: Seq<TokView>, i: int) -> Option<int> {
    let s: int = if i + 1 < t.len() && t[i] == TokView::Punct(':') && t[i + 1] == TokView::Punct(
        ':',
    ) {
        i + 2
    } else {
        i
    };
    match spec_last_seg(t, s) {
        Some(li) => Some(li + 1),
        None => None,
    }
}

pub proof fn lemma_path_end_bounds(t: Seq<TokView>, i: int)
    requires
        0 <= i,
    ensures
        spec_path_end(t, i) matches Some(e) ==> i < e <= t.len(),
{
    let s: int = if i + 1 < t.len() && t[i] == TokView::Punct(':') && t[i + 1] == TokView::Punct(
        ':',
    ) {
        i + 2
    } else {
        i
    };
    lemma_last_seg_bounds(t, s);
}

/// The comma-separated list of plain paths filling the whole region from
/// `i` to the end; a trailing comma is permitted.
pub open spec fn spec_path_list(t: Seq<TokView>, i: int) -> Option<Seq<Seq<TokView>>>
    decreases t.len() - i,
{
    if i == t.len() {
        Some(Seq::empty())
    } else if !(0 <= i < t.len()) {
        None
    } else {
        match spec_path_end(t, i) {
            None => None,
            Some(e) => {
                proof {
                    lemma_path_end_bounds(t, i);
                }
                let p = t.subrange(i, e);
                if e == t.len() {
                    Some(seq![p])
                } else if t[e] == TokView::Punct(',') {
                    match spec_path_list(t, e + 1) {
                        None => None,
                        Some(rest) => Some(seq![p] + rest),
                    }
                } else {
                    None
                }
            },
        }
    }
}

/// The comma-separated list of metadata runs filling the whole region from
/// `i` to the end, flattened to one verbatim token run.  Each element is
/// one or more `# [ ... ]` attributes.
pub open spec fn spec_attr_list(t: Seq<TokView>, i: int) -> Option<Seq<TokView>>
    decreases t.len() - i,
{
    if i == t.len() {
        Some(Seq::empty())
    } else if !(0 <= i < t.len()) {
        None
    } else {
        match spec_attrs_end(t, i) {
            None => None,
            Some(a) => {
                if a == i {
                    None
                } else {
                    proof {
                        crate::parse::lemma_attrs_end_bounds(t, i);
                    }
                    let run = t.subrange(i, a);
                    if a == t.len() {
                        Some(run)
                    } else if t[a] == TokView::Punct(',') {
                        match spec_attr_list(t, a + 1) {
                            None => None,
                            Some(rest) => Some(run + rest),
                        }
                    } else {
                        None
                    }
                }
            },
        }
    }
}

/// Whether a token run is a well-formed visibility: nothing, `pub`, or
/// `pub` with one parenthesized argument and nothing after it.
pub open spec fn spec_valid_vis(v: Seq<TokView>) -> bool {
    ||| v.len() == 0
    ||| (v.len() >= 1 && v[0] == TokView::Ident("pub"@) && (v.len() == 1 || (v[1] == TokView::Open(
        Delim::Paren,
    ) && spec_scan_close(v, 2, 0) == Some(v.len() - 1))))
}

/// One option applied to the configuration gathered so far: rejects a
/// repeated option, an unrecognized name, and malformed or empty contents.
pub open spec fn spec_apply_option(acc: ConfigV, name: Seq<char>, contents: Seq<TokView>) -> Option<
    ConfigV,
> {
    if name == "derive"@ {
        if acc.derives is Some {
            None
        } else {
            match spec_path_list(contents, 0) {
                None => None,
                Some(ps) => if ps.len() == 0 {
                    None
                } else {
                    Some(ConfigV { derives: Some(ps), ..acc })
                },
            }
        }
    } else if name == "attributes"@ || name == "attrs"@ || name == "attr"@ {
        if acc.attributes is Some {
            None
        } else {
            match spec_attr_list(contents, 0) {
                None => None,
                Some(toks) => if toks.len() == 0 {
                    None
                } else {
                    Some(ConfigV { attributes: Some(toks), ..acc })
                },
            }
        }
    } else if name == "visibility"@ || name == "vis"@ {
        if acc.visibility is Some {
            None
        } else if spec_valid_vis(contents) {
            Some(ConfigV { visibility: Some(contents), ..acc })
        } else {
            None
        }
    } else {
        None
    }
}

/// The whole configuration grammar from position `i` on, applied to the
/// configuration gathered so far.
pub open spec fn spec_config_items(t: Seq<TokView>, i: int, acc: ConfigV) -> Option<ConfigV>
    decreases t.len() - i,
{
    if i == t.len() {
        Some(acc)
    } else if !(0 <= i < t.len()) {
        None
    } else {
        match t[i] {
            TokView::Ident(name) => if i + 1 < t.len() && t[i + 1] == TokView::Open(Delim::Paren) {
                match spec_scan_close(t, i + 2, 0) {
                    None => None,
                    Some(j) => {
                        proof {
                            lemma_scan_close_bounds(t, i + 2, 0);
                        }
                        match spec_apply_option(acc, name, t.subrange(i + 2, j)) {
                            None => None,
                            Some(acc2) => if j + 1 == t.len() {
                                Some(acc2)
                            } else if t[j + 1] == TokView::Punct(',') {
                                spec_config_items(t, j + 2, acc2)
                            } else {
                                None
                            },
                        }
                    },
                }
            } else {
                None
            },
            _ => None,
        }
    }
}

/// The configuration denoted by a whole option token stream, when it is
/// well formed.
pub open spec fn spec_config(t: Seq<TokView>) -> Option<ConfigV> {
    spec_config_items(t, 0, ConfigV { derives: None, attributes: None, visibility: None })
}

fn config_error(pos: usize, msg: &str) -> (r: ConfigError)
    ensures
        r.pos == pos,
{
    ConfigError { pos, msg: msg.to_owned() }
}

/// Parses the comma-separated list of plain paths filling `t`.
fn parse_path_list(t: &Vec<Tok>) -> (r: Option<Vec<Vec<Tok>>>)
    ensures
        match r {
            Some(ps) => spec_path_list(tok_views(t@), 0) == Some(toks2_views(ps@)),
            None => spec_path_list(tok_views(t@), 0) is None,
        },
{
    let ghost tv = tok_views(t@);
    let n = t.len();
    let mut ps: Vec<Vec<Tok>> = Vec::new();
    let mut i: usize = 0;
    proof {
        match spec_path_list(tv, 0) {
            Some(rest) => {
                assert(toks2_views(ps@) + rest =~= rest);
            },
            None => {
            },
        }
    }
    loop
        invariant
            i <= n,
            n == t@.len(),
            tv == tok_views(t@),
            spec_path_list(tv, 0) == (match spec_path_list(tv, i as int) {
                None => None::<Seq<Seq<TokView>>>,
                Some(rest) => Some(toks2_views(ps@) + rest),
            }),
        decreases n - i,
    {
        if i == n {
            proof {
                assert(toks2_views(ps@) + Seq::<Seq<TokView>>::empty() =~= toks2_views(ps@));
            }
            return Some(ps);
        }
        let s: usize = if at_punct(t, i, ':') && at_punct(t, i + 1, ':') {
            i + 2
        } else {
            i
        };
        let li = match last_seg(t, s) {
            Some(li) => li,
            None => {
                return None;
            },
        };
        let e = li + 1;
        let p = copy_range(t, i, e);
        let ghost pv = tok_views(p@);
        let ghost ps0 = ps@;
        ps.push(p);
        proof {
            crate::data::lemma_toks2_views_push(ps0, p);
            match spec_path_list(tv, e as int) {
                Some(rest2) => {
                    assert(toks2_views(ps0) + (seq![pv] + rest2) =~= toks2_views(ps@) + rest2);
                },
                None => {
                },
            }
            assert(toks2_views(ps0) + seq![pv] =~= toks2_views(ps@));
        }
        if e == n {
            return Some(ps);
        }
        if !at_punct(t, e, ',') {
            return None;
        }
        i = e + 1;
    }
}

/// Parses the comma-separated list of metadata runs filling `t` into one
/// flattened verbatim token run.
fn parse_attr_list(t: &Vec<Tok>) -> (r: Option<Vec<Tok>>)
    ensures
        match r {
            Some(toks) => spec_attr_list(tok_views(t@), 0) == Some(tok_views(toks@)),
            None => spec_attr_list(tok_views(t@), 0) is None,
        },
{
    let ghost tv = tok_views(t@);
    let n = t.len();
    let mut acc: Vec<Tok> = Vec::new();
    let mut i: usize = 0;
    proof {
        match spec_attr_list(tv, 0) {
            Some(rest) => {
                assert(tok_views(acc@) + rest =~= rest);
            },
            None => {
            },
        }
    }
    loop
        invariant
            i <= n,
            n == t@.len(),
            tv == tok_views(t@),
            spec_attr_list(tv, 0) == (match spec_attr_list(tv, i as int) {
                None => None::<Seq<TokView>>,
                Some(rest) => Some(tok_views(acc@) + rest),
            }),
        decreases n - i,
    {
        if i == n {
            proof {
                assert(tok_views(acc@) + Seq::<TokView>::empty() =~= tok_views(acc@));
            }
            return Some(acc);
        }
        let a = match attrs_end(t, i) {
            Some(a) => a,
            None => {
                return None;
            },
        };
        if a == i {
            return None;
        }
        let run = copy_range(t, i, a);
        let ghost rv = tok_views(run@);
        let ghost acc0 = acc@;
        crate::token::append_toks(&mut acc, run);
        proof {
            match spec_attr_list(tv, a as int) {
                Some(rest2) => {
                    assert(tok_views(acc0) + (rv + rest2) =~= tok_views(acc@) + rest2);
                },
                None => {
                },
            }
        }
        if a == n {
            return Some(acc);
        }
        if !at_punct(t, a, ',') {
            return None;
        }
        i = a + 1;
    }
}

/// Whether a token run is a well-formed visibility.
fn valid_vis(t: &Vec<Tok>) -> (r: bool)
    ensures
        r == spec_valid_vis(tok_views(t@)),
{
    let n = t.len();
    if n == 0 {
        return true;
    }
    if !at_ident_str(t, 0, "pub") {
        return false;
    }
    if n == 1 {
        return true;
    }
    if !at_open(t, 1, Delim::Paren) {
        return false;
    }
    match scan_close(t, 2) {
        Some(j) => j + 1 == n,
        None => false,
    }
}

impl Config {
    /// Applies one `name ( contents )` option to the configuration
    /// gathered so far.  Errors are anchored at `pos`, the item's start.
    fn parse_stage(
        &mut self,
        name: &String,
        contents: &Vec<Tok>,
        pos: usize,
    ) -> (r: Result<(), ConfigError>)
        ensures
            match r {
                Ok(u) => spec_apply_option(old(self)@, name@, tok_views(contents@)) == Some(
                    final(self)@,
                ),
                Err(e) => spec_apply_option(old(self)@, name@, tok_views(contents@)) is None
                    && e.pos == pos,
            },
    {
        if str_eq(name, "derive") {
            if self.derives.is_some() {
                return Err(config_error(pos, "`derive` specified more than once"));
            }
            let ps = match parse_path_list(contents) {
                Some(ps) => ps,
                None => {
                    return Err(config_error(pos, "malformed `derive` list"));
                },
            };
            if ps.len() == 0 {
                return Err(config_error(pos, "`derive` cannot be empty"));
            }
            self.derives = Some(ps);
            Ok(())
        } else if str_eq(name, "attributes") || str_eq(name, "attrs") || str_eq(name, "attr") {
            if self.attributes.is_some() {
                return Err(config_error(pos, "`attributes` specified more than once"));
            }
            let toks = match parse_attr_list(contents) {
                Some(toks) => toks,
                None => {
                    return Err(config_error(pos, "malformed `attributes` list"));
                },
            };
            if toks.len() == 0 {
                return Err(config_error(pos, "`attributes` cannot be empty"));
            }
            self.attributes = Some(toks);
            Ok(())
        } else if str_eq(name, "visibility") || str_eq(name, "vis") {
            if self.visibility.is_some() {
                return Err(config_error(pos, "`visibility` specified more than once"));
            }
            if !valid_vis(contents) {
                return Err(config_error(pos, "malformed `visibility` argument"));
            }
            self.visibility = Some(copy_toks(contents));
            Ok(())
        } else {
            Err(
                config_error(
                    pos,
                    "unexpected argument, expected `derive` or `attributes` or `visibility`",
                ),
            )
        }
    }

    /// Parses a whole configuration token stream.  Returns the
    /// configuration exactly on well-formed streams, and the first
    /// [`ConfigError`] otherwise.
    pub fn parse(t: &Vec<Tok>) -> (r: Result<Config, ConfigError>)
        ensures
            match r {
                Ok(c) => spec_config(tok_views(t@)) == Some(c@),
                Err(e) => spec_config(tok_views(t@)) is None && e.pos <= t@.len(),
            },
    {
        let ghost tv = tok_views(t@);
        let n = t.len();
        let mut cfg = Config::default();
        let mut i: usize = 0;
        loop
            invariant
                i <= n,
                n == t@.len(),
                tv == tok_views(t@),
                spec_config(tv) == spec_config_items(tv, i as int, cfg@),
            decreases n - i,
        {
            if i == n {
                return Ok(cfg);
            }
            let name = match get_ident(t, i) {
                Some(s) => s,
                None => {
                    return Err(config_error(i, "expected an option name"));
                },
            };
            if !at_open(t, i + 1, Delim::Paren) {
                return Err(config_error(i, "expected parentheses after the option name"));
            }
            let j = match scan_close(t, i + 2) {
                Some(j) => j,
                None => {
                    return Err(config_error(i + 1, "unbalanced parentheses"));
                },
            };
            let contents = copy_range(t, i + 2, j);
            match cfg.parse_stage(&name, &contents, i) {
                Err(e) => {
                    return Err(e);
                },
                Ok(_) => {
                },
            }
            if j + 1 == n {
                return Ok(cfg);
            }
            if !at_punct(t, j + 1, ',') {
                return Err(config_error(j + 1, "expected `,` between options"));
            }
            i = j + 2;
        }
    }
}

} // verus!
