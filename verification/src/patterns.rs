//! Layout decisions for patterns.
//!
//! A pattern is held as a tree of its kinds. The kinds that other parts of the
//! formatter lay out (literals, paths, macro calls, tuples, tuple structs and
//! structs) carry the layout those parts gave them; a range carries the
//! layout the pair formatter gives it across lines, and is laid out here when
//! it fits on one line.
use vstd::prelude::*;
use crate::text::{byte_len, join, join_strings, str_eq};

verus! {

/// The form of a pattern.
#[derive(Debug)]
pub enum PatKind {
    /// `_`
    Wild,
    /// `..`
    Rest,
    /// A binding: `ref`, `mut`, the name, and an optional `@` sub-pattern.
    Ident { by_ref: bool, mutable: bool, ident: String, sub: Option<Box<Pat>> },
    /// `&pat` or `&mut pat`.
    Ref { mutable: bool, pat: Box<Pat> },
    /// `box pat`
    Box(Box<Pat>),
    /// `(pat)`
    Paren(Box<Pat>),
    /// `[pat, ...]`
    Slice(Vec<Pat>),
    /// A literal.
    Lit,
    /// A path, with the number of its segments.
    Path { segments: usize },
    /// `(pat, ...)`
    Tuple(Vec<Pat>),
    /// `Path(pat, ...)`, with the number of the path's segments.
    TupleStruct { segments: usize, pats: Vec<Pat> },
    /// `Path { field: pat, ... }`
    Struct,
    /// A macro call.
    Mac,
    /// `lo..hi`, `lo..=hi` or `lo...hi`
    Range { lo: Box<Pat>, hi: Box<Pat>, end: RangeEnd },
}

/// A pattern: its form, its source text, and, for the kinds laid out
/// elsewhere, the layout given to it (for a range, its layout across lines).
#[derive(Debug)]
pub struct Pat {
    pub kind: PatKind,
    pub snippet: String,
    pub layout: Option<String>,
}

/// The number of items of a tuple or tuple-struct pattern.
pub open spec fn items_len(k: PatKind) -> nat {
    match k {
        PatKind::Tuple(v) => v@.len(),
        PatKind::TupleStruct { pats, .. } => pats@.len(),
        _ => 0,
    }
}

/// A pattern that may stand alone in a unary tuple constructor: a single
/// token (`_`, `..`, a literal, a binding without sub-pattern), or `&`
/// before any pattern that is not a tuple pattern.
pub open spec fn small_token_pattern(p: Pat) -> bool {
    match p.kind {
        PatKind::Rest | PatKind::Wild | PatKind::Lit => true,
        PatKind::Ident { sub, .. } => sub is None,
        PatKind::Ref { pat, .. } => !(pat.kind is Tuple),
        _ => false,
    }
}

/// A pattern is short: a single token (`_`, `..`, a literal, a binding
/// without sub-pattern); `&` before a short pattern or before any pattern
/// that is not a tuple pattern; an empty tuple, or a unary tuple, or a tuple
/// constructor with a one-segment path and no item or one item, that item
/// being a [`small_token_pattern`]; or a box or parentheses around a short
/// pattern. (The single-line limit is checked on the pattern's text, by
/// [`is_short_pattern`].)
pub open spec fn short_pattern(p: Pat) -> bool
    decreases p,
{
    match p.kind {
        PatKind::Rest | PatKind::Wild | PatKind::Lit => true,
        PatKind::Ident { sub, .. } => sub is None,
        PatKind::Struct | PatKind::Mac | PatKind::Slice(_) | PatKind::Path { .. }
        | PatKind::Range { .. } => false,
        PatKind::Tuple(v) => v@.len() == 0 || (v@.len() == 1 && small_token_pattern(v@[0])),
        PatKind::TupleStruct { segments, pats } => segments <= 1 && (pats@.len() == 0 || (
        pats@.len() == 1 && small_token_pattern(pats@[0]))),
        PatKind::Box(inner) => short_pattern(*inner),
        PatKind::Ref { pat, .. } => !(pat.kind is Tuple) || short_pattern(*pat),
        PatKind::Paren(inner) => short_pattern(*inner),
    }
}

/// Whether the pattern is a tuple pattern.
fn is_tuple(p: &Pat) -> (r: bool)
    ensures
        r == (p.kind is Tuple),
{
    match &p.kind {
        PatKind::Tuple(_) => true,
        _ => false,
    }
}

/// Whether a pattern may stand alone in a unary tuple constructor (see
/// [`small_token_pattern`]).
fn is_small_token_pattern(pat: &Pat) -> (r: bool)
    ensures
        r == small_token_pattern(*pat),
{
    match &pat.kind {
        PatKind::Rest | PatKind::Wild | PatKind::Lit => true,
        PatKind::Ident { sub, .. } => sub.is_none(),
        PatKind::Ref { pat: inner, .. } => !is_tuple(inner),
        _ => false,
    }
}

/// Whether the pattern's form is short (see [`short_pattern`]).
pub fn is_short_pattern_inner(pat: &Pat) -> (r: bool)
    ensures
        r == short_pattern(*pat),
    decreases pat,
{
    match &pat.kind {
        PatKind::Rest | PatKind::Wild | PatKind::Lit => true,
        PatKind::Ident { sub, .. } => sub.is_none(),
        PatKind::Struct | PatKind::Mac | PatKind::Slice(_) | PatKind::Path { .. }
        | PatKind::Range { .. } => false,
        PatKind::Tuple(v) => {
            if v.len() == 0 {
                true
            } else if v.len() == 1 {
                is_small_token_pattern(&v[0])
            } else {
                false
            }
        },
        PatKind::TupleStruct { segments, pats } => {
            if *segments > 1 {
                false
            } else if pats.len() == 0 {
                true
            } else if pats.len() == 1 {
                is_small_token_pattern(&pats[0])
            } else {
                false
            }
        },
        PatKind::Box(inner) => is_short_pattern_inner(inner),
        PatKind::Ref { pat: inner, .. } => !is_tuple(inner) || is_short_pattern_inner(inner),
        PatKind::Paren(inner) => is_short_pattern_inner(inner),
    }
}

/// Whether `s` holds a line break.
pub fn contains_newline(s: &str) -> (r: bool)
    ensures
        r == s@.contains('\n'),
{
    let n = s.unicode_len();
    for i in 0..n
        invariant
            n == s@.len(),
            forall|j: int| 0 <= j < i ==> s@[j] != '\n',
    {
        if s.get_char(i) == '\n' {
            assert(s@[i as int] == '\n');
            return true;
        }
    }
    false
}

/// Whether a pattern is short: its text is at most 20 bytes long and on one
/// line, and its form is short.
pub fn is_short_pattern(pat: &Pat, pat_str: &str) -> (r: bool)
    ensures
        r == (pat_str.len() <= 20 && !pat_str@.contains('\n') && short_pattern(*pat)),
{
    pat_str.len() <= 20 && !contains_newline(pat_str) && is_short_pattern_inner(pat)
}

/// An item of a tuple pattern as the list formatter sees it: a pattern, or
/// `..` standing for a run of wildcards.
#[derive(Debug)]
pub enum TuplePatField {
    Pat(Pat),
    Dotdot,
}

/// Whether an item may overflow onto the lines after the opening parenthesis:
/// a path, tuple, struct or tuple-struct pattern that is the only item, with
/// block indentation; a reference or box around such a pattern; a literal
/// when the expression formatter lets it overflow (`lit_overflows`).
pub open spec fn overflowable(
    p: Pat,
    use_block_indent: bool,
    len: usize,
    lit_overflows: bool,
) -> bool
    decreases p,
{
    match p.kind {
        PatKind::Path { .. } | PatKind::Tuple(_) | PatKind::Struct | PatKind::TupleStruct {
            ..
        } => use_block_indent && len == 1,
        PatKind::Ref { pat, .. } => overflowable(*pat, use_block_indent, len, lit_overflows),
        PatKind::Box(inner) => overflowable(*inner, use_block_indent, len, lit_overflows),
        PatKind::Lit => lit_overflows,
        _ => false,
    }
}

/// Whether an item of a tuple pattern may overflow; `..` never does.
pub fn can_be_overflowed_pat(
    use_block_indent: bool,
    pat: &TuplePatField,
    len: usize,
    lit_overflows: bool,
) -> (r: bool)
    ensures
        r == match pat {
            TuplePatField::Pat(p) => overflowable(*p, use_block_indent, len, lit_overflows),
            TuplePatField::Dotdot => false,
        },
{
    match pat {
        TuplePatField::Pat(p) => pat_can_overflow(p, use_block_indent, len, lit_overflows),
        TuplePatField::Dotdot => false,
    }
}

/// Whether a pattern may overflow (see [`overflowable`]).
fn pat_can_overflow(p: &Pat, use_block_indent: bool, len: usize, lit_overflows: bool) -> (r: bool)
    ensures
        r == overflowable(*p, use_block_indent, len, lit_overflows),
    decreases p,
{
    match &p.kind {
        PatKind::Path { .. } | PatKind::Tuple(_) | PatKind::Struct | PatKind::TupleStruct {
            ..
        } => use_block_indent && len == 1,
        PatKind::Ref { pat, .. } => pat_can_overflow(pat, use_block_indent, len, lit_overflows),
        PatKind::Box(inner) => pat_can_overflow(inner, use_block_indent, len, lit_overflows),
        PatKind::Lit => lit_overflows,
        _ => false,
    }
}

/// An item of a list as the list formatter itemizes it: its layout, if it has
/// one, and whether a line comment goes with it.
#[derive(Debug)]
pub struct ListItem {
    pub item: Option<String>,
    pub has_comment: bool,
}

/// The item is laid out as a single wildcard `_`.
pub open spec fn is_wildcard(i: ListItem) -> bool {
    i.item matches Some(s) && s@ == "_"@
}

/// The number of wildcards that end the list: counted from the last item
/// back while items are wildcards, stopping after one that has a comment.
pub open spec fn wildcard_suffix(items: Seq<ListItem>) -> nat
    decreases items.len(),
{
    if items.len() == 0 {
        0
    } else if is_wildcard(items.last()) {
        if items.last().has_comment {
            1
        } else {
            1 + wildcard_suffix(items.drop_last())
        }
    } else {
        0
    }
}

/// The suffix of wildcards is no longer than the list.
pub proof fn lemma_wildcard_suffix_bounded(items: Seq<ListItem>)
    ensures
        wildcard_suffix(items) <= items.len(),
    decreases items.len(),
{
    if items.len() > 0 {
        lemma_wildcard_suffix_bounded(items.drop_last());
    }
}

/// Counts the wildcards that end a list of items (see [`wildcard_suffix`]).
pub fn count_wildcard_suffix_len(items: &Vec<ListItem>) -> (n: usize)
    ensures
        n == wildcard_suffix(items@),
{
    let mut n: usize = 0;
    let mut k: usize = items.len();
    assert(items@.take(k as int) =~= items@);
    while k > 0
        invariant
            k <= items.len(),
            n + k == items.len(),
            n + wildcard_suffix(items@.take(k as int)) == wildcard_suffix(items@),
        decreases k,
    {
        assert(items@.take(k as int).drop_last() =~= items@.take(k - 1));
        assert(items@.take(k as int).last() == items@[k - 1]);
        let item = &items[k - 1];
        let wild = match &item.item {
            Some(s) => str_eq(s.as_str(), "_"),
            None => false,
        };
        if !wild {
            return n;
        }
        n = n + 1;
        if item.has_comment {
            return n;
        }
        k = k - 1;
    }
    n
}

/// The items handed to the list formatter for a tuple pattern: the patterns
/// themselves, except that when condensing is asked for and at least two
/// wildcards end the list, the first of them becomes `..` and the rest are
/// dropped.
pub open spec fn condensed_fields(pats: Seq<Pat>, suffix: nat, condense: bool) -> Seq<
    TuplePatField,
> {
    if condense && suffix >= 2 {
        pats.take(pats.len() - suffix).map_values(|p: Pat| TuplePatField::Pat(p)).push(
            TuplePatField::Dotdot,
        )
    } else {
        pats.map_values(|p: Pat| TuplePatField::Pat(p))
    }
}

/// How a tuple pattern is laid out: an empty one directly as text, the others
/// by the list formatter from a path and items.
#[derive(Debug)]
pub enum TuplePatLayout {
    Text(String),
    List { path: String, items: Vec<TuplePatField> },
}

/// Decides the layout of a tuple or tuple-struct pattern with the given path
/// text (none for a tuple). `items` is how the list formatter itemizes the
/// patterns, one item per pattern.
pub fn rewrite_tuple_pat(
    pats: Vec<Pat>,
    path_str: Option<String>,
    items: &Vec<ListItem>,
    condense: bool,
) -> (r: TuplePatLayout)
    requires
        items@.len() == pats@.len(),
    ensures
        pats@.len() == 0 ==> (r matches TuplePatLayout::Text(t) && t@ == opt_or_empty(path_str)
            + "()"@),
        pats@.len() > 0 ==> (r matches TuplePatLayout::List { path, items: fields } && path@
            == opt_or_empty(path_str) && fields@ == condensed_fields(
            pats@,
            wildcard_suffix(items@),
            condense,
        )),
{
    let path = match path_str {
        Some(p) => p,
        None => String::new(),
    };
    if pats.len() == 0 {
        let mut t = path;
        t.append("()");
        return TuplePatLayout::Text(t);
    }
    let suffix = count_wildcard_suffix_len(items);
    proof {
        lemma_wildcard_suffix_bounded(items@);
    }
    let keep = if condense && suffix >= 2 {
        pats.len() - suffix
    } else {
        pats.len()
    };
    let ghost all = pats@;
    let n = pats.len();
    let mut rest = pats;
    let mut rev: Vec<Pat> = Vec::new();
    while rest.len() > 0
        invariant
            rest.len() + rev.len() == n,
            n == all.len(),
            forall|j: int| 0 <= j < rest@.len() ==> #[trigger] rest@[j] == all[j],
            forall|j: int| 0 <= j < rev@.len() ==> #[trigger] rev@[j] == all[n - 1 - j],
        decreases rest.len(),
    {
        let p = rest.pop().unwrap();
        rev.push(p);
    }
    let mut fields: Vec<TuplePatField> = Vec::new();
    while fields.len() < keep
        invariant
            keep <= n,
            n == all.len(),
            fields.len() <= keep,
            fields.len() + rev.len() == n,
            forall|j: int| 0 <= j < fields@.len() ==> #[trigger] fields@[j] == TuplePatField::Pat(all[j]),
            forall|j: int| 0 <= j < rev@.len() ==> #[trigger] rev@[j] == all[n - 1 - j],
        decreases keep - fields.len(),
    {
        let p = rev.pop().unwrap();
        fields.push(TuplePatField::Pat(p));
    }
    if keep < n {
        fields.push(TuplePatField::Dotdot);
        let ghost expected = all.take(keep as int).map_values(|p: Pat| TuplePatField::Pat(p)).push(
            TuplePatField::Dotdot,
        );
        assert(fields@.len() == expected.len());
        assert forall|j: int| 0 <= j < fields@.len() implies fields@[j] == expected[j] by {
            if j < keep {
                assert(fields@[j] == TuplePatField::Pat(all[j]));
            }
        }
        assert(fields@ =~= expected);
    } else {
        assert(fields@ =~= all.map_values(|p: Pat| TuplePatField::Pat(p)));
    }
    assert(fields@ =~= condensed_fields(all, wildcard_suffix(items@), condense));
    TuplePatLayout::List { path, items: fields }
}

/// The text of an optional path, empty when there is none.
pub open spec fn opt_or_empty(s: Option<String>) -> Seq<char> {
    match s {
        Some(t) => t@,
        None => Seq::empty(),
    }
}

/// `mut ` for a mutable binding or reference, nothing otherwise.
pub open spec fn mut_text(mutable: bool) -> Seq<char> {
    if mutable {
        "mut "@
    } else {
        Seq::empty()
    }
}

/// The layout of a pattern in a line of `width` columns, if it fits.
/// `box`, references and parentheses take their prefix (and closing
/// parenthesis) out of the width; a binding takes its prefix, name and ` @ `
/// out of the width left to its sub-pattern; `_` and `..` need one column; a
/// slice lays out each item, falling back to the item's source text. A range
/// is `lo`, the operator ([`range_infix_text`]) and `hi` when its ends lay out
/// on one line within the width (`hi` in what `lo` and the operator leave),
/// none when `lo` has no layout, and its carried layout otherwise. A struct
/// pattern needs two columns for ` {`. The other kinds laid out elsewhere have
/// the layout they carry.
pub open spec fn rewrite_pat(p: Pat, width: int, spaced_ranges: bool) -> Option<Seq<char>>
    decreases p,
{
    match p.kind {
        PatKind::Box(inner) => if width >= 4 {
            match rewrite_pat(*inner, width - 4, spaced_ranges) {
                Some(r) => Some("box "@ + r),
                None => None,
            }
        } else {
            None
        },
        PatKind::Ident { by_ref, mutable, ident, sub } => {
            let head = (if by_ref {
                "ref "@
            } else {
                Seq::empty()
            }) + mut_text(mutable) + ident@;
            match sub {
                None => Some(head),
                Some(sp) => {
                    let need = (if by_ref {
                        4int
                    } else {
                        0int
                    }) + mut_text(mutable).len() + (byte_len(ident@) as usize) + 3;
                    if width >= need {
                        match rewrite_pat(*sp, width - need, spaced_ranges) {
                            Some(r) => Some(head + " @ "@ + r),
                            None => None,
                        }
                    } else {
                        None
                    }
                },
            }
        },
        PatKind::Wild => if 1 <= width {
            Some("_"@)
        } else {
            None
        },
        PatKind::Rest => if 1 <= width {
            Some(".."@)
        } else {
            None
        },
        PatKind::Ref { mutable, pat } => {
            let prefix = "&"@ + mut_text(mutable);
            if width >= prefix.len() {
                match rewrite_pat(*pat, width - prefix.len(), spaced_ranges) {
                    Some(r) => Some(prefix + r),
                    None => None,
                }
            } else {
                None
            }
        },
        PatKind::Paren(inner) => if width >= 2 {
            match rewrite_pat(*inner, width - 2, spaced_ranges) {
                Some(r) => Some("("@ + r + ")"@),
                None => None,
            }
        } else {
            None
        },
        PatKind::Slice(v) => Some("["@ + join(rewrite_items(v@, width, spaced_ranges), ", "@) + "]"@),
        PatKind::Range { lo, hi, end } => {
            let infix = range_infix_text(end, spaced_ranges);
            match rewrite_pat(*lo, width, spaced_ranges) {
                None => None,
                Some(l) => {
                    let used = (byte_len(l) as usize) + (byte_len(infix) as usize);
                    let one_line = if used <= width {
                        match rewrite_pat(*hi, width - used, spaced_ranges) {
                            Some(h) => if !l.contains('\n') && !h.contains('\n') && used + (
                            byte_len(h) as usize) <= width {
                                Some(l + infix + h)
                            } else {
                                None
                            },
                            None => None,
                        }
                    } else {
                        None
                    };
                    match one_line {
                        Some(t) => Some(t),
                        None => carried(p.layout),
                    }
                },
            }
        },
        PatKind::Struct => if width >= 2 {
            carried(p.layout)
        } else {
            None
        },
        _ => carried(p.layout),
    }
}

/// The layout a pattern carries, as text.
pub open spec fn carried(layout: Option<String>) -> Option<Seq<char>> {
    match layout {
        Some(l) => Some(l@),
        None => None,
    }
}

/// The layout of each item of a slice pattern: the item's layout, or its
/// source text when it does not fit.
pub open spec fn rewrite_items(pats: Seq<Pat>, width: int, spaced_ranges: bool) -> Seq<Seq<char>>
    decreases pats,
{
    if pats.len() == 0 {
        Seq::empty()
    } else {
        rewrite_items(pats.drop_last(), width, spaced_ranges).push(
            match rewrite_pat(pats.last(), width, spaced_ranges) {
                Some(r) => r,
                None => pats.last().snippet@,
            },
        )
    }
}

/// The model of an optional text.
pub open spec fn opt_str(r: Option<String>) -> Option<Seq<char>> {
    match r {
        Some(s) => Some(s@),
        None => None,
    }
}

impl Pat {
    /// Lays the pattern out in a line of `width` columns, with spaces around
    /// the operator of a range when `spaced_ranges` is set (see [`rewrite_pat`]).
    pub fn rewrite(&self, width: usize, spaced_ranges: bool) -> (r: Option<String>)
        ensures
            opt_str(r) == rewrite_pat(*self, width as int, spaced_ranges),
        decreases self,
    {
        proof {
            reveal_strlit("mut ");
            reveal_strlit("ref ");
            reveal_strlit("&");
        }
        match &self.kind {
            PatKind::Box(inner) => {
                if width < 4 {
                    return None;
                }
                match inner.rewrite(width - 4, spaced_ranges) {
                    Some(r) => {
                        let mut s = "box ".to_owned();
                        s.append(r.as_str());
                        Some(s)
                    },
                    None => None,
                }
            },
            PatKind::Ident { by_ref, mutable, ident, sub } => {
                let mut head = String::new();
                if *by_ref {
                    head.append("ref ");
                }
                if *mutable {
                    head.append("mut ");
                }
                head.append(ident.as_str());
                assert(head@ =~= (if *by_ref {
                    "ref "@
                } else {
                    Seq::empty()
                }) + mut_text(*mutable) + ident@);
                match sub {
                    None => Some(head),
                    Some(sp) => {
                        let prefix_len: usize = if *by_ref {
                            4
                        } else {
                            0
                        };
                        let mut_len: usize = if *mutable {
                            4
                        } else {
                            0
                        };
                        let need = match ident.as_str().len().checked_add(prefix_len + mut_len + 3) {
                            Some(n) => n,
                            None => {
                                return None;
                            },
                        };
                        if width < need {
                            return None;
                        }
                        match sp.rewrite(width - need, spaced_ranges) {
                            Some(r) => {
                                head.append(" @ ");
                                head.append(r.as_str());
                                Some(head)
                            },
                            None => None,
                        }
                    },
                }
            },
            PatKind::Wild => if 1 <= width {
                Some("_".to_owned())
            } else {
                None
            },
            PatKind::Rest => if 1 <= width {
                Some("..".to_owned())
            } else {
                None
            },
            PatKind::Ref { mutable, pat } => {
                let mut prefix = "&".to_owned();
                if *mutable {
                    prefix.append("mut ");
                }
                let plen: usize = if *mutable {
                    5
                } else {
                    1
                };
                assert(prefix@ =~= "&"@ + mut_text(*mutable));
                if width < plen {
                    return None;
                }
                match pat.rewrite(width - plen, spaced_ranges) {
                    Some(r) => {
                        prefix.append(r.as_str());
                        Some(prefix)
                    },
                    None => None,
                }
            },
            PatKind::Paren(inner) => {
                if width < 2 {
                    return None;
                }
                match inner.rewrite(width - 2, spaced_ranges) {
                    Some(r) => {
                        let mut s = "(".to_owned();
                        s.append(r.as_str());
                        s.append(")");
                        Some(s)
                    },
                    None => None,
                }
            },
            PatKind::Slice(v) => {
                let mut parts: Vec<String> = Vec::new();
                assert(v@.take(0) =~= Seq::<Pat>::empty());
                for i in 0..v.len()
                    invariant
                        parts@.map_values(|s: String| s@) == rewrite_items(
                            v@.take(i as int),
                            width as int,
                            spaced_ranges,
                        ),
                        self.kind == PatKind::Slice(*v),
                {
                    assert(v@.take(i + 1).drop_last() =~= v@.take(i as int));
                    proof {
                        assert(decreases_to!(*self => self.kind));
                        assert(self.kind->Slice_0 == *v);
                        assert(decreases_to!(self.kind => self.kind->Slice_0));
                        assert(decreases_to!(*v => v@));
                        assert(decreases_to!(v@ => v@[i as int]));
                    }
                    let piece = match v[i].rewrite(width, spaced_ranges) {
                        Some(r) => r,
                        None => v[i].snippet.clone(),
                    };
                    let ghost before = parts@.map_values(|s: String| s@);
                    parts.push(piece);
                    assert(parts@.map_values(|s: String| s@) =~= before.push(piece@));
                }
                assert(v@.take(v.len() as int) =~= v@);
                let inner = join_strings(&parts, ", ");
                let mut s = "[".to_owned();
                s.append(inner.as_str());
                s.append("]");
                Some(s)
            },
            PatKind::Range { lo, hi, end } => {
                let infix = range_infix(end, spaced_ranges);
                let l = match lo.rewrite(width, spaced_ranges) {
                    Some(l) => l,
                    None => {
                        return None;
                    },
                };
                let one_line = match l.as_str().len().checked_add(infix.as_str().len()) {
                    Some(used) => if used <= width {
                        match hi.rewrite(width - used, spaced_ranges) {
                            Some(h) => {
                                let fits = match used.checked_add(h.as_str().len()) {
                                    Some(total) => total <= width,
                                    None => false,
                                };
                                if fits && !contains_newline(l.as_str()) && !contains_newline(
                                    h.as_str(),
                                ) {
                                    let mut t = l.clone();
                                    t.append(infix.as_str());
                                    t.append(h.as_str());
                                    Some(t)
                                } else {
                                    None
                                }
                            },
                            None => None,
                        }
                    } else {
                        None
                    },
                    None => None,
                };
                match one_line {
                    Some(t) => Some(t),
                    None => carried_layout(&self.layout),
                }
            },
            PatKind::Struct => if width >= 2 {
                carried_layout(&self.layout)
            } else {
                None
            },
            _ => carried_layout(&self.layout),
        }
    }
}

/// A copy of the layout a pattern carries.
fn carried_layout(layout: &Option<String>) -> (r: Option<String>)
    ensures
        opt_str(r) == carried(*layout),
{
    match layout {
        Some(l) => Some(l.clone()),
        None => None,
    }
}

/// How a range pattern ends.
#[derive(Debug)]
pub enum RangeEnd {
    /// `lo...hi`
    DotDotDot,
    /// `lo..=hi`
    DotDotEq,
    /// `lo..hi`
    Excluded,
}

/// The operator of a range pattern, with a space on each side when asked for.
pub open spec fn range_infix_text(end: RangeEnd, spaces_around: bool) -> Seq<char> {
    let op = match end {
        RangeEnd::DotDotDot => "..."@,
        RangeEnd::DotDotEq => "..="@,
        RangeEnd::Excluded => ".."@,
    };
    if spaces_around {
        " "@ + op + " "@
    } else {
        op
    }
}

/// The operator that the pair formatter puts between the ends of a range pattern.
pub fn range_infix(end: &RangeEnd, spaces_around: bool) -> (r: String)
    ensures
        r@ == range_infix_text(*end, spaces_around),
{
    let op = match end {
        RangeEnd::DotDotDot => "...",
        RangeEnd::DotDotEq => "..=",
        RangeEnd::Excluded => "..",
    };
    if spaces_around {
        let mut r = " ".to_owned();
        r.append(op);
        r.append(" ");
        r
    } else {
        op.to_owned()
    }
}

/// A field of a struct pattern: `ident: pat`, or `pat` alone in shorthand.
#[derive(Debug)]
pub struct FieldPat {
    pub ident: String,
    pub pat: Pat,
    pub is_shorthand: bool,
}

/// Where a field pattern goes when it does not fit on one line: the width of
/// the block-indented line below and that line's indentation.
#[derive(Debug)]
pub struct NestedShape {
    pub width: usize,
    pub indent: String,
}

/// The layout of a field pattern: in shorthand, the pattern's; otherwise
/// `ident: pat` when it fits in `width` columns, else `ident:` and the
/// pattern on the indented line below, laid out in that line's width.
pub open spec fn rewrite_field(
    f: FieldPat,
    width: int,
    nested: NestedShape,
    spaced_ranges: bool,
) -> Option<Seq<char>> {
    match rewrite_pat(f.pat, width, spaced_ranges) {
        None => None,
        Some(p) => if f.is_shorthand {
            Some(p)
        } else if (byte_len(f.ident@) as usize) + 2 + (byte_len(p) as usize) <= width {
            Some(f.ident@ + ": "@ + p)
        } else {
            match rewrite_pat(f.pat, nested.width as int, spaced_ranges) {
                Some(q) => Some(f.ident@ + ":\n"@ + nested.indent@ + q),
                None => None,
            }
        },
    }
}

impl FieldPat {
    /// Lays a field pattern out (see [`rewrite_field`]).
    pub fn rewrite(&self, width: usize, nested: &NestedShape, spaced_ranges: bool) -> (r: Option<
        String,
    >)
        ensures
            opt_str(r) == rewrite_field(*self, width as int, *nested, spaced_ranges),
    {
        let pat_str = match self.pat.rewrite(width, spaced_ranges) {
            Some(p) => p,
            None => {
                return None;
            },
        };
        if self.is_shorthand {
            return Some(pat_str);
        }
        let fits = match self.ident.as_str().len().checked_add(2) {
            Some(a) => match a.checked_add(pat_str.as_str().len()) {
                Some(w) => w <= width,
                None => false,
            },
            None => false,
        };
        if fits {
            let mut r = self.ident.clone();
            r.append(": ");
            r.append(pat_str.as_str());
            Some(r)
        } else {
            match self.pat.rewrite(nested.width, spaced_ranges) {
                Some(q) => {
                    let mut r = self.ident.clone();
                    r.append(":\n");
                    r.append(nested.indent.as_str());
                    r.append(q.as_str());
                    Some(r)
                },
                None => None,
            }
        }
    }
}

/// How a struct pattern starts: one without fields and without `..` is
/// complete; the others go to the list formatter with the text that ends the
/// list for `..` (if any) and the list's terminator.
#[derive(Debug)]
pub enum StructPatStart {
    Complete(String),
    Fields { ellipsis_str: String, terminator: String },
}

/// Starts laying out a struct pattern with the given path text: tells what
/// the list formatter is given for the fields.
pub fn struct_pat_start(path_str: &str, n_fields: usize, ellipsis: bool) -> (r: StructPatStart)
    ensures
        n_fields == 0 && !ellipsis ==> (r matches StructPatStart::Complete(t) && t@ == path_str@
            + " {}"@),
        !(n_fields == 0 && !ellipsis) ==> (r matches StructPatStart::Fields {
            ellipsis_str,
            terminator,
        } && ellipsis_str@ == (if ellipsis {
            ", .."@
        } else {
            ""@
        }) && terminator@ == (if ellipsis {
            ".."@
        } else {
            "}"@
        })),
{
    if n_fields == 0 && !ellipsis {
        let mut t = path_str.to_owned();
        t.append(" {}");
        return StructPatStart::Complete(t);
    }
    if ellipsis {
        StructPatStart::Fields { ellipsis_str: ", ..".to_owned(), terminator: "..".to_owned() }
    } else {
        StructPatStart::Fields { ellipsis_str: "".to_owned(), terminator: "}".to_owned() }
    }
}

/// The fields of a struct pattern with `..` added: on a line of its own,
/// after a comma when trailing commas are never written, when the fields span
/// lines or exceed the one-line width; otherwise after the fields, separated
/// by a space when the fields are laid out vertically and by `, ` otherwise.
/// Without `..` the fields stay as they are.
pub open spec fn struct_fields_text(
    fields: Seq<char>,
    ellipsis: bool,
    one_line_width: int,
    trailing_comma_never: bool,
    vertical: bool,
    indent: Seq<char>,
) -> Seq<char> {
    if !ellipsis {
        fields
    } else if fields.contains('\n') || (byte_len(fields) as usize) > one_line_width {
        fields + (if trailing_comma_never {
            ","@
        } else {
            ""@
        }) + "\n"@ + indent + ".."@
    } else if fields.len() == 0 {
        ".."@
    } else {
        fields + (if vertical {
            " "@
        } else {
            ", "@
        }) + ".."@
    }
}

/// Adds `..` to the fields of a struct pattern (see [`struct_fields_text`]).
pub fn struct_pat_fields(
    fields: String,
    ellipsis: bool,
    one_line_width: usize,
    trailing_comma_never: bool,
    vertical: bool,
    indent: &str,
) -> (r: String)
    ensures
        r@ == struct_fields_text(
            fields@,
            ellipsis,
            one_line_width as int,
            trailing_comma_never,
            vertical,
            indent@,
        ),
{
    if !ellipsis {
        return fields;
    }
    proof {
        reveal_strlit("");
    }
    let mut f = fields;
    if contains_newline(f.as_str()) || f.as_str().len() > one_line_width {
        let ghost before = f@;
        if trailing_comma_never {
            f.append(",");
        }
        f.append("\n");
        f.append(indent);
        f.append("..");
        assert(f@ =~= before + (if trailing_comma_never {
            ","@
        } else {
            ""@
        }) + "\n"@ + indent@ + ".."@);
        f
    } else {
        if !f.as_str().is_empty() {
            if vertical {
                f.append(" ");
            } else {
                f.append(", ");
            }
        }
        let ghost before = f@;
        f.append("..");
        assert(before.len() == 0 ==> f@ =~= ".."@);
        f
    }
}

/// The fields of a struct pattern as the list formatter wrote them.
#[derive(Debug)]
pub struct StructFieldList {
    /// The text of the fields.
    pub text: String,
    /// Whether the list was laid out one field per line.
    pub vertical: bool,
    /// The width left for the fields when they stay on the pattern's line
    /// (0 when they cannot).
    pub one_line_width: usize,
    /// The indentation of the fields' lines when they go below the pattern's.
    pub nested_indent: String,
}

/// The settings that shape a struct pattern.
#[derive(Debug)]
pub struct StructLitStyle {
    /// The indent style is `Block`.
    pub block_indent: bool,
    /// `struct_lit_single_line` is set.
    pub single_line: bool,
    /// `trailing_comma` is `Never`.
    pub trailing_comma_never: bool,
    /// The indentation of the pattern's own line.
    pub indent: String,
}

/// The fields between the braces: on lines of their own, below the
/// pattern's line and with the closing brace on a line at the pattern's
/// indentation, when the style is block-indented and the fields span lines,
/// single-line struct literals are not wanted, or they exceed the one-line
/// width; otherwise on the pattern's line with a space on each side.
pub open spec fn wrapped_fields(
    fields: Seq<char>,
    style: StructLitStyle,
    nested_indent: Seq<char>,
    one_line_width: int,
) -> Seq<char> {
    if style.block_indent && (fields.contains('\n') || !style.single_line || (byte_len(fields) as usize)
        > one_line_width) {
        "\n"@ + nested_indent + fields + "\n"@ + style.indent@
    } else {
        " "@ + fields + " "@
    }
}

/// The layout of a struct pattern in `width` columns: none when fewer than
/// two columns are left for ` {`, or when the path (laid out in the width
/// less those two) or the fields have no layout; `path {}` without fields
/// and without `..`; otherwise the path, ` {`, the fields with `..` placed as
/// [`struct_fields_text`] says and wrapped as [`wrapped_fields`] says, and `}`.
pub open spec fn struct_pat_layout(
    path_str: Option<Seq<char>>,
    width: int,
    n_fields: nat,
    ellipsis: bool,
    fields: Option<StructFieldList>,
    style: StructLitStyle,
) -> Option<Seq<char>> {
    if width < 2 {
        None
    } else {
        match path_str {
            None => None,
            Some(p) => if n_fields == 0 && !ellipsis {
                Some(p + " {}"@)
            } else {
                match fields {
                    None => None,
                    Some(f) => {
                        let text = struct_fields_text(
                            f.text@,
                            ellipsis,
                            f.one_line_width as int,
                            style.trailing_comma_never,
                            f.vertical,
                            f.nested_indent@,
                        );
                        Some(
                            p + " {"@ + wrapped_fields(
                                text,
                                style,
                                f.nested_indent@,
                                f.one_line_width as int,
                            ) + "}"@,
                        )
                    },
                }
            },
        }
    }
}

/// Puts the fields between the braces (see [`wrapped_fields`]).
pub fn wrap_struct_fields(
    fields: &str,
    style: &StructLitStyle,
    nested_indent: &str,
    one_line_width: usize,
) -> (r: String)
    ensures
        r@ == wrapped_fields(fields@, *style, nested_indent@, one_line_width as int),
{
    let vertical = style.block_indent && (contains_newline(fields) || !style.single_line
        || fields.len() > one_line_width);
    if vertical {
        let mut r = "\n".to_owned();
        r.append(nested_indent);
        r.append(fields);
        r.append("\n");
        r.append(style.indent.as_str());
        r
    } else {
        let mut r = " ".to_owned();
        r.append(fields);
        r.append(" ");
        r
    }
}

/// Lays a struct pattern out in `width` columns (see [`struct_pat_layout`]).
/// `path_str` is the path laid out in the width less two columns, `fields`
/// what the list formatter wrote for the fields; either is none where it
/// had no layout.
pub fn rewrite_struct_pat(
    path_str: Option<String>,
    width: usize,
    n_fields: usize,
    ellipsis: bool,
    fields: Option<StructFieldList>,
    style: &StructLitStyle,
) -> (r: Option<String>)
    ensures
        opt_str(r) == struct_pat_layout(
            opt_str(path_str),
            width as int,
            n_fields as nat,
            ellipsis,
            fields,
            *style,
        ),
{
    if width < 2 {
        return None;
    }
    let path = match path_str {
        Some(p) => p,
        None => {
            return None;
        },
    };
    if n_fields == 0 && !ellipsis {
        let mut t = path;
        t.append(" {}");
        return Some(t);
    }
    let list = match fields {
        Some(f) => f,
        None => {
            return None;
        },
    };
    let text = struct_pat_fields(
        list.text,
        ellipsis,
        list.one_line_width,
        style.trailing_comma_never,
        list.vertical,
        list.nested_indent.as_str(),
    );
    let inner = wrap_struct_fields(
        text.as_str(),
        style,
        list.nested_indent.as_str(),
        list.one_line_width,
    );
    let mut t = path;
    t.append(" {");
    t.append(inner.as_str());
    t.append("}");
    Some(t)
}

/// A pattern in a box or in parentheses is short exactly when the pattern
/// inside is; behind a reference it is short exactly when the pattern inside
/// is short or is not a tuple pattern.
pub proof fn law_short_under_wrappers(p: Pat, snippet: String, layout: Option<String>, mutable: bool)
    ensures
        short_pattern(Pat { kind: PatKind::Box(Box::new(p)), snippet, layout }) == short_pattern(p),
        short_pattern(Pat { kind: PatKind::Ref { mutable, pat: Box::new(p) }, snippet, layout })
            == (!(p.kind is Tuple) || short_pattern(p)),
        short_pattern(Pat { kind: PatKind::Paren(Box::new(p)), snippet, layout }) == short_pattern(
            p,
        ),
{
}

/// Every item counted as a trailing wildcard is a wildcard, and the count
/// never exceeds the number of items.
pub proof fn law_wildcard_suffix_items(items: Seq<ListItem>)
    ensures
        wildcard_suffix(items) <= items.len(),
        forall|j: int|
            items.len() - wildcard_suffix(items) <= j < items.len() ==> is_wildcard(
                #[trigger] items[j],
            ),
    decreases items.len(),
{
    lemma_wildcard_suffix_bounded(items);
    if items.len() > 0 && is_wildcard(items.last()) && !items.last().has_comment {
        law_wildcard_suffix_items(items.drop_last());
        assert forall|j: int|
            items.len() - wildcard_suffix(items) <= j < items.len() implies is_wildcard(
                #[trigger] items[j],
            ) by {
            if j < items.len() - 1 {
                assert(items.drop_last()[j] == items[j]);
            }
        }
    }
}

/// Condensing a suffix of at least two wildcards keeps the patterns before
/// it, in order, and puts a single `..` in place of the suffix.
pub proof fn law_condensed_fields(pats: Seq<Pat>, suffix: nat)
    requires
        2 <= suffix <= pats.len(),
    ensures
        condensed_fields(pats, suffix, true).len() == pats.len() - suffix + 1,
        condensed_fields(pats, suffix, true).last() == TuplePatField::Dotdot,
        forall|i: int|
            0 <= i < pats.len() - suffix ==> #[trigger] condensed_fields(pats, suffix, true)[i]
                == TuplePatField::Pat(pats[i]),
        condensed_fields(pats, suffix, false) == pats.map_values(|p: Pat| TuplePatField::Pat(p)),
{
}

/// The layout of an item of a tuple pattern: a pattern's own, or `..`.
pub open spec fn rewrite_field_item(f: TuplePatField, width: int, spaced_ranges: bool) -> Option<
    Seq<char>,
> {
    match f {
        TuplePatField::Pat(p) => rewrite_pat(p, width, spaced_ranges),
        TuplePatField::Dotdot => Some(".."@),
    }
}

impl TuplePatField {
    /// Lays an item of a tuple pattern out (see [`rewrite_field_item`]).
    pub fn rewrite(&self, width: usize, spaced_ranges: bool) -> (r: Option<String>)
        ensures
            opt_str(r) == rewrite_field_item(*self, width as int, spaced_ranges),
    {
        match self {
            TuplePatField::Pat(p) => p.rewrite(width, spaced_ranges),
            TuplePatField::Dotdot => Some("..".to_owned()),
        }
    }
}

/// Every single token is short and may stand alone in a unary tuple
/// constructor: `_`, `..`, a literal, and a binding without sub-pattern.
pub proof fn law_single_tokens_are_short(p: Pat)
    requires
        p.kind is Wild || p.kind is Rest || p.kind is Lit || (p.kind matches PatKind::Ident {
            sub,
            ..
        } && sub is None),
    ensures
        short_pattern(p),
        small_token_pattern(p),
{
}

/// Struct, macro, slice, path and range patterns are never short, nor a
/// binding with a sub-pattern, a tuple of two or more items, or a tuple
/// constructor whose path has two or more segments or that has two or more
/// items.
pub proof fn law_long_forms_are_not_short(p: Pat)
    ensures
        p.kind is Struct || p.kind is Mac || p.kind is Slice || p.kind is Path || p.kind is Range
            ==> !short_pattern(p),
        (p.kind matches PatKind::Ident { sub, .. } && sub is Some) ==> !short_pattern(p),
        (p.kind matches PatKind::Tuple(v) && v@.len() >= 2) ==> !short_pattern(p),
        (p.kind matches PatKind::TupleStruct { segments, .. } && segments >= 2) ==> !short_pattern(
            p,
        ),
        (p.kind matches PatKind::TupleStruct { pats, .. } && pats@.len() >= 2) ==> !short_pattern(
            p,
        ),
{
}

/// An empty tuple, and a tuple constructor with a one-segment path and no
/// item, are short; a unary tuple, or a unary tuple constructor with a
/// one-segment path, around a single token is short.
pub proof fn law_unary_constructors(p: Pat, q: Pat)
    requires
        q.kind is Wild || q.kind is Rest || q.kind is Lit || (q.kind matches PatKind::Ident {
            sub,
            ..
        } && sub is None),
    ensures
        (p.kind matches PatKind::Tuple(v) && v@.len() == 0) ==> short_pattern(p),
        (p.kind matches PatKind::TupleStruct { segments, pats } && segments <= 1 && pats@.len()
            == 0) ==> short_pattern(p),
        (p.kind matches PatKind::Tuple(v) && v@ == seq![q]) ==> short_pattern(p),
        (p.kind matches PatKind::TupleStruct { segments, pats } && segments <= 1 && pats@ == seq![
            q,
        ]) ==> short_pattern(p),
{
}

/// A path, tuple, struct or tuple-struct pattern may overflow exactly when
/// block indentation is used and it is the only item; a literal exactly
/// when the expression formatter lets it; a pattern behind a reference or
/// in a box exactly when the pattern inside may; no other pattern may.
pub proof fn law_overflow_kinds(p: Pat, use_block_indent: bool, len: usize, lit_overflows: bool)
    ensures
        p.kind is Path ==> overflowable(p, use_block_indent, len, lit_overflows) == (
        use_block_indent && len == 1),
        p.kind is Tuple ==> overflowable(p, use_block_indent, len, lit_overflows) == (
        use_block_indent && len == 1),
        p.kind is Struct ==> overflowable(p, use_block_indent, len, lit_overflows) == (
        use_block_indent && len == 1),
        p.kind is TupleStruct ==> overflowable(p, use_block_indent, len, lit_overflows) == (
        use_block_indent && len == 1),
        p.kind is Lit ==> overflowable(p, use_block_indent, len, lit_overflows) == lit_overflows,
        (p.kind matches PatKind::Ref { pat, .. }) ==> overflowable(
            p,
            use_block_indent,
            len,
            lit_overflows,
        ) == overflowable(*p.kind->Ref_pat, use_block_indent, len, lit_overflows),
        (p.kind matches PatKind::Box(inner)) ==> overflowable(
            p,
            use_block_indent,
            len,
            lit_overflows,
        ) == overflowable(*p.kind->Box_0, use_block_indent, len, lit_overflows),
        p.kind is Wild || p.kind is Rest || p.kind is Ident || p.kind is Paren || p.kind is Slice
            || p.kind is Mac || p.kind is Range ==> !overflowable(
            p,
            use_block_indent,
            len,
            lit_overflows,
        ),
{
}

/// With fewer than two trailing wildcards, or without condensing, the items
/// handed to the list formatter are the patterns themselves, unchanged.
pub proof fn law_condense_needs_two(pats: Seq<Pat>, suffix: nat, condense: bool)
    requires
        suffix < 2 || !condense,
    ensures
        condensed_fields(pats, suffix, condense).len() == pats.len(),
        forall|i: int|
            0 <= i < pats.len() ==> #[trigger] condensed_fields(pats, suffix, condense)[i]
                == TuplePatField::Pat(pats[i]),
{
}

/// The trailing wildcards are counted as far as they go: only the first of
/// them (the farthest from the end) may carry a comment, and when fewer
/// than all the items are counted, the item before them is not a wildcard
/// unless the first counted one carries a comment.
pub proof fn law_wildcard_suffix_maximal(items: Seq<ListItem>)
    ensures
        forall|j: int|
            items.len() - wildcard_suffix(items) < j < items.len() ==> !(
            #[trigger] items[j]).has_comment,
        wildcard_suffix(items) < items.len() && (wildcard_suffix(items) == 0
            || !items[items.len() - wildcard_suffix(items)].has_comment) ==> !is_wildcard(
            items[items.len() - 1 - wildcard_suffix(items)],
        ),
    decreases items.len(),
{
    lemma_wildcard_suffix_bounded(items);
    if items.len() > 0 && is_wildcard(items.last()) && !items.last().has_comment {
        let rest = items.drop_last();
        law_wildcard_suffix_maximal(rest);
        lemma_wildcard_suffix_bounded(rest);
        assert forall|j: int|
            items.len() - wildcard_suffix(items) < j < items.len() implies !(
            #[trigger] items[j]).has_comment by {
            if j < items.len() - 1 {
                assert(rest[j] == items[j]);
            }
        }
        if wildcard_suffix(items) < items.len() {
            assert(rest[rest.len() - 1 - wildcard_suffix(rest)] == items[items.len() - 1
                - wildcard_suffix(items)]);
            if wildcard_suffix(rest) > 0 {
                assert(rest[rest.len() - wildcard_suffix(rest)] == items[items.len()
                    - wildcard_suffix(items)]);
            }
        }
    }
}

/// Fields go on lines of their own, below the pattern's line and followed
/// by a line at the pattern's indentation for the closing brace, under block
/// indentation when they span lines, when single-line struct literals are
/// not wanted, or when they are longer than the one-line width; otherwise
/// they stay on the pattern's line with a space on each side.
pub proof fn law_struct_fields_placement(
    fields: Seq<char>,
    style: StructLitStyle,
    nested_indent: Seq<char>,
    one_line_width: usize,
)
    requires
        byte_len(fields) <= usize::MAX,
    ensures
        style.block_indent && fields.contains('\n') ==> wrapped_fields(
            fields,
            style,
            nested_indent,
            one_line_width as int,
        ) == "\n"@ + nested_indent + fields + "\n"@ + style.indent@,
        style.block_indent && !style.single_line ==> wrapped_fields(
            fields,
            style,
            nested_indent,
            one_line_width as int,
        ) == "\n"@ + nested_indent + fields + "\n"@ + style.indent@,
        style.block_indent && byte_len(fields) > one_line_width ==> wrapped_fields(
            fields,
            style,
            nested_indent,
            one_line_width as int,
        ) == "\n"@ + nested_indent + fields + "\n"@ + style.indent@,
        !style.block_indent ==> wrapped_fields(fields, style, nested_indent, one_line_width as int)
            == " "@ + fields + " "@,
        style.single_line && !fields.contains('\n') && byte_len(fields) <= one_line_width
            ==> wrapped_fields(fields, style, nested_indent, one_line_width as int) == " "@ + fields
            + " "@,
{
}

/// Where `..` goes in a struct pattern: nowhere without it; on a line of its
/// own after the fields when they span lines or are longer than the
/// one-line width (after a comma added when trailing commas are never
/// written); alone when there are no fields; otherwise after the fields and
/// `, ` (or a space when they are laid out vertically).
pub proof fn law_struct_ellipsis_placement(
    fields: Seq<char>,
    one_line_width: usize,
    trailing_comma_never: bool,
    vertical: bool,
    indent: Seq<char>,
)
    requires
        byte_len(fields) <= usize::MAX,
    ensures
        struct_fields_text(fields, false, one_line_width as int, trailing_comma_never, vertical, indent)
            == fields,
        (fields.contains('\n') || byte_len(fields) > one_line_width) ==> struct_fields_text(
            fields,
            true,
            one_line_width as int,
            trailing_comma_never,
            vertical,
            indent,
        ) == fields + (if trailing_comma_never {
            ","@
        } else {
            ""@
        }) + "\n"@ + indent + ".."@,
        (!fields.contains('\n') && byte_len(fields) <= one_line_width && fields.len() == 0)
            ==> struct_fields_text(
            fields,
            true,
            one_line_width as int,
            trailing_comma_never,
            vertical,
            indent,
        ) == ".."@,
        (!fields.contains('\n') && byte_len(fields) <= one_line_width && fields.len() > 0
            && !vertical) ==> struct_fields_text(
            fields,
            true,
            one_line_width as int,
            trailing_comma_never,
            vertical,
            indent,
        ) == fields + ", .."@,
        (!fields.contains('\n') && byte_len(fields) <= one_line_width && fields.len() > 0
            && vertical) ==> struct_fields_text(
            fields,
            true,
            one_line_width as int,
            trailing_comma_never,
            vertical,
            indent,
        ) == fields + " .."@,
{
    reveal_strlit(", ..");
    reveal_strlit(", ");
    reveal_strlit("..");
    reveal_strlit(" ..");
    reveal_strlit(" ");
    assert(fields + ", "@ + ".."@ =~= fields + ", .."@);
    assert(fields + " "@ + ".."@ =~= fields + " .."@);
}

/// A struct pattern has no layout in fewer than two columns or without a
/// layout of its path; with one, its layout starts with the path and ` {`
/// and ends with `}`, and is `path {}` when there is neither a field nor
/// `..`.
pub proof fn law_struct_pattern_shape(
    path_str: Option<Seq<char>>,
    width: int,
    n_fields: nat,
    ellipsis: bool,
    fields: Option<StructFieldList>,
    style: StructLitStyle,
)
    ensures
        width < 2 ==> struct_pat_layout(path_str, width, n_fields, ellipsis, fields, style) is None,
        path_str is None ==> struct_pat_layout(path_str, width, n_fields, ellipsis, fields, style) is None,
        (width >= 2 && path_str is Some && n_fields == 0 && !ellipsis) ==> struct_pat_layout(
            path_str,
            width,
            n_fields,
            ellipsis,
            fields,
            style,
        ) == Some(path_str->Some_0 + " {}"@),
        (width >= 2 && path_str is Some && !(n_fields == 0 && !ellipsis)) ==> (struct_pat_layout(
            path_str,
            width,
            n_fields,
            ellipsis,
            fields,
            style,
        ) is Some <==> fields is Some),
        struct_pat_layout(path_str, width, n_fields, ellipsis, fields, style) matches Some(t) ==> {
            let p = path_str->Some_0;
            &&& t.len() >= p.len() + 3
            &&& t.subrange(0, p.len() + 2int) == p + " {"@
            &&& t.last() == '}'
        },
{
    reveal_strlit(" {");
    reveal_strlit(" {}");
    reveal_strlit("}");
    if let Some(t) = struct_pat_layout(path_str, width, n_fields, ellipsis, fields, style) {
        let p = path_str->Some_0;
        if n_fields == 0 && !ellipsis {
            assert(t =~= p + " {"@ + "}"@);
        } else {
            let f = fields->Some_0;
            let inner = wrapped_fields(
                struct_fields_text(
                    f.text@,
                    ellipsis,
                    f.one_line_width as int,
                    style.trailing_comma_never,
                    f.vertical,
                    f.nested_indent@,
                ),
                style,
                f.nested_indent@,
                f.one_line_width as int,
            );
            assert(t == p + " {"@ + inner + "}"@);
        }
        assert(t.subrange(0, p.len() + 2int) =~= p + " {"@);
    }
}

/// `_` and `..` need one column; `box`, `&` (or `&mut `) and parentheses
/// take their text out of the width left to the pattern inside and put it
/// around that pattern's layout, and there is none where either does not
/// fit; a struct pattern needs two columns.
pub proof fn law_wrapped_layouts(p: Pat, width: int, spaced_ranges: bool)
    ensures
        p.kind is Wild ==> rewrite_pat(p, width, spaced_ranges) == (if width >= 1 {
            Some("_"@)
        } else {
            None
        }),
        p.kind is Rest ==> rewrite_pat(p, width, spaced_ranges) == (if width >= 1 {
            Some(".."@)
        } else {
            None
        }),
        (p.kind is Box && width < 4) ==> rewrite_pat(p, width, spaced_ranges) is None,
        (p.kind is Box && width >= 4) ==> rewrite_pat(p, width, spaced_ranges) == match rewrite_pat(
            *p.kind->Box_0,
            width - 4,
            spaced_ranges,
        ) {
            Some(r) => Some("box "@ + r),
            None => None,
        },
        (p.kind is Paren && width < 2) ==> rewrite_pat(p, width, spaced_ranges) is None,
        (p.kind is Paren && width >= 2) ==> rewrite_pat(p, width, spaced_ranges) == match rewrite_pat(
            *p.kind->Paren_0,
            width - 2,
            spaced_ranges,
        ) {
            Some(r) => Some("("@ + r + ")"@),
            None => None,
        },
        (p.kind matches PatKind::Ref { mutable, .. } && !mutable && width >= 1) ==> rewrite_pat(
            p,
            width,
            spaced_ranges,
        ) == match rewrite_pat(*p.kind->Ref_pat, width - 1, spaced_ranges) {
            Some(r) => Some("&"@ + r),
            None => None,
        },
        (p.kind matches PatKind::Ref { mutable, .. } && mutable && width >= 5) ==> rewrite_pat(
            p,
            width,
            spaced_ranges,
        ) == match rewrite_pat(*p.kind->Ref_pat, width - 5, spaced_ranges) {
            Some(r) => Some("&mut "@ + r),
            None => None,
        },
        (p.kind matches PatKind::Ref { mutable, .. } && (if mutable {
            width < 5
        } else {
            width < 1
        })) ==> rewrite_pat(p, width, spaced_ranges) is None,
        (p.kind matches PatKind::Ident { by_ref, mutable, ident, sub } && sub is None)
            ==> rewrite_pat(p, width, spaced_ranges) == Some(
            (if p.kind->Ident_by_ref {
                "ref "@
            } else {
                ""@
            }) + (if p.kind->Ident_mutable {
                "mut "@
            } else {
                ""@
            }) + p.kind->Ident_ident@,
        ),
        (p.kind is Struct && width < 2) ==> rewrite_pat(p, width, spaced_ranges) is None,
        (p.kind is Struct && width >= 2) ==> rewrite_pat(p, width, spaced_ranges) == carried(
            p.layout,
        ),
        p.kind is Lit || p.kind is Path || p.kind is Mac || p.kind is Tuple || p.kind is TupleStruct
            ==> rewrite_pat(p, width, spaced_ranges) == carried(p.layout),
{
    reveal_strlit("&");
    reveal_strlit("mut ");
    reveal_strlit("&mut ");
    reveal_strlit("ref ");
    reveal_strlit("");
    assert("&"@ + "mut "@ =~= "&mut "@);
    assert("&"@ + Seq::<char>::empty() =~= "&"@);
    match p.kind {
        PatKind::Ident { by_ref, mutable, ident, sub } => {
            assert(mut_text(mutable) == (if mutable {
                "mut "@
            } else {
                ""@
            }));
            if !by_ref {
                assert(Seq::<char>::empty() + mut_text(mutable) =~= ""@ + mut_text(mutable));
            }
        },
        _ => {},
    }
}

/// The operator of a range pattern is `...`, `..=` or `..` as the range was
/// written, with a space on each side exactly when asked for.
pub proof fn law_range_operators()
    ensures
        range_infix_text(RangeEnd::DotDotDot, false) == "..."@,
        range_infix_text(RangeEnd::DotDotEq, false) == "..="@,
        range_infix_text(RangeEnd::Excluded, false) == ".."@,
        forall|end: RangeEnd|
            #[trigger] range_infix_text(end, true) == " "@ + range_infix_text(end, false) + " "@,
{
}

/// A range pattern whose ends lay out on one line within the width (the
/// upper end in what the lower end and the operator leave) is the lower
/// end, the operator and the upper end; one whose lower end has no layout
/// has none.
pub proof fn law_range_layout(p: Pat, width: int, spaced_ranges: bool, l: Seq<char>, h: Seq<char>)
    requires
        p.kind is Range,
    ensures
        rewrite_pat(*p.kind->Range_lo, width, spaced_ranges) is None ==> rewrite_pat(
            p,
            width,
            spaced_ranges,
        ) is None,
        ({
            let op = range_infix_text(p.kind->Range_end, spaced_ranges);
            &&& rewrite_pat(*p.kind->Range_lo, width, spaced_ranges) == Some(l)
            &&& byte_len(l) + byte_len(op) <= width
            &&& byte_len(l) <= usize::MAX
            &&& byte_len(op) <= usize::MAX
            &&& byte_len(h) <= usize::MAX
            &&& rewrite_pat(
                *p.kind->Range_hi,
                width - byte_len(l) - byte_len(op),
                spaced_ranges,
            ) == Some(h)
            &&& byte_len(l) + byte_len(op) + byte_len(h) <= width
            &&& !l.contains('\n')
            &&& !h.contains('\n')
        }) ==> rewrite_pat(p, width, spaced_ranges) == Some(
            l + range_infix_text(p.kind->Range_end, spaced_ranges) + h,
        ),
{
}

} // verus!
