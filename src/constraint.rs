//! Range clauses of an advisory's "patched" expression: how they are read from
//! text, and when a version satisfies one.

use vstd::prelude::*;
use crate::text::{split, trim, has_char, views, split_on, trim_text, contains_char, suffix_from};
use crate::version::{VersionToken, parse_token, sort_desc, sort_desc_indices, picked, token_views};

verus! {

/// A comparison operator in front of a bound.
#[derive(Clone, Copy, PartialEq, Eq, Structural, Debug)]
pub enum Comparator {
    Gt,
    Ge,
    Lt,
    Le,
}

/// One OR-branch of a patched expression.
pub enum Clause {
    /// `^literal`: met by exactly this text.
    Exact { literal: String },
    /// One bound: `>b`, `>=b`, `<b` or `<=b`.
    Open { op: Comparator, bound: String },
    /// A lower and an upper bound; `lower_op` is `Gt` or `Ge`, `upper_op` is `Lt` or `Le`.
    Closed { lower_op: Comparator, lower: String, upper_op: Comparator, upper: String },
    /// A clause whose shape could not be read; no version meets it.
    Unmatchable,
}

pub ghost enum ClauseView {
    Exact { literal: Seq<char> },
    Open { op: Comparator, bound: Seq<char> },
    Closed { lower_op: Comparator, lower: Seq<char>, upper_op: Comparator, upper: Seq<char> },
    Unmatchable,
}

impl View for Clause {
    type V = ClauseView;

    open spec fn view(&self) -> ClauseView {
        match self {
            Clause::Exact { literal } => ClauseView::Exact { literal: literal@ },
            Clause::Open { op, bound } => ClauseView::Open { op: *op, bound: bound@ },
            Clause::Closed { lower_op, lower, upper_op, upper } => ClauseView::Closed {
                lower_op: *lower_op,
                lower: lower@,
                upper_op: *upper_op,
                upper: upper@,
            },
            Clause::Unmatchable => ClauseView::Unmatchable,
        }
    }
}

/// The operator that `s` starts with, `>=` and `<=` taking precedence over `>`
/// and `<`.
pub open spec fn op_of(s: Seq<char>) -> Option<Comparator> {
    if s.len() >= 2 && s[0] == '>' && s[1] == '=' {
        Some(Comparator::Ge)
    } else if s.len() >= 1 && s[0] == '>' {
        Some(Comparator::Gt)
    } else if s.len() >= 2 && s[0] == '<' && s[1] == '=' {
        Some(Comparator::Le)
    } else if s.len() >= 1 && s[0] == '<' {
        Some(Comparator::Lt)
    } else {
        None
    }
}

/// How many characters an operator takes.
pub open spec fn op_len(op: Comparator) -> nat {
    match op {
        Comparator::Gt | Comparator::Lt => 1,
        Comparator::Ge | Comparator::Le => 2,
    }
}

pub open spec fn is_lower_op(op: Comparator) -> bool {
    op == Comparator::Gt || op == Comparator::Ge
}

pub open spec fn is_upper_op(op: Comparator) -> bool {
    op == Comparator::Lt || op == Comparator::Le
}

/// `s` with its leading operator taken off.
pub open spec fn operand(s: Seq<char>, op: Comparator) -> Seq<char> {
    s.subrange(op_len(op) as int, s.len() as int)
}

/// A clause without `,` or `^`: one operator and its bound.
pub open spec fn parse_open(c: Seq<char>) -> ClauseView {
    match op_of(c) {
        Some(op) => ClauseView::Open { op, bound: operand(c, op) },
        None => ClauseView::Unmatchable,
    }
}

/// A clause with `,`: two trimmed sides, the one that starts with `>` (or, if the
/// first starts with `<`, the second) being the lower bound.
pub open spec fn parse_closed(c: Seq<char>) -> ClauseView {
    let parts = split(c, ',');
    if parts.len() != 2 {
        ClauseView::Unmatchable
    } else {
        let first = trim(parts[0]);
        let second = trim(parts[1]);
        let (left, right) = if first.len() >= 1 && first[0] == '>' {
            (first, second)
        } else {
            (second, first)
        };
        if !(first.len() >= 1 && (first[0] == '>' || first[0] == '<')) {
            ClauseView::Unmatchable
        } else {
            match (op_of(left), op_of(right)) {
                (Some(lo), Some(up)) => if is_lower_op(lo) && is_upper_op(up) {
                    ClauseView::Closed {
                        lower_op: lo,
                        lower: operand(left, lo),
                        upper_op: up,
                        upper: operand(right, up),
                    }
                } else {
                    ClauseView::Unmatchable
                },
                _ => ClauseView::Unmatchable,
            }
        }
    }
}

/// Reads one OR-branch: `,` makes it closed, else `^` makes it exact (when it
/// leads), else it is open.
pub open spec fn parse_clause(c: Seq<char>) -> ClauseView {
    if has_char(c, ',') {
        parse_closed(c)
    } else if has_char(c, '^') {
        if c.len() >= 1 && c[0] == '^' {
            ClauseView::Exact { literal: c.subrange(1, c.len() as int) }
        } else {
            ClauseView::Unmatchable
        }
    } else {
        parse_open(c)
    }
}

/// The clauses of a patched expression: its pieces between `|`, untrimmed.
pub open spec fn parse_expression(e: Seq<char>) -> Seq<ClauseView> {
    split(e, '|').map_values(|c: Seq<char>| parse_clause(c))
}

/// Whether version `v` meets clause `c`. The version and the bounds are sorted
/// into descending rank (stable); an open clause wants the version first (`>`,
/// `>=`) or last (`<`, `<=`), a closed one wants it in the middle. A strict
/// operator also wants the version's text to differ from the bound's, or, in a
/// closed clause, from the text at that end of the sort.
pub open spec fn satisfies(c: ClauseView, v: Seq<char>) -> bool {
    match c {
        ClauseView::Exact { literal } => v == literal,
        ClauseView::Open { op, bound } => {
            let s = sort_desc(seq![v, bound]);
            match op {
                Comparator::Gt => s[0] == v && bound != v,
                Comparator::Ge => s[0] == v,
                Comparator::Lt => s[1] == v && bound != v,
                Comparator::Le => s[1] == v,
            }
        },
        ClauseView::Closed { lower_op, lower, upper_op, upper } => {
            let s = sort_desc(seq![v, lower, upper]);
            &&& s[1] == v
            &&& lower_op == Comparator::Gt ==> s[2] != v
            &&& upper_op == Comparator::Lt ==> s[0] != v
        },
        ClauseView::Unmatchable => false,
    }
}

/// Whether `v` meets at least one clause of `e`.
pub open spec fn matches_any(e: Seq<ClauseView>, v: Seq<char>) -> bool {
    exists|i: int| 0 <= i < e.len() && satisfies(#[trigger] e[i], v)
}

/// The operator that `s` starts with, if any.
pub fn leading_op(s: &str) -> (r: Option<Comparator>)
    ensures
        r == op_of(s@),
{
    let n = s.unicode_len();
    if n >= 1 {
        let c0 = s.get_char(0);
        let eq_next = n >= 2 && s.get_char(1) == '=';
        if c0 == '>' {
            if eq_next {
                Some(Comparator::Ge)
            } else {
                Some(Comparator::Gt)
            }
        } else if c0 == '<' {
            if eq_next {
                Some(Comparator::Le)
            } else {
                Some(Comparator::Lt)
            }
        } else {
            None
        }
    } else {
        None
    }
}

fn operator_len(op: Comparator) -> (r: usize)
    ensures
        r == op_len(op),
{
    match op {
        Comparator::Gt | Comparator::Lt => 1,
        Comparator::Ge | Comparator::Le => 2,
    }
}

/// Reads an open clause: one operator and its bound.
pub fn read_open(c: &str) -> (r: Clause)
    ensures
        r@ == parse_open(c@),
{
    match leading_op(c) {
        Some(op) => Clause::Open { op, bound: suffix_from(c, operator_len(op)) },
        None => Clause::Unmatchable,
    }
}

fn starts_with_char(s: &str, c: char) -> (r: bool)
    ensures
        r == (s@.len() >= 1 && s@[0] == c),
{
    s.unicode_len() >= 1 && s.get_char(0) == c
}

/// Reads a closed clause: two comma-separated, trimmed sides.
pub fn read_closed(c: &str) -> (r: Clause)
    ensures
        r@ == parse_closed(c@),
{
    let parts = split_on(c, ',');
    if parts.len() != 2 {
        return Clause::Unmatchable;
    }
    assert(parts@[0]@ == split(c@, ',')[0]);
    assert(parts@[1]@ == split(c@, ',')[1]);
    let first = trim_text(parts[0].as_str());
    let second = trim_text(parts[1].as_str());
    let first_gt = starts_with_char(first.as_str(), '>');
    let first_lt = starts_with_char(first.as_str(), '<');
    if !(first_gt || first_lt) {
        return Clause::Unmatchable;
    }
    let (left, right) = if first_gt {
        (first, second)
    } else {
        (second, first)
    };
    match (leading_op(left.as_str()), leading_op(right.as_str())) {
        (Some(lo), Some(up)) => {
            let lower_ok = match lo {
                Comparator::Gt | Comparator::Ge => true,
                _ => false,
            };
            let upper_ok = match up {
                Comparator::Lt | Comparator::Le => true,
                _ => false,
            };
            if lower_ok && upper_ok {
                Clause::Closed {
                    lower_op: lo,
                    lower: suffix_from(left.as_str(), operator_len(lo)),
                    upper_op: up,
                    upper: suffix_from(right.as_str(), operator_len(up)),
                }
            } else {
                Clause::Unmatchable
            }
        },
        _ => Clause::Unmatchable,
    }
}

/// Reads one OR-branch of a patched expression.
pub fn read_clause(c: &str) -> (r: Clause)
    ensures
        r@ == parse_clause(c@),
{
    if contains_char(c, ',') {
        read_closed(c)
    } else if contains_char(c, '^') {
        if starts_with_char(c, '^') {
            Clause::Exact { literal: suffix_from(c, 1) }
        } else {
            Clause::Unmatchable
        }
    } else {
        read_open(c)
    }
}

pub open spec fn clause_views(v: Seq<Clause>) -> Seq<ClauseView> {
    v.map_values(|c: Clause| c@)
}

/// Reads a patched expression into its clauses, one per `|`-separated piece.
pub fn read_expression(e: &str) -> (r: Vec<Clause>)
    ensures
        clause_views(r@) == parse_expression(e@),
{
    let pieces = split_on(e, '|');
    let ghost pv = views(pieces@);
    let mut out: Vec<Clause> = Vec::new();
    let mut i: usize = 0;
    while i < pieces.len()
        invariant
            pv == views(pieces@),
            pv == split(e@, '|'),
            i <= pieces.len(),
            out.len() == i,
            forall|k: int| 0 <= k < i ==> (#[trigger] out@[k])@ == parse_clause(pv[k]),
        decreases pieces.len() - i,
    {
        let clause = read_clause(pieces[i].as_str());
        out.push(clause);
        i += 1;
    }
    assert(clause_views(out@) =~= parse_expression(e@));
    out
}

fn same_text(a: &String, b: &String) -> (r: bool)
    ensures
        r == (a@ == b@),
{
    a.eq(b)
}

/// The tokens of `texts` sorted into descending rank (stable): the texts in their
/// sorted order.
fn sorted_texts(texts: Vec<&str>) -> (r: Vec<String>)
    ensures
        r.len() == texts.len(),
        views(r@) == sort_desc(texts@.map_values(|t: &str| t@)),
{
    let mut toks: Vec<VersionToken> = Vec::new();
    let mut i: usize = 0;
    while i < texts.len()
        invariant
            i <= texts.len(),
            toks.len() == i,
            forall|k: int| 0 <= k < i ==> (#[trigger] toks@[k])@ == texts@[k]@,
        decreases texts.len() - i,
    {
        let t = parse_token(texts[i]);
        toks.push(t);
        i += 1;
    }
    assert(token_views(toks@) =~= texts@.map_values(|t: &str| t@));
    let idx = sort_desc_indices(&toks);
    let mut out: Vec<String> = Vec::new();
    let mut k: usize = 0;
    while k < idx.len()
        invariant
            k <= idx.len(),
            idx.len() == toks.len(),
            forall|j: int| 0 <= j < idx.len() ==> idx[j] < toks.len(),
            out.len() == k,
            forall|j: int| 0 <= j < k ==> (#[trigger] out@[j])@ == toks@[idx@[j] as int]@,
        decreases idx.len() - k,
    {
        out.push(toks[idx[k]].text().clone());
        k += 1;
    }
    assert(views(out@) =~= picked(toks@, idx@));
    out
}

impl Clause {
    /// Whether `version` meets this clause.
    pub fn satisfied_by(&self, version: &str) -> (r: bool)
        ensures
            r == satisfies(self@, version@),
    {
        let v = version.to_owned();
        match self {
            Clause::Exact { literal } => same_text(&v, literal),
            Clause::Open { op, bound } => {
                let texts = vec![version, bound.as_str()];
                assert(texts@.map_values(|t: &str| t@) =~= seq![version@, bound@]);
                let s = sorted_texts(texts);
                assert(s@[0]@ == views(s@)[0]);
                assert(s@[1]@ == views(s@)[1]);
                match op {
                    Comparator::Gt => same_text(&s[0], &v) && !same_text(bound, &v),
                    Comparator::Ge => same_text(&s[0], &v),
                    Comparator::Lt => same_text(&s[1], &v) && !same_text(bound, &v),
                    Comparator::Le => same_text(&s[1], &v),
                }
            },
            Clause::Closed { lower_op, lower, upper_op, upper } => {
                let texts = vec![version, lower.as_str(), upper.as_str()];
                assert(texts@.map_values(|t: &str| t@) =~= seq![version@, lower@, upper@]);
                let s = sorted_texts(texts);
                assert(s@[0]@ == views(s@)[0]);
                assert(s@[1]@ == views(s@)[1]);
                assert(s@[2]@ == views(s@)[2]);
                let lower_strict = match lower_op {
                    Comparator::Gt => true,
                    _ => false,
                };
                let upper_strict = match upper_op {
                    Comparator::Lt => true,
                    _ => false,
                };
                same_text(&s[1], &v) && (!lower_strict || !same_text(&s[2], &v)) && (
                !upper_strict || !same_text(&s[0], &v))
            },
            Clause::Unmatchable => false,
        }
    }
}

/// Whether `version` meets at least one clause of the patched expression.
pub fn match_version(patched: &str, version: &str) -> (r: bool)
    ensures
        r == matches_any(parse_expression(patched@), version@),
{
    let clauses = read_expression(patched);
    let ghost e = parse_expression(patched@);
    let mut matched = false;
    let mut i: usize = 0;
    while i < clauses.len()
        invariant
            clause_views(clauses@) == e,
            i <= clauses.len(),
            matched == exists|k: int| 0 <= k < i && satisfies(#[trigger] e[k], version@),
        decreases clauses.len() - i,
    {
        let hit = clauses[i].satisfied_by(version);
        assert(e[i as int] == clauses@[i as int]@);
        matched = matched || hit;
        i += 1;
    }
    matched
}

/// Whether `version` is still exposed under the patched expression: it meets none
/// of its clauses.
pub fn is_vulnerable(patched: &str, version: &str) -> (r: bool)
    ensures
        r == !matches_any(parse_expression(patched@), version@),
        r == !(exists|i: int|
            0 <= i < parse_expression(patched@).len() && satisfies(
                #[trigger] parse_expression(patched@)[i],
                version@,
            )),
{
    !match_version(patched, version)
}

/// Whether `version` meets the open clause `clause` (one operator and a bound).
pub fn process_open_interval_of_match_version(clause: &str, version: &str) -> (r: bool)
    ensures
        r == satisfies(parse_open(clause@), version@),
{
    read_open(clause).satisfied_by(version)
}

/// Whether `version` meets the closed clause `clause` (two bounds, comma-separated).
pub fn process_closed_interval_of_match_version(clause: &str, version: &str) -> (r: bool)
    ensures
        r == satisfies(parse_closed(clause@), version@),
{
    read_closed(clause).satisfied_by(version)
}

} // verus!
