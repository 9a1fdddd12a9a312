//! Ordering of version tokens: semantic-version order where both sides parse, with
//! every unparseable token ranked below every parseable one.

use vstd::prelude::*;
use core::cmp::Ordering;

verus! {

/// Whether `semver::Version::parse` accepts the text.
pub uninterp spec fn is_semver(s: Seq<char>) -> bool;

/// The order that `semver::Version`'s `Ord` gives to the parses of two texts that
/// both parse.
pub uninterp spec fn semver_order(a: Seq<char>, b: Seq<char>) -> Ordering;

/// `semver::Version`, carried as an opaque value.
#[verifier::external_type_specification]
#[verifier::external_body]
pub struct ExSemverVersion(semver::Version);

/// A version string together with its semantic-version reading, if it has one.
///
/// Tokens are only built by `read_version`, so the reading is always the parse of
/// the text; the type invariant records the part of that which Verus can see.
pub struct VersionToken {
    text: String,
    semver: Option<semver::Version>,
}

impl View for VersionToken {
    type V = Seq<char>;

    closed spec fn view(&self) -> Seq<char> {
        self.text@
    }
}

impl VersionToken {
    pub closed spec fn parses(&self) -> bool {
        self.semver.is_some()
    }

    #[verifier::type_invariant]
    spec fn well_formed(&self) -> bool {
        self.semver.is_some() == is_semver(self.text@)
    }

    pub fn text(&self) -> (r: &String)
        ensures
            r@ == self@,
    {
        &self.text
    }
}

/// Relies on `semver::Version::parse`: it succeeds exactly on the texts that
/// `is_semver` names, and the reading kept is that parse.
#[verifier::external_body]
fn read_version(s: &str) -> (r: VersionToken)
    ensures
        r@ == s@,
        r.parses() == is_semver(s@),
{
    VersionToken { text: s.to_string(), semver: semver::Version::parse(s).ok() }
}

/// Relies on `Ord for semver::Version`: compares the two readings, which are the
/// parses of the two texts.
#[verifier::external_body]
fn compare_readings(a: &VersionToken, b: &VersionToken) -> (r: Ordering)
    requires
        a.parses(),
        b.parses(),
    ensures
        r == semver_order(a@, b@),
{
    a.semver.as_ref().unwrap().cmp(b.semver.as_ref().unwrap())
}

/// The rank of `a` against `b`: semantic-version order when both parse; a
/// parseable token above an unparseable one; two unparseable tokens level.
pub open spec fn version_cmp(a: Seq<char>, b: Seq<char>) -> Ordering {
    if is_semver(a) && is_semver(b) {
        semver_order(a, b)
    } else if is_semver(a) {
        Ordering::Greater
    } else if is_semver(b) {
        Ordering::Less
    } else {
        Ordering::Equal
    }
}

/// Reads a version string.
pub fn parse_token(s: &str) -> (r: VersionToken)
    ensures
        r@ == s@,
{
    read_version(s)
}

/// Ranks `a` against `b` under the fallback order.
pub fn compare_versions(a: &VersionToken, b: &VersionToken) -> (r: Ordering)
    ensures
        r == version_cmp(a@, b@),
{
    proof {
        use_type_invariant(a);
        use_type_invariant(b);
    }
    let pa = a.semver.is_some();
    let pb = b.semver.is_some();
    if pa && pb {
        compare_readings(a, b)
    } else if pa {
        Ordering::Greater
    } else if pb {
        Ordering::Less
    } else {
        Ordering::Equal
    }
}

/// Inserts `x` into `s`, which is in descending order, ahead of the first element
/// that does not outrank it: ahead of every element of equal rank.
pub open spec fn insert_desc(x: Seq<char>, s: Seq<Seq<char>>) -> Seq<Seq<char>>
    decreases s.len(),
{
    if s.len() == 0 {
        seq![x]
    } else if version_cmp(x, s[0]) != Ordering::Less {
        seq![x] + s
    } else {
        seq![s[0]] + insert_desc(x, s.drop_first())
    }
}

/// `s` sorted in descending rank, elements of equal rank kept in their order in
/// `s` (a stable sort).
pub open spec fn sort_desc(s: Seq<Seq<char>>) -> Seq<Seq<char>>
    decreases s.len(),
{
    if s.len() == 0 {
        s
    } else {
        insert_desc(s[0], sort_desc(s.drop_first()))
    }
}

pub open spec fn token_views(t: Seq<VersionToken>) -> Seq<Seq<char>> {
    t.map_values(|x: VersionToken| x@)
}

/// The texts of the tokens that `idx` points at, in the order of `idx`.
pub open spec fn picked(t: Seq<VersionToken>, idx: Seq<usize>) -> Seq<Seq<char>> {
    idx.map_values(|i: usize| t[i as int]@)
}

proof fn lemma_insert_at(x: Seq<char>, s: Seq<Seq<char>>, j: int)
    requires
        0 <= j <= s.len(),
        forall|k: int| 0 <= k < j ==> version_cmp(x, #[trigger] s[k]) == Ordering::Less,
        j < s.len() ==> version_cmp(x, s[j]) != Ordering::Less,
    ensures
        insert_desc(x, s) == s.take(j).push(x) + s.skip(j),
    decreases j,
{
    if j == 0 {
        assert(s.take(0).push(x) + s.skip(0) =~= seq![x] + s);
        if s.len() == 0 {
            assert(seq![x] + s =~= seq![x]);
        }
    } else {
        let t = s.drop_first();
        assert forall|k: int| 0 <= k < j - 1 implies version_cmp(x, #[trigger] t[k])
            == Ordering::Less by {
            assert(t[k] == s[k + 1]);
        }
        lemma_insert_at(x, t, j - 1);
        assert(seq![s[0]] + (t.take(j - 1).push(x) + t.skip(j - 1)) =~= s.take(j).push(x)
            + s.skip(j));
    }
}

/// Whether `a` ranks strictly below `b`.
pub fn ranks_below(a: &VersionToken, b: &VersionToken) -> (r: bool)
    ensures
        r == (version_cmp(a@, b@) == Ordering::Less),
{
    match compare_versions(a, b) {
        Ordering::Less => true,
        _ => false,
    }
}

/// Positions of the tokens in a stable descending sort by rank: entry `k` of the
/// result is the index in `toks` of the token that lands at position `k`.
pub fn sort_desc_indices(toks: &Vec<VersionToken>) -> (r: Vec<usize>)
    ensures
        r.len() == toks.len(),
        forall|k: int| 0 <= k < r.len() ==> r[k] < toks.len(),
        picked(toks@, r@) == sort_desc(token_views(toks@)),
{
    let n = toks.len();
    let ghost tv = token_views(toks@);
    let mut r: Vec<usize> = Vec::new();
    let mut i: usize = n;
    assert(tv.skip(n as int) =~= Seq::<Seq<char>>::empty());
    assert(picked(toks@, r@) =~= Seq::<Seq<char>>::empty());
    while i > 0
        invariant
            n == toks.len(),
            tv == token_views(toks@),
            i <= n,
            r.len() == n - i,
            forall|k: int| 0 <= k < r.len() ==> r[k] < n,
            picked(toks@, r@) == sort_desc(tv.skip(i as int)),
        decreases i,
    {
        i -= 1;
        let ghost sorted = picked(toks@, r@);
        let mut j: usize = 0;
        while j < r.len() && ranks_below(&toks[i], &toks[r[j]])
            invariant
                n == toks.len(),
                i < n,
                j <= r.len(),
                forall|k: int| 0 <= k < r.len() ==> r[k] < n,
                sorted == picked(toks@, r@),
                forall|k: int| 0 <= k < j ==> version_cmp(tv[i as int], #[trigger] sorted[k])
                    == Ordering::Less,
                tv == token_views(toks@),
            decreases r.len() - j,
        {
            j += 1;
        }
        let ghost old_r = r@;
        r.insert(j, i);
        proof {
            lemma_insert_at(tv[i as int], sorted, j as int);
            let rest = tv.skip(i as int);
            assert(rest[0] == tv[i as int]);
            assert(rest.drop_first() =~= tv.skip(i + 1));
            assert(picked(toks@, r@) =~= sorted.take(j as int).push(tv[i as int]) + sorted.skip(
                j as int,
            ));
        }
    }
    assert(tv.skip(0) =~= tv);
    r
}

/// An unparseable token ranks below every parseable one, whatever its text: it
/// compares as smaller, and the parseable one as greater.
pub proof fn unparseable_ranks_below_parseable(bad: Seq<char>, good: Seq<char>)
    requires
        !is_semver(bad),
        is_semver(good),
    ensures
        version_cmp(bad, good) == Ordering::Less,
        version_cmp(good, bad) == Ordering::Greater,
        sort_desc(seq![bad, good]) == seq![good, bad],
        sort_desc(seq![good, bad]) == seq![good, bad],
{
    let e = Seq::<Seq<char>>::empty();
    assert(sort_desc(e) == e);
    assert(seq![good].drop_first() =~= e);
    assert(seq![bad].drop_first() =~= e);
    assert(insert_desc(good, e) == seq![good]);
    assert(insert_desc(bad, e) == seq![bad]);
    assert(sort_desc(seq![good]) == seq![good]);
    assert(sort_desc(seq![bad]) == seq![bad]);
    assert(insert_desc(bad, seq![good]) =~= seq![good, bad]);
    assert(seq![bad, good].drop_first() =~= seq![good]);
    assert(seq![good, bad].drop_first() =~= seq![bad]);
    assert(insert_desc(good, seq![bad]) =~= seq![good, bad]);
}

} // verus!
