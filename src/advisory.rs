//! Advisory records and the resolution of which advisories a package version, or
//! a set of dependency versions, is still exposed to.

use vstd::prelude::*;
use crate::constraint::{matches_any, parse_expression, is_vulnerable};
use crate::text::{split, views, split_on};

verus! {

/// One advisory's matching rule for one crate.
pub struct AdvisorySummary {
    pub id: String,
    pub crate_name: String,
    /// The raw patched expression: the versions that are no longer exposed.
    pub patched: String,
    pub aliases: Vec<String>,
    pub short_description: String,
}

/// One row of an advisory's details, as the advisory store holds it.
pub struct AdvisoryInfo {
    pub id: String,
    pub subtitle: String,
    pub reported: String,
    pub issued: String,
    pub package: String,
    pub advisory_type: String,
    pub keywords: String,
    pub aliases: String,
    pub reference: String,
    pub patched: String,
    pub unaffected: String,
    pub description: String,
}

/// The details of an advisory that a version is exposed to, with the advisory's
/// page address.
#[derive(Debug)]
pub struct AdvisoryDetail {
    pub id: String,
    pub subtitle: String,
    pub reported: String,
    pub issued: String,
    pub package: String,
    pub advisory_type: String,
    pub keywords: String,
    pub aliases: String,
    pub reference: String,
    pub patched: String,
    pub unaffected: String,
    pub description: String,
    pub url: String,
}

pub ghost struct SummaryView {
    pub id: Seq<char>,
    pub crate_name: Seq<char>,
    pub patched: Seq<char>,
}

pub ghost struct InfoView {
    pub id: Seq<char>,
    pub subtitle: Seq<char>,
    pub reported: Seq<char>,
    pub issued: Seq<char>,
    pub package: Seq<char>,
    pub advisory_type: Seq<char>,
    pub keywords: Seq<char>,
    pub aliases: Seq<char>,
    pub reference: Seq<char>,
    pub patched: Seq<char>,
    pub unaffected: Seq<char>,
    pub description: Seq<char>,
}

pub ghost struct DetailView {
    pub info: InfoView,
    pub url: Seq<char>,
}

impl View for AdvisorySummary {
    type V = SummaryView;

    open spec fn view(&self) -> SummaryView {
        SummaryView { id: self.id@, crate_name: self.crate_name@, patched: self.patched@ }
    }
}

impl View for AdvisoryInfo {
    type V = InfoView;

    open spec fn view(&self) -> InfoView {
        InfoView {
            id: self.id@,
            subtitle: self.subtitle@,
            reported: self.reported@,
            issued: self.issued@,
            package: self.package@,
            advisory_type: self.advisory_type@,
            keywords: self.keywords@,
            aliases: self.aliases@,
            reference: self.reference@,
            patched: self.patched@,
            unaffected: self.unaffected@,
            description: self.description@,
        }
    }
}

impl View for AdvisoryDetail {
    type V = DetailView;

    open spec fn view(&self) -> DetailView {
        DetailView {
            info: InfoView {
                id: self.id@,
                subtitle: self.subtitle@,
                reported: self.reported@,
                issued: self.issued@,
                package: self.package@,
                advisory_type: self.advisory_type@,
                keywords: self.keywords@,
                aliases: self.aliases@,
                reference: self.reference@,
                patched: self.patched@,
                unaffected: self.unaffected@,
                description: self.description@,
            },
            url: self.url@,
        }
    }
}

pub open spec fn summary_views(s: Seq<AdvisorySummary>) -> Seq<SummaryView> {
    s.map_values(|x: AdvisorySummary| x@)
}

pub open spec fn info_views(s: Seq<AdvisoryInfo>) -> Seq<InfoView> {
    s.map_values(|x: AdvisoryInfo| x@)
}

pub open spec fn detail_views(s: Seq<AdvisoryDetail>) -> Seq<DetailView> {
    s.map_values(|x: AdvisoryDetail| x@)
}

/// The page of an advisory: `https://rustsec.org/advisories/<id>.html`.
pub open spec fn advisory_url(id: Seq<char>) -> Seq<char> {
    "https://rustsec.org/advisories/"@ + id + ".html"@
}

/// A detail row with its page address.
pub open spec fn detail_of(info: InfoView) -> DetailView {
    DetailView { info, url: advisory_url(info.id) }
}

/// The detail rows of advisory `id`, in store order, each with its page address.
pub open spec fn details_for(infos: Seq<InfoView>, id: Seq<char>) -> Seq<DetailView>
    decreases infos.len(),
{
    if infos.len() == 0 {
        Seq::empty()
    } else {
        let pre = details_for(infos.drop_last(), id);
        if infos.last().id == id {
            pre.push(detail_of(infos.last()))
        } else {
            pre
        }
    }
}

/// Whether `crate_name` at `version` is exposed to the advisory `s`: it is the
/// advisory's crate and the version meets no clause of the patched expression.
pub open spec fn exposed(s: SummaryView, crate_name: Seq<char>, version: Seq<char>) -> bool {
    s.crate_name == crate_name && !matches_any(parse_expression(s.patched), version)
}

/// Direct resolution: for each advisory in order that `crate_name` at `version` is
/// exposed to, all of its detail rows.
pub open spec fn direct_hits(
    summaries: Seq<SummaryView>,
    infos: Seq<InfoView>,
    crate_name: Seq<char>,
    version: Seq<char>,
) -> Seq<DetailView>
    decreases summaries.len(),
{
    if summaries.len() == 0 {
        Seq::empty()
    } else {
        let pre = direct_hits(summaries.drop_last(), infos, crate_name, version);
        if exposed(summaries.last(), crate_name, version) {
            pre + details_for(infos, summaries.last().id)
        } else {
            pre
        }
    }
}

/// A dependency target `name/version` has exactly one `/`.
pub open spec fn is_target(t: Seq<char>) -> bool {
    split(t, '/').len() == 2
}

pub open spec fn target_name(t: Seq<char>) -> Seq<char> {
    split(t, '/')[0]
}

pub open spec fn target_version(t: Seq<char>) -> Seq<char> {
    split(t, '/')[1]
}

/// The direct hits of every target in turn, before duplicates are removed.
pub open spec fn transitive_hits(
    summaries: Seq<SummaryView>,
    infos: Seq<InfoView>,
    targets: Seq<Seq<char>>,
) -> Seq<DetailView>
    decreases targets.len(),
{
    if targets.len() == 0 {
        Seq::empty()
    } else {
        transitive_hits(summaries, infos, targets.drop_last()) + direct_hits(
            summaries,
            infos,
            target_name(targets.last()),
            target_version(targets.last()),
        )
    }
}

/// `s` with every element after its first occurrence removed.
pub open spec fn dedup(s: Seq<DetailView>) -> Seq<DetailView>
    decreases s.len(),
{
    if s.len() == 0 {
        s
    } else {
        let pre = dedup(s.drop_last());
        if pre.contains(s.last()) {
            pre
        } else {
            pre.push(s.last())
        }
    }
}

pub open spec fn no_duplicates(s: Seq<DetailView>) -> bool {
    forall|i: int, j: int| 0 <= i < j < s.len() ==> s[i] != s[j]
}

fn copy_text(s: &String) -> (r: String)
    ensures
        r@ == s@,
{
    s.clone()
}

/// The page of advisory `id`.
pub fn rustsec_url(id: &str) -> (r: String)
    ensures
        r@ == advisory_url(id@),
{
    let mut url = "https://rustsec.org/advisories/".to_owned();
    url.append(id);
    url.append(".html");
    url
}

impl AdvisoryInfo {
    /// This row with its page address.
    pub fn to_detail(&self) -> (r: AdvisoryDetail)
        ensures
            r@ == detail_of(self@),
    {
        AdvisoryDetail {
            id: copy_text(&self.id),
            subtitle: copy_text(&self.subtitle),
            reported: copy_text(&self.reported),
            issued: copy_text(&self.issued),
            package: copy_text(&self.package),
            advisory_type: copy_text(&self.advisory_type),
            keywords: copy_text(&self.keywords),
            aliases: copy_text(&self.aliases),
            reference: copy_text(&self.reference),
            patched: copy_text(&self.patched),
            unaffected: copy_text(&self.unaffected),
            description: copy_text(&self.description),
            url: rustsec_url(self.id.as_str()),
        }
    }
}

impl AdvisoryDetail {
    /// A copy of this entry, field for field.
    pub fn duplicate(&self) -> (r: AdvisoryDetail)
        ensures
            r@ == self@,
    {
        AdvisoryDetail {
            id: copy_text(&self.id),
            subtitle: copy_text(&self.subtitle),
            reported: copy_text(&self.reported),
            issued: copy_text(&self.issued),
            package: copy_text(&self.package),
            advisory_type: copy_text(&self.advisory_type),
            keywords: copy_text(&self.keywords),
            aliases: copy_text(&self.aliases),
            reference: copy_text(&self.reference),
            patched: copy_text(&self.patched),
            unaffected: copy_text(&self.unaffected),
            description: copy_text(&self.description),
            url: copy_text(&self.url),
        }
    }
}

impl PartialEq for AdvisoryDetail {
    fn eq(&self, o: &AdvisoryDetail) -> (r: bool) {
        self.id == o.id && self.subtitle == o.subtitle && self.reported == o.reported
            && self.issued == o.issued && self.package == o.package && self.advisory_type
            == o.advisory_type && self.keywords == o.keywords && self.aliases == o.aliases
            && self.reference == o.reference && self.patched == o.patched && self.unaffected
            == o.unaffected && self.description == o.description && self.url == o.url
    }
}

impl vstd::std_specs::cmp::PartialEqSpecImpl for AdvisoryDetail {
    open spec fn obeys_eq_spec() -> bool {
        true
    }

    open spec fn eq_spec(&self, o: &AdvisoryDetail) -> bool {
        self@ == o@
    }
}

/// Appends to `out` the detail rows of advisory `id`, in store order.
fn push_details(infos: &Vec<AdvisoryInfo>, id: &String, out: &mut Vec<AdvisoryDetail>)
    ensures
        detail_views(final(out)@) == detail_views(old(out)@) + details_for(
            info_views(infos@),
            id@,
        ),
{
    let ghost iv = info_views(infos@);
    let ghost start = detail_views(out@);
    let mut i: usize = 0;
    assert(iv.take(0) =~= Seq::<InfoView>::empty());
    assert(start + details_for(iv.take(0), id@) =~= start);
    while i < infos.len()
        invariant
            iv == info_views(infos@),
            i <= infos.len(),
            detail_views(out@) == start + details_for(iv.take(i as int), id@),
        decreases infos.len() - i,
    {
        let ghost before = out@;
        assert(iv.take(i + 1).drop_last() =~= iv.take(i as int));
        assert(iv.take(i + 1).last() == infos@[i as int]@);
        if infos[i].id == *id {
            let d = infos[i].to_detail();
            out.push(d);
            assert(detail_views(out@) =~= detail_views(before).push(d@));
        }
        i += 1;
    }
    assert(iv.take(infos.len() as int) =~= iv);
}

/// Appends to `out` the direct hits of `crate_name` at `version`.
fn push_direct_hits(
    summaries: &Vec<AdvisorySummary>,
    infos: &Vec<AdvisoryInfo>,
    crate_name: &str,
    version: &str,
    out: &mut Vec<AdvisoryDetail>,
)
    ensures
        detail_views(final(out)@) == detail_views(old(out)@) + direct_hits(
            summary_views(summaries@),
            info_views(infos@),
            crate_name@,
            version@,
        ),
{
    let ghost sv = summary_views(summaries@);
    let ghost iv = info_views(infos@);
    let ghost start = detail_views(out@);
    let name = crate_name.to_owned();
    let mut i: usize = 0;
    assert(sv.take(0) =~= Seq::<SummaryView>::empty());
    assert(start + direct_hits(sv.take(0), iv, crate_name@, version@) =~= start);
    while i < summaries.len()
        invariant
            sv == summary_views(summaries@),
            iv == info_views(infos@),
            name@ == crate_name@,
            i <= summaries.len(),
            detail_views(out@) == start + direct_hits(sv.take(i as int), iv, crate_name@, version@),
        decreases summaries.len() - i,
    {
        let ghost before = detail_views(out@);
        assert(sv.take(i + 1).drop_last() =~= sv.take(i as int));
        assert(sv.take(i + 1).last() == summaries@[i as int]@);
        let rc = &summaries[i];
        if rc.crate_name == name && is_vulnerable(rc.patched.as_str(), version) {
            push_details(infos, &rc.id, out);
            assert(detail_views(out@) =~= start + direct_hits(
                sv.take(i + 1),
                iv,
                crate_name@,
                version@,
            ));
        }
        i += 1;
    }
    assert(sv.take(summaries.len() as int) =~= sv);
}

/// The details of every advisory that `cname` at `version` is exposed to, in
/// advisory order; each advisory's detail rows as the store holds them, repeats
/// included.
pub fn get_direct_rustsec(
    summaries: &Vec<AdvisorySummary>,
    infos: &Vec<AdvisoryInfo>,
    cname: &str,
    version: &str,
) -> (r: Vec<AdvisoryDetail>)
    ensures
        detail_views(r@) == direct_hits(
            summary_views(summaries@),
            info_views(infos@),
            cname@,
            version@,
        ),
{
    let mut out: Vec<AdvisoryDetail> = Vec::new();
    assert(detail_views(out@) =~= Seq::<DetailView>::empty());
    push_direct_hits(summaries, infos, cname, version, &mut out);
    assert(Seq::<DetailView>::empty() + direct_hits(
        summary_views(summaries@),
        info_views(infos@),
        cname@,
        version@,
    ) =~= direct_hits(summary_views(summaries@), info_views(infos@), cname@, version@));
    out
}

/// The crate name and the version of a `name/version` target.
pub fn target_parts(t: &str) -> (r: (String, String))
    requires
        is_target(t@),
    ensures
        r.0@ == target_name(t@),
        r.1@ == target_version(t@),
{
    let parts = split_on(t, '/');
    assert(parts@[0]@ == views(parts@)[0]);
    assert(parts@[1]@ == views(parts@)[1]);
    (copy_text(&parts[0]), copy_text(&parts[1]))
}

/// Whether an entry equal to `d` is among `v`.
fn holds_detail(v: &Vec<AdvisoryDetail>, d: &AdvisoryDetail) -> (r: bool)
    ensures
        r == detail_views(v@).contains(d@),
{
    let mut j: usize = 0;
    while j < v.len()
        invariant
            j <= v.len(),
            forall|k: int| 0 <= k < j ==> (#[trigger] v@[k])@ != d@,
        decreases v.len() - j,
    {
        if v[j] == *d {
            assert(detail_views(v@)[j as int] == d@);
            return true;
        }
        j += 1;
    }
    assert forall|k: int| 0 <= k < v.len() implies detail_views(v@)[k] != d@ by {
        assert(detail_views(v@)[k] == v@[k]@);
    }
    false
}

/// The entries of `all` in order, each kept only at its first occurrence.
pub fn dedup_details(all: &Vec<AdvisoryDetail>) -> (r: Vec<AdvisoryDetail>)
    ensures
        detail_views(r@) == dedup(detail_views(all@)),
{
    let ghost av = detail_views(all@);
    let mut out: Vec<AdvisoryDetail> = Vec::new();
    let mut i: usize = 0;
    assert(av.take(0) =~= Seq::<DetailView>::empty());
    assert(detail_views(out@) =~= Seq::<DetailView>::empty());
    while i < all.len()
        invariant
            av == detail_views(all@),
            i <= all.len(),
            detail_views(out@) == dedup(av.take(i as int)),
        decreases all.len() - i,
    {
        let ghost before = out@;
        assert(av.take(i + 1).drop_last() =~= av.take(i as int));
        assert(av.take(i + 1).last() == all@[i as int]@);
        if !holds_detail(&out, &all[i]) {
            let d = all[i].duplicate();
            out.push(d);
            assert(detail_views(out@) =~= detail_views(before).push(d@));
        }
        i += 1;
    }
    assert(av.take(all.len() as int) =~= av);
    out
}

/// The details of every advisory that some `name/version` target of
/// `nameversion` is exposed to: the direct hits of each target in turn, with
/// each entry kept only at its first occurrence.
pub fn get_dependency_rustsec(
    summaries: &Vec<AdvisorySummary>,
    infos: &Vec<AdvisoryInfo>,
    nameversion: &Vec<String>,
) -> (r: Vec<AdvisoryDetail>)
    requires
        forall|i: int| 0 <= i < nameversion.len() ==> is_target(#[trigger] nameversion@[i]@),
    ensures
        detail_views(r@) == dedup(
            transitive_hits(summary_views(summaries@), info_views(infos@), views(nameversion@)),
        ),
{
    let ghost sv = summary_views(summaries@);
    let ghost iv = info_views(infos@);
    let ghost tv = views(nameversion@);
    let mut all: Vec<AdvisoryDetail> = Vec::new();
    let mut i: usize = 0;
    assert(tv.take(0) =~= Seq::<Seq<char>>::empty());
    assert(detail_views(all@) =~= Seq::<DetailView>::empty());
    while i < nameversion.len()
        invariant
            sv == summary_views(summaries@),
            iv == info_views(infos@),
            tv == views(nameversion@),
            forall|k: int| 0 <= k < nameversion.len() ==> is_target(#[trigger] nameversion@[k]@),
            i <= nameversion.len(),
            detail_views(all@) == transitive_hits(sv, iv, tv.take(i as int)),
        decreases nameversion.len() - i,
    {
        assert(tv.take(i + 1).drop_last() =~= tv.take(i as int));
        assert(tv.take(i + 1).last() == nameversion@[i as int]@);
        let (cname, version) = target_parts(nameversion[i].as_str());
        push_direct_hits(summaries, infos, cname.as_str(), version.as_str(), &mut all);
        i += 1;
    }
    assert(tv.take(nameversion.len() as int) =~= tv);
    dedup_details(&all)
}

/// How many detail rows the store holds for advisory `id`.
pub open spec fn rows_with_id(infos: Seq<InfoView>, id: Seq<char>) -> nat
    decreases infos.len(),
{
    if infos.len() == 0 {
        0
    } else {
        rows_with_id(infos.drop_last(), id) + if infos.last().id == id {
            1nat
        } else {
            0nat
        }
    }
}

proof fn lemma_details_for_len(infos: Seq<InfoView>, id: Seq<char>)
    ensures
        details_for(infos, id).len() == rows_with_id(infos, id),
    decreases infos.len(),
{
    if infos.len() > 0 {
        lemma_details_for_len(infos.drop_last(), id);
    }
}

proof fn lemma_dedup(s: Seq<DetailView>)
    ensures
        no_duplicates(dedup(s)),
        forall|d: DetailView| dedup(s).contains(d) <==> s.contains(d),
    decreases s.len(),
{
    if s.len() > 0 {
        let pre = s.drop_last();
        lemma_dedup(pre);
        assert forall|d: DetailView| s.contains(d) <==> (pre.contains(d) || d == s.last()) by {
            if s.contains(d) {
                let k = choose|k: int| 0 <= k < s.len() && s[k] == d;
                if k < s.len() - 1 {
                    assert(pre[k] == d);
                }
            }
            if pre.contains(d) {
                let k = choose|k: int| 0 <= k < pre.len() && pre[k] == d;
                assert(s[k] == d);
            }
            if d == s.last() {
                assert(s[s.len() - 1] == d);
            }
        }
        let dp = dedup(pre);
        if !dp.contains(s.last()) {
            let dn = dp.push(s.last());
            assert forall|d: DetailView| dn.contains(d) <==> (dp.contains(d) || d == s.last()) by {
                if dn.contains(d) {
                    let k = choose|k: int| 0 <= k < dn.len() && dn[k] == d;
                    if k < dp.len() {
                        assert(dp[k] == d);
                    }
                }
                if dp.contains(d) {
                    let k = choose|k: int| 0 <= k < dp.len() && dp[k] == d;
                    assert(dn[k] == d);
                }
                if d == s.last() {
                    assert(dn[dp.len() as int] == d);
                }
            }
            assert forall|i: int, j: int| 0 <= i < j < dn.len() implies dn[i] != dn[j] by {
                if j == dp.len() {
                    assert(dp[i] == dn[i]);
                }
            }
        }
    }
}

/// Transitive resolution reports each exposed advisory entry exactly once, however
/// many targets lead to it: the result has no two equal entries, holds exactly
/// the entries that some target's direct resolution yields.
pub proof fn transitive_reports_each_entry_once(
    summaries: Seq<SummaryView>,
    infos: Seq<InfoView>,
    targets: Seq<Seq<char>>,
)
    ensures
        no_duplicates(dedup(transitive_hits(summaries, infos, targets))),
        forall|d: DetailView|
            #![trigger transitive_hits(summaries, infos, targets).contains(d)]
            dedup(transitive_hits(summaries, infos, targets)).contains(d)
                <==> transitive_hits(summaries, infos, targets).contains(d),
{
    lemma_dedup(transitive_hits(summaries, infos, targets));
}

/// Direct resolution keeps repeated detail rows: for an advisory that the version
/// is exposed to, it yields one entry for every row the store holds under the
/// advisory's id, repeats included.
pub proof fn direct_keeps_repeated_rows(
    summary: SummaryView,
    infos: Seq<InfoView>,
    crate_name: Seq<char>,
    version: Seq<char>,
)
    requires
        exposed(summary, crate_name, version),
    ensures
        direct_hits(seq![summary], infos, crate_name, version) == details_for(infos, summary.id),
        direct_hits(seq![summary], infos, crate_name, version).len() == rows_with_id(
            infos,
            summary.id,
        ),
{
    let s = seq![summary];
    assert(s.drop_last() =~= Seq::<SummaryView>::empty());
    assert(direct_hits(s.drop_last(), infos, crate_name, version) =~= Seq::<DetailView>::empty());
    assert(Seq::<DetailView>::empty() + details_for(infos, summary.id) =~= details_for(
        infos,
        summary.id,
    ));
    lemma_details_for_len(infos, summary.id);
}

/// Resolution is a function of its inputs: two runs over the same advisory
/// snapshot and the same query give the same entries in the same order.
pub proof fn resolution_is_repeatable(
    summaries: Seq<SummaryView>,
    infos: Seq<InfoView>,
    crate_name: Seq<char>,
    version: Seq<char>,
    targets: Seq<Seq<char>>,
    first: Seq<DetailView>,
    second: Seq<DetailView>,
    first_many: Seq<DetailView>,
    second_many: Seq<DetailView>,
)
    requires
        first == direct_hits(summaries, infos, crate_name, version),
        second == direct_hits(summaries, infos, crate_name, version),
        first_many == dedup(transitive_hits(summaries, infos, targets)),
        second_many == dedup(transitive_hits(summaries, infos, targets)),
    ensures
        first == second,
        first_many == second_many,
{
}

impl AdvisorySummary {
    /// An advisory summary from its stored fields; the aliases are stored joined by
    /// `;`.
    pub fn from_row(
        id: String,
        crate_name: String,
        patched: String,
        aliases: &str,
        short_description: String,
    ) -> (r: AdvisorySummary)
        ensures
            r.id == id,
            r.crate_name == crate_name,
            r.patched == patched,
            views(r.aliases@) == split(aliases@, ';'),
            r.short_description == short_description,
    {
        AdvisorySummary { id, crate_name, patched, aliases: split_on(aliases, ';'), short_description }
    }
}

} // verus!
