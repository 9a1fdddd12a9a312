//! The text form in which lists of advisory details are stored beside a crate's
//! information: each entry's fields joined by `------`, entries joined by
//! `||||||`, empty fields written as `Null`.

use vstd::prelude::*;
use crate::advisory::{AdvisoryDetail, DetailView, InfoView, detail_views};
use crate::text::{join, split_text, views, join_texts, split_on_text};

verus! {

/// A field as stored: `Null` in place of an empty one.
pub open spec fn or_null(f: Seq<char>) -> Seq<char> {
    if f.len() == 0 {
        "Null"@
    } else {
        f
    }
}

/// The thirteen stored fields of an entry, in stored order. The id and the page
/// address are stored as they are; the page address comes before the description.
pub open spec fn stored_fields(d: DetailView) -> Seq<Seq<char>> {
    seq![
        d.info.id,
        or_null(d.info.subtitle),
        or_null(d.info.reported),
        or_null(d.info.issued),
        or_null(d.info.package),
        or_null(d.info.advisory_type),
        or_null(d.info.keywords),
        or_null(d.info.aliases),
        or_null(d.info.reference),
        or_null(d.info.patched),
        or_null(d.info.unaffected),
        d.url,
        or_null(d.info.description),
    ]
}

/// The non-empty texts of `fs`, in order.
pub open spec fn filled(fs: Seq<Seq<char>>) -> Seq<Seq<char>>
    decreases fs.len(),
{
    if fs.len() == 0 {
        fs
    } else if fs.last().len() > 0 {
        filled(fs.drop_last()).push(fs.last())
    } else {
        filled(fs.drop_last())
    }
}

pub open spec fn encode_detail(d: DetailView) -> Seq<char> {
    join(filled(stored_fields(d)), "------"@)
}

pub open spec fn encode_all(ds: Seq<DetailView>) -> Seq<Seq<char>>
    decreases ds.len(),
{
    if ds.len() == 0 {
        Seq::empty()
    } else {
        encode_all(ds.drop_last()).push(encode_detail(ds.last()))
    }
}

/// The stored text of a list of entries.
pub open spec fn encode_details(ds: Seq<DetailView>) -> Seq<char> {
    join(encode_all(ds), "||||||"@)
}

/// An entry from its thirteen stored fields.
pub open spec fn detail_from_fields(f: Seq<Seq<char>>) -> DetailView {
    DetailView {
        info: InfoView {
            id: f[0],
            subtitle: f[1],
            reported: f[2],
            issued: f[3],
            package: f[4],
            advisory_type: f[5],
            keywords: f[6],
            aliases: f[7],
            reference: f[8],
            patched: f[9],
            unaffected: f[10],
            description: f[12],
        },
        url: f[11],
    }
}

/// The entries of stored pieces: each piece that splits into exactly thirteen
/// fields gives one entry; any other piece is skipped.
pub open spec fn decode_pieces(ps: Seq<Seq<char>>) -> Seq<DetailView>
    decreases ps.len(),
{
    if ps.len() == 0 {
        Seq::empty()
    } else {
        let pre = decode_pieces(ps.drop_last());
        let f = split_text(ps.last(), "------"@);
        if f.len() == 13 {
            pre.push(detail_from_fields(f))
        } else {
            pre
        }
    }
}

/// The entries of a stored text.
pub open spec fn decode_details(s: Seq<char>) -> Seq<DetailView> {
    decode_pieces(split_text(s, "||||||"@))
}

fn stored_field(f: &String) -> (r: String)
    ensures
        r@ == or_null(f@),
{
    if f.as_str().unicode_len() == 0 {
        "Null".to_owned()
    } else {
        f.clone()
    }
}

/// The stored text of one entry.
pub fn encode_entry(d: &AdvisoryDetail) -> (r: String)
    ensures
        r@ == encode_detail(d@),
{
    let fields: Vec<String> = vec![
        d.id.clone(),
        stored_field(&d.subtitle),
        stored_field(&d.reported),
        stored_field(&d.issued),
        stored_field(&d.package),
        stored_field(&d.advisory_type),
        stored_field(&d.keywords),
        stored_field(&d.aliases),
        stored_field(&d.reference),
        stored_field(&d.patched),
        stored_field(&d.unaffected),
        d.url.clone(),
        stored_field(&d.description),
    ];
    let ghost fv = views(fields@);
    assert(fv =~= stored_fields(d@));
    let mut kept: Vec<String> = Vec::new();
    let mut i: usize = 0;
    assert(fv.take(0) =~= Seq::<Seq<char>>::empty());
    assert(views(kept@) =~= Seq::<Seq<char>>::empty());
    while i < fields.len()
        invariant
            fv == views(fields@),
            i <= fields.len(),
            views(kept@) == filled(fv.take(i as int)),
        decreases fields.len() - i,
    {
        let ghost before = kept@;
        assert(fv.take(i + 1).drop_last() =~= fv.take(i as int));
        assert(fv.take(i + 1).last() == fields@[i as int]@);
        if fields[i].as_str().unicode_len() > 0 {
            kept.push(fields[i].clone());
            assert(views(kept@) =~= views(before).push(fields@[i as int]@));
        }
        i += 1;
    }
    assert(fv.take(fields.len() as int) =~= fv);
    join_texts(&kept, "------")
}

/// The stored text of a list of entries: the entries' texts joined by `||||||`.
pub fn process_cves(cves: &Vec<AdvisoryDetail>) -> (r: String)
    ensures
        r@ == encode_details(detail_views(cves@)),
{
    let ghost dv = detail_views(cves@);
    let mut texts: Vec<String> = Vec::new();
    let mut i: usize = 0;
    assert(dv.take(0) =~= Seq::<DetailView>::empty());
    assert(views(texts@) =~= Seq::<Seq<char>>::empty());
    while i < cves.len()
        invariant
            dv == detail_views(cves@),
            i <= cves.len(),
            views(texts@) == encode_all(dv.take(i as int)),
        decreases cves.len() - i,
    {
        let ghost before = texts@;
        assert(dv.take(i + 1).drop_last() =~= dv.take(i as int));
        assert(dv.take(i + 1).last() == cves@[i as int]@);
        let t = encode_entry(&cves[i]);
        texts.push(t);
        assert(views(texts@) =~= views(before).push(t@));
        i += 1;
    }
    assert(dv.take(cves.len() as int) =~= dv);
    join_texts(&texts, "||||||")
}

fn entry_from_fields(f: &Vec<String>) -> (r: AdvisoryDetail)
    requires
        f.len() == 13,
    ensures
        r@ == detail_from_fields(views(f@)),
{
    AdvisoryDetail {
        id: f[0].clone(),
        subtitle: f[1].clone(),
        reported: f[2].clone(),
        issued: f[3].clone(),
        package: f[4].clone(),
        advisory_type: f[5].clone(),
        keywords: f[6].clone(),
        aliases: f[7].clone(),
        reference: f[8].clone(),
        patched: f[9].clone(),
        unaffected: f[10].clone(),
        description: f[12].clone(),
        url: f[11].clone(),
    }
}

/// The entries of a stored text: pieces between `||||||` that split into exactly
/// thirteen `------`-separated fields, in order; other pieces are skipped.
pub fn parse_cves(s: &str) -> (r: Vec<AdvisoryDetail>)
    ensures
        detail_views(r@) == decode_details(s@),
{
    proof {
        reveal_strlit("||||||");
        reveal_strlit("------");
    }
    let pieces = split_on_text(s, "||||||");
    let ghost pv = views(pieces@);
    let mut out: Vec<AdvisoryDetail> = Vec::new();
    let mut i: usize = 0;
    assert(pv.take(0) =~= Seq::<Seq<char>>::empty());
    assert(detail_views(out@) =~= Seq::<DetailView>::empty());
    while i < pieces.len()
        invariant
            pv == views(pieces@),
            i <= pieces.len(),
            detail_views(out@) == decode_pieces(pv.take(i as int)),
            "------"@.len() > 0,
        decreases pieces.len() - i,
    {
        let ghost before = out@;
        assert(pv.take(i + 1).drop_last() =~= pv.take(i as int));
        assert(pv.take(i + 1).last() == pieces@[i as int]@);
        let fields = split_on_text(pieces[i].as_str(), "------");
        if fields.len() == 13 {
            let d = entry_from_fields(&fields);
            out.push(d);
            assert(detail_views(out@) =~= detail_views(before).push(d@));
        }
        i += 1;
    }
    assert(pv.take(pieces.len() as int) =~= pv);
    out
}

} // verus!
