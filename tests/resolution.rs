use advisory_match::advisory::{
    dedup_details, get_dependency_rustsec, get_direct_rustsec, rustsec_url, target_parts,
    AdvisoryDetail, AdvisoryInfo, AdvisorySummary,
};

fn summary(id: &str, crate_name: &str, patched: &str) -> AdvisorySummary {
    AdvisorySummary::from_row(
        id.to_string(),
        crate_name.to_string(),
        patched.to_string(),
        "CVE-1;GHSA-2",
        "short".to_string(),
    )
}

fn info(id: &str, subtitle: &str) -> AdvisoryInfo {
    AdvisoryInfo {
        id: id.to_string(),
        subtitle: subtitle.to_string(),
        reported: "2021-01-01".to_string(),
        issued: "2021-01-02".to_string(),
        package: "pkg".to_string(),
        advisory_type: "vulnerability".to_string(),
        keywords: "memory".to_string(),
        aliases: "CVE-1".to_string(),
        reference: "".to_string(),
        patched: ">=1.2.0".to_string(),
        unaffected: "<0.1.0".to_string(),
        description: "desc".to_string(),
    }
}

fn store() -> (Vec<AdvisorySummary>, Vec<AdvisoryInfo>) {
    let summaries = vec![
        summary("RUSTSEC-2021-0001", "foo", ">=1.2.0"),
        summary("RUSTSEC-2021-0002", "bar", "^0.5.0|>=0.6.0"),
        summary("RUSTSEC-2021-0003", "foo", ">=0.1.0,<0.2.0|>=0.9.0"),
    ];
    let infos = vec![
        info("RUSTSEC-2021-0001", "first"),
        info("RUSTSEC-2021-0002", "second"),
        info("RUSTSEC-2021-0003", "third"),
        info("RUSTSEC-2021-0001", "first"),
    ];
    (summaries, infos)
}

fn ids(r: &[AdvisoryDetail]) -> Vec<String> {
    r.iter().map(|d| d.id.clone()).collect()
}

#[test]
fn summary_aliases_are_split() {
    let s = summary("RUSTSEC-2021-0001", "foo", ">=1.2.0");
    assert_eq!(s.aliases, vec!["CVE-1".to_string(), "GHSA-2".to_string()]);
}

#[test]
fn advisory_url_is_derived_from_id() {
    assert_eq!(rustsec_url("RUSTSEC-2021-0001"), "https://rustsec.org/advisories/RUSTSEC-2021-0001.html");
    let d = info("RUSTSEC-2020-0042", "x").to_detail();
    assert_eq!(d.url, "https://rustsec.org/advisories/RUSTSEC-2020-0042.html");
    assert_eq!(d.subtitle, "x");
}

#[test]
fn direct_resolution_reports_exposed_advisories() {
    let (summaries, infos) = store();
    let r = get_direct_rustsec(&summaries, &infos, "foo", "1.0.0");
    assert_eq!(ids(&r), vec!["RUSTSEC-2021-0001", "RUSTSEC-2021-0001"]);
    let low = get_direct_rustsec(&summaries, &infos, "foo", "0.5.0");
    assert_eq!(
        ids(&low),
        vec!["RUSTSEC-2021-0001", "RUSTSEC-2021-0001", "RUSTSEC-2021-0003"]
    );
    let patched = get_direct_rustsec(&summaries, &infos, "foo", "1.3.0");
    assert!(patched.is_empty());
    let other = get_direct_rustsec(&summaries, &infos, "baz", "0.0.1");
    assert!(other.is_empty());
}

#[test]
fn direct_resolution_keeps_duplicate_rows() {
    let (summaries, infos) = store();
    let r = get_direct_rustsec(&summaries, &infos, "foo", "0.5.0");
    assert_eq!(r.len(), 3);
    assert!(r[0] == r[1]);
}

#[test]
fn transitive_resolution_deduplicates() {
    let (summaries, infos) = store();
    let targets = vec!["foo/1.0.0".to_string(), "foo/1.1.0".to_string(), "bar/0.5.1".to_string()];
    let r = get_dependency_rustsec(&summaries, &infos, &targets);
    assert_eq!(
        ids(&r),
        vec!["RUSTSEC-2021-0001", "RUSTSEC-2021-0002"]
    );
    for i in 0..r.len() {
        for j in (i + 1)..r.len() {
            assert!(r[i] != r[j]);
        }
    }
}

#[test]
fn transitive_resolution_is_repeatable() {
    let (summaries, infos) = store();
    let targets = vec!["foo/0.1.5".to_string(), "bar/0.5.0".to_string(), "foo/2.0.0".to_string()];
    let first = get_dependency_rustsec(&summaries, &infos, &targets);
    let second = get_dependency_rustsec(&summaries, &infos, &targets);
    assert_eq!(first, second);
    assert_eq!(ids(&first), vec!["RUSTSEC-2021-0001"]);
    let direct_a = get_direct_rustsec(&summaries, &infos, "foo", "0.3.0");
    let direct_b = get_direct_rustsec(&summaries, &infos, "foo", "0.3.0");
    assert_eq!(direct_a, direct_b);
}

#[test]
fn dedup_keeps_first_occurrences() {
    let a = info("A", "a").to_detail();
    let b = info("B", "b").to_detail();
    let all = vec![a.duplicate(), b.duplicate(), a.duplicate(), b.duplicate(), a.duplicate()];
    let r = dedup_details(&all);
    assert_eq!(ids(&r), vec!["A", "B"]);
    let empty: Vec<AdvisoryDetail> = Vec::new();
    assert!(dedup_details(&empty).is_empty());
}

#[test]
fn targets_split_on_slash() {
    let (name, version) = target_parts("serde/1.0.130");
    assert_eq!(name, "serde");
    assert_eq!(version, "1.0.130");
}
