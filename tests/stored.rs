use advisory_match::advisory::{AdvisoryDetail, AdvisoryInfo};
use advisory_match::stored::{encode_entry, parse_cves, process_cves};

fn detail(id: &str, reference: &str) -> AdvisoryDetail {
    AdvisoryInfo {
        id: id.to_string(),
        subtitle: "sub".to_string(),
        reported: "2021-01-01".to_string(),
        issued: "2021-01-02".to_string(),
        package: "foo".to_string(),
        advisory_type: "vuln".to_string(),
        keywords: "kw".to_string(),
        aliases: "CVE-1".to_string(),
        reference: reference.to_string(),
        patched: ">=1.0.0".to_string(),
        unaffected: "<0.1.0".to_string(),
        description: "desc".to_string(),
    }
    .to_detail()
}

#[test]
fn entry_text_fills_empty_fields_with_null() {
    let d = detail("RUSTSEC-1", "");
    assert_eq!(
        encode_entry(&d),
        "RUSTSEC-1------sub------2021-01-01------2021-01-02------foo------vuln------kw------CVE-1------Null------>=1.0.0------<0.1.0------https://rustsec.org/advisories/RUSTSEC-1.html------desc"
    );
}

#[test]
fn list_text_joins_entries() {
    let a = detail("A", "r");
    let b = detail("B", "r");
    let text = process_cves(&vec![a.duplicate(), b.duplicate()]);
    assert_eq!(text, format!("{}||||||{}", encode_entry(&a), encode_entry(&b)));
    assert_eq!(process_cves(&Vec::new()), "");
}

#[test]
fn stored_text_reads_back() {
    let a = detail("A", "r");
    let b = detail("B", "ref");
    let text = process_cves(&vec![a.duplicate(), b.duplicate()]);
    let back = parse_cves(&text);
    assert_eq!(back, vec![a, b]);
}

#[test]
fn short_pieces_are_skipped() {
    let a = detail("A", "r");
    let text = format!("x------y||||||{}||||||", encode_entry(&a));
    let back = parse_cves(&text);
    assert_eq!(back.len(), 1);
    assert_eq!(back[0].id, "A");
    assert_eq!(back[0].url, "https://rustsec.org/advisories/A.html");
    assert!(parse_cves("").is_empty());
}
