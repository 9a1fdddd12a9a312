use advisory_match::constraint::{
    is_vulnerable, match_version, process_closed_interval_of_match_version,
    process_open_interval_of_match_version, read_clause, read_expression, Clause, Comparator,
};
use advisory_match::text::{split_on, trim_text};
use advisory_match::version::{compare_versions, parse_token};
use std::cmp::Ordering;

fn open(op: Comparator, bound: &str) -> Clause {
    Clause::Open { op, bound: bound.to_string() }
}

#[test]
fn exact_clause_matches_literal_only() {
    assert!(!is_vulnerable("^1.2.3", "1.2.3"));
    assert!(is_vulnerable("^1.2.3", "1.2.4"));
}

#[test]
fn exact_clause_is_not_semantic_equality() {
    assert!(is_vulnerable("^1.2.3", "1.2.3+build"));
    assert!(is_vulnerable("^1.2.3", " 1.2.3"));
}

#[test]
fn open_exclusive_lower() {
    assert!(!open(Comparator::Gt, "1.0.0").satisfied_by("1.0.0"));
    assert!(open(Comparator::Gt, "1.0.0").satisfied_by("1.0.1"));
    assert!(!open(Comparator::Gt, "1.0.0").satisfied_by("0.9.9"));
}

#[test]
fn open_inclusive_lower() {
    assert!(open(Comparator::Ge, "1.0.0").satisfied_by("1.0.0"));
    assert!(open(Comparator::Ge, "1.0.0").satisfied_by("2.0.0"));
    assert!(!open(Comparator::Ge, "1.0.0").satisfied_by("0.1.0"));
}

#[test]
fn open_upper_bounds() {
    assert!(open(Comparator::Lt, "1.0.0").satisfied_by("0.9.0"));
    assert!(!open(Comparator::Lt, "1.0.0").satisfied_by("1.0.0"));
    assert!(open(Comparator::Le, "1.0.0").satisfied_by("1.0.0"));
    assert!(!open(Comparator::Le, "1.0.0").satisfied_by("1.0.1"));
}

#[test]
fn closed_exclusive_exclusive() {
    assert!(!is_vulnerable(">1.0.0,<2.0.0", "1.5.0"));
    assert!(is_vulnerable(">1.0.0,<2.0.0", "1.0.0"));
    assert!(is_vulnerable(">1.0.0,<2.0.0", "2.0.0"));
}

#[test]
fn closed_inclusive_inclusive() {
    assert!(!is_vulnerable(">=1.0.0,<=2.0.0", "1.0.0"));
    assert!(!is_vulnerable(">=1.0.0,<=2.0.0", "2.0.0"));
    assert!(is_vulnerable(">=1.0.0,<=2.0.0", "0.9.9"));
}

#[test]
fn closed_mixed_bounds() {
    assert!(process_closed_interval_of_match_version(">1.0.0,<=2.0.0", "2.0.0"));
    assert!(!process_closed_interval_of_match_version(">1.0.0,<=2.0.0", "1.0.0"));
    assert!(process_closed_interval_of_match_version(">=1.0.0,<2.0.0", "1.0.0"));
    assert!(!process_closed_interval_of_match_version(">=1.0.0,<2.0.0", "2.0.0"));
}

#[test]
fn closed_upper_side_first() {
    assert!(process_closed_interval_of_match_version("<2.0.0, >1.0.0", "1.5.0"));
    assert!(!process_closed_interval_of_match_version("<2.0.0, >1.0.0", "2.5.0"));
}

#[test]
fn malformed_closed_matches_nothing() {
    assert!(!process_closed_interval_of_match_version(">1.0.0,>2.0.0", "3.0.0"));
    assert!(!process_closed_interval_of_match_version("<1.0.0,<2.0.0", "0.5.0"));
    assert!(!process_closed_interval_of_match_version(">1.0.0,<2.0.0,<3.0.0", "1.5.0"));
    assert!(is_vulnerable("1.0.0,2.0.0", "1.5.0"));
    assert!(matches!(read_clause(">1.0.0,>2.0.0"), Clause::Unmatchable));
}

#[test]
fn or_composition() {
    assert!(match_version("^1.0.0|>2.0.0,<3.0.0", "1.0.0"));
    assert!(match_version("^1.0.0|>2.0.0,<3.0.0", "2.5.0"));
    assert!(!match_version("^1.0.0|>2.0.0,<3.0.0", "1.5.0"));
}

#[test]
fn outer_clause_whitespace_is_kept() {
    assert!(is_vulnerable("^1.0.0| >=2.0.0", "2.5.0"));
    assert!(!is_vulnerable("^1.0.0|>=2.0.0", "2.5.0"));
    assert_eq!(read_expression("^1.0.0| >=2.0.0").len(), 2);
}

#[test]
fn open_clause_reading() {
    assert!(process_open_interval_of_match_version(">=1.2.0", "1.2.0"));
    assert!(!process_open_interval_of_match_version("=1.2.0", "1.2.0"));
    match read_clause("<=0.3.1") {
        Clause::Open { op, bound } => {
            assert_eq!(op, Comparator::Le);
            assert_eq!(bound, "0.3.1");
        }
        _ => panic!("expected an open clause"),
    }
    assert!(matches!(read_clause("1.^2"), Clause::Unmatchable));
}

#[test]
fn unparseable_token_ranks_lowest() {
    let banana = parse_token("banana");
    let low = parse_token("0.0.1");
    assert_eq!(compare_versions(&banana, &low), Ordering::Less);
    assert_eq!(compare_versions(&low, &banana), Ordering::Greater);
    let one = parse_token("1.0.0");
    let junk = parse_token("99999-not-a-version");
    assert_eq!(compare_versions(&junk, &one), Ordering::Less);
    assert_eq!(compare_versions(&junk, &banana), Ordering::Equal);
}

#[test]
fn semantic_version_order() {
    let a = parse_token("1.0.0");
    let b = parse_token("1.0.1");
    let pre = parse_token("1.0.0-alpha");
    let ten = parse_token("1.10.0");
    let nine = parse_token("1.9.0");
    assert_eq!(compare_versions(&a, &b), Ordering::Less);
    assert_eq!(compare_versions(&b, &a), Ordering::Greater);
    assert_eq!(compare_versions(&pre, &a), Ordering::Less);
    assert_eq!(compare_versions(&ten, &nine), Ordering::Greater);
    assert_eq!(compare_versions(&a, &parse_token("1.0.0")), Ordering::Equal);
}

#[test]
fn unparseable_version_against_open_bound() {
    assert!(!open(Comparator::Ge, "1.0.0").satisfied_by("banana"));
    assert!(open(Comparator::Lt, "1.0.0").satisfied_by("banana"));
    assert!(is_vulnerable(">=1.0.0", "banana"));
}

#[test]
fn split_and_trim() {
    assert_eq!(split_on("a|b||c", '|'), vec!["a", "b", "", "c"]);
    assert_eq!(split_on("", '|'), vec![""]);
    assert_eq!(trim_text(" \t>=1.0.0 \n"), ">=1.0.0");
    assert_eq!(trim_text("   "), "");
}
