use advisory_match::cve::{Allcve, CveInfo};
use advisory_match::evaluate::{
    Activity, ActivityData, Maintainability, MaintainabilityData, MetadataRecord, Maturity,
    Openness, OpennessData, Popularity, PopularityData,
};
use advisory_match::github::{
    CommitTarget, ContributorAnalysis, Count, DefaultBranchRef, GithubMetadata, History, Language,
    LanguageEdge, Languages, LicenseInfo, Owner,
};

fn record() -> MetadataRecord {
    MetadataRecord {
        repo_id: "r1".to_string(),
        is_archived: true,
        license_name: Some("MIT".to_string()),
        disk_usage: 100,
        stargazer_count: 10,
        fork_count: 3,
        watcher_count: 7,
        mentionable_user_count: 5,
        open_issues: 1,
        closed_issues: 2,
        open_pull_requests: 2,
        closed_pull_requests: 4,
        merged_pull_requests: 6,
        commit_count: 120,
        created_at: Some(0),
        pushed_at: Some(1_000_000),
        primary_language: Some("Rust".to_string()),
        release_count: 9,
        owner_type: "Organization".to_string(),
        language_total_count: 2,
        language_total_size: 3000,
        languages_json: None,
    }
}

#[test]
fn cve_url_from_id() {
    let c = CveInfo::from_row(
        "CVE-2023-1234".to_string(),
        "foo".to_string(),
        "1.0.0".to_string(),
        "1.2.0".to_string(),
        "desc".to_string(),
    );
    assert_eq!(c.url_text(), "https://www.cve.org/CVERecord?id=CVE-2023-1234");
    assert_eq!(c.id_text(), "CVE-2023-1234");
    let all = Allcve::new(vec![c]);
    assert_eq!(all.cves().len(), 1);
}

#[test]
fn activity_sums_pull_requests() {
    let d = ActivityData::from_metadata(&record());
    assert_eq!(d.pr_count, 12);
    assert_eq!(d.contributor_count, 5);
    assert_eq!(Activity.required_data(&record()).pr_count, 12);
    assert_eq!(Activity.name(), "activity_score");
}

#[test]
fn maintainability_counts_whole_days() {
    let m = record();
    let d = MaintainabilityData::from_metadata(&m, 1_000_000 + 3 * 86400 + 86399);
    assert_eq!(d.pushed_at_days, 3);
    assert_eq!(d.is_archived, 1);
    assert_eq!(d.commit_count, 120);
    assert_eq!(d.releases_count, 9);
    let before = MaintainabilityData::from_metadata(&m, 1_000_000 - 86400 - 5);
    assert_eq!(before.pushed_at_days, -1);
    let mut unknown = record();
    unknown.pushed_at = None;
    unknown.is_archived = false;
    let u = Maintainability.required_data(&unknown, 5);
    assert_eq!(u.pushed_at_days, 0);
    assert_eq!(u.is_archived, 0);
    assert_eq!(Maintainability.name(), "maintainability_score");
}

#[test]
fn openness_needs_a_license_name() {
    let mut m = record();
    assert!(OpennessData::from_metadata(&m).has_license);
    m.license_name = Some(String::new());
    assert!(!Openness.required_data(&m).has_license);
    m.license_name = None;
    assert!(!OpennessData::from_metadata(&m).has_license);
    assert_eq!(Openness.name(), "openness_score");
}

#[test]
fn popularity_copies_counts() {
    let d = PopularityData::from_metadata(&record());
    assert_eq!((d.stargazer_count, d.fork_count, d.watcher_count), (10, 3, 7));
    assert_eq!(Popularity.required_data(&record()).fork_count, 3);
    assert_eq!(Popularity.name(), "popularity_score");
    assert_eq!(Maturity.name(), "maturity_score");
}

#[test]
fn china_time_zone() {
    let a = ContributorAnalysis { has_china_timezone: true, common_timezone: "+08:00".to_string() };
    assert!(a.is_from_china());
    let b = ContributorAnalysis { has_china_timezone: false, common_timezone: "+09:00".to_string() };
    assert!(!b.is_from_china());
}

fn count(n: i32) -> Count {
    Count { total_count: n }
}

fn github(branch: Option<i32>, license: Option<&str>) -> GithubMetadata {
    GithubMetadata {
        id: "R_1".to_string(),
        is_archived: false,
        license_info: license.map(|n| LicenseInfo { name: n.to_string() }),
        disk_usage: 42,
        stargazer_count: 11,
        fork_count: 12,
        watchers: count(13),
        mentionable_users: count(14),
        open_issues: count(15),
        closed_issues: count(16),
        open_pull_requests: count(17),
        closed_pull_requests: count(18),
        merged_pull_requests: count(19),
        default_branch_ref: branch.map(|c| DefaultBranchRef {
            target: CommitTarget { history: History { total_count: c } },
        }),
        created_at: "2020-01-01T00:00:00Z".to_string(),
        pushed_at: "2020-02-01T00:00:00Z".to_string(),
        primary_language: Some(Language { name: "Rust".to_string() }),
        releases: count(20),
        owner: Owner { typename: "User".to_string() },
        languages: Languages {
            total_count: 1,
            total_size: 500,
            edges: vec![LanguageEdge { size: 500, node: Language { name: "Rust".to_string() } }],
        },
    }
}

#[test]
fn default_branch_commits() {
    assert_eq!(github(Some(4), None).commit_count(), 4);
    assert_eq!(github(None, None).commit_count(), 0);
}

#[test]
fn record_from_github_metadata() {
    let r = MetadataRecord::from_github(github(Some(99), Some("MIT")), 10, 20, "[]".to_string());
    assert_eq!(r.repo_id, "R_1");
    assert_eq!(r.license_name.as_deref(), Some("MIT"));
    assert_eq!(r.watcher_count, 13);
    assert_eq!(r.mentionable_user_count, 14);
    assert_eq!(r.open_issues, 15);
    assert_eq!(r.closed_issues, 16);
    assert_eq!((r.open_pull_requests, r.closed_pull_requests, r.merged_pull_requests), (17, 18, 19));
    assert_eq!(r.commit_count, 99);
    assert_eq!((r.created_at, r.pushed_at), (Some(10), Some(20)));
    assert_eq!(r.primary_language.as_deref(), Some("Rust"));
    assert_eq!(r.release_count, 20);
    assert_eq!(r.owner_type, "User");
    assert_eq!((r.language_total_count, r.language_total_size), (1, 500));
    assert_eq!(r.languages_json.as_deref(), Some("[]"));
    let bare = MetadataRecord::from_github(github(None, None), 0, 0, String::new());
    assert_eq!(bare.commit_count, 0);
    assert!(bare.license_name.is_none());
}
