//! The integer side of a repository's health evaluation: the figures that each
//! evaluation pass reads from a repository's metadata.

use vstd::prelude::*;
use crate::github::GithubMetadata;

verus! {

/// What the evaluation passes read of a repository's stored metadata. Times are
/// whole seconds since the Unix epoch.
pub struct MetadataRecord {
    pub repo_id: String,
    pub is_archived: bool,
    pub license_name: Option<String>,
    pub disk_usage: i32,
    pub stargazer_count: i32,
    pub fork_count: i32,
    pub watcher_count: i32,
    pub mentionable_user_count: i32,
    pub open_issues: i32,
    pub closed_issues: i32,
    pub open_pull_requests: i32,
    pub closed_pull_requests: i32,
    pub merged_pull_requests: i32,
    pub commit_count: i32,
    pub created_at: Option<i64>,
    pub pushed_at: Option<i64>,
    pub primary_language: Option<String>,
    pub release_count: i32,
    pub owner_type: String,
    pub language_total_count: i32,
    pub language_total_size: i32,
    /// The repository's language list, as JSON.
    pub languages_json: Option<String>,
}

impl MetadataRecord {
    /// The record of a repository as the GraphQL API describes it. Its creation and
    /// last push times, and its language list as JSON, are given separately.
    pub fn from_github(
        repo: GithubMetadata,
        created_at: i64,
        pushed_at: i64,
        languages_json: String,
    ) -> (r: MetadataRecord)
        ensures
            r.repo_id == repo.id,
            r.is_archived == repo.is_archived,
            r.license_name == match repo.license_info {
                Some(l) => Some(l.name),
                None => None,
            },
            r.disk_usage == repo.disk_usage,
            r.stargazer_count == repo.stargazer_count,
            r.fork_count == repo.fork_count,
            r.watcher_count == repo.watchers.total_count,
            r.mentionable_user_count == repo.mentionable_users.total_count,
            r.open_issues == repo.open_issues.total_count,
            r.closed_issues == repo.closed_issues.total_count,
            r.open_pull_requests == repo.open_pull_requests.total_count,
            r.closed_pull_requests == repo.closed_pull_requests.total_count,
            r.merged_pull_requests == repo.merged_pull_requests.total_count,
            r.commit_count == match repo.default_branch_ref {
                Some(b) => b.target.history.total_count,
                None => 0,
            },
            r.created_at == Some(created_at),
            r.pushed_at == Some(pushed_at),
            r.primary_language == match repo.primary_language {
                Some(l) => Some(l.name),
                None => None,
            },
            r.release_count == repo.releases.total_count,
            r.owner_type == repo.owner.typename,
            r.language_total_count == repo.languages.total_count,
            r.language_total_size == repo.languages.total_size,
            r.languages_json == Some(languages_json),
    {
        let commit_count = repo.commit_count();
        MetadataRecord {
            repo_id: repo.id,
            is_archived: repo.is_archived,
            license_name: match repo.license_info {
                Some(l) => Some(l.name),
                None => None,
            },
            disk_usage: repo.disk_usage,
            stargazer_count: repo.stargazer_count,
            fork_count: repo.fork_count,
            watcher_count: repo.watchers.total_count,
            mentionable_user_count: repo.mentionable_users.total_count,
            open_issues: repo.open_issues.total_count,
            closed_issues: repo.closed_issues.total_count,
            open_pull_requests: repo.open_pull_requests.total_count,
            closed_pull_requests: repo.closed_pull_requests.total_count,
            merged_pull_requests: repo.merged_pull_requests.total_count,
            commit_count,
            created_at: Some(created_at),
            pushed_at: Some(pushed_at),
            primary_language: match repo.primary_language {
                Some(l) => Some(l.name),
                None => None,
            },
            release_count: repo.releases.total_count,
            owner_type: repo.owner.typename,
            language_total_count: repo.languages.total_count,
            language_total_size: repo.languages.total_size,
            languages_json: Some(languages_json),
        }
    }
}

/// The grade a total score falls in.
#[derive(Debug, Clone, Copy, PartialEq, Eq, Structural)]
pub enum EvaluationGrade {
    /// 90 to 100.
    A,
    /// 80 to 89.
    B,
    /// 60 to 79.
    C,
    /// Below 60.
    D,
}

/// The figures that one evaluation pass works on.
pub trait PassData {}

/// Where the evaluation results are stored.
pub struct DatabaseUrlConfig {
    pub url: String,
}

pub struct ActivityData {
    pub pr_count: i32,
    pub contributor_count: i32,
}

pub struct MaintainabilityData {
    /// Whole days since the last push, 0 when it is unknown.
    pub pushed_at_days: i64,
    pub is_archived: i64,
    pub commit_count: i32,
    pub releases_count: i32,
}

pub struct OpennessData {
    pub has_license: bool,
}

pub struct PopularityData {
    pub stargazer_count: i32,
    pub fork_count: i32,
    pub watcher_count: i32,
}

impl PassData for ActivityData {}

impl PassData for MaintainabilityData {}

impl PassData for OpennessData {}

impl PassData for PopularityData {}

pub struct Activity;

pub struct Maintainability;

pub struct Maturity;

pub struct Openness;

pub struct Popularity;

pub open spec fn pull_request_total(m: &MetadataRecord) -> int {
    m.open_pull_requests as int + m.closed_pull_requests as int + m.merged_pull_requests as int
}

pub const SECONDS_PER_DAY: i64 = 86400;

/// Whole days in `secs` seconds, rounded toward zero.
pub open spec fn whole_days(secs: int) -> int {
    if secs >= 0 {
        secs / 86400
    } else {
        -((-secs) / 86400)
    }
}

impl ActivityData {
    /// The pull requests of every state, and the contributors.
    pub fn from_metadata(m: &MetadataRecord) -> (r: ActivityData)
        requires
            i32::MIN <= pull_request_total(m) <= i32::MAX,
        ensures
            r.pr_count == pull_request_total(m),
            r.contributor_count == m.mentionable_user_count,
    {
        let total = m.open_pull_requests as i64 + m.closed_pull_requests as i64
            + m.merged_pull_requests as i64;
        ActivityData { pr_count: total as i32, contributor_count: m.mentionable_user_count }
    }
}

impl MaintainabilityData {
    /// Days since the last push as of `now`, the archive flag as a number, and the
    /// commit and release counts.
    pub fn from_metadata(m: &MetadataRecord, now: i64) -> (r: MaintainabilityData)
        requires
            m.pushed_at matches Some(p) ==> i64::MIN < now - p <= i64::MAX,
        ensures
            r.pushed_at_days == match m.pushed_at {
                Some(p) => whole_days(now - p),
                None => 0,
            },
            r.is_archived == if m.is_archived {
                1int
            } else {
                0int
            },
            r.commit_count == m.commit_count,
            r.releases_count == m.release_count,
    {
        let pushed_at_days = match m.pushed_at {
            Some(p) => {
                let secs = now - p;
                if secs >= 0 {
                    secs / SECONDS_PER_DAY
                } else {
                    -((-secs) / SECONDS_PER_DAY)
                }
            },
            None => 0,
        };
        MaintainabilityData {
            pushed_at_days,
            is_archived: if m.is_archived {
                1
            } else {
                0
            },
            commit_count: m.commit_count,
            releases_count: m.release_count,
        }
    }
}

impl OpennessData {
    /// Whether the repository names a license.
    pub fn from_metadata(m: &MetadataRecord) -> (r: OpennessData)
        ensures
            r.has_license == (m.license_name matches Some(n) && n@.len() > 0),
    {
        let has_license = match &m.license_name {
            Some(n) => n.as_str().unicode_len() > 0,
            None => false,
        };
        OpennessData { has_license }
    }
}

impl PopularityData {
    /// Stars, forks and watchers.
    pub fn from_metadata(m: &MetadataRecord) -> (r: PopularityData)
        ensures
            r.stargazer_count == m.stargazer_count,
            r.fork_count == m.fork_count,
            r.watcher_count == m.watcher_count,
    {
        PopularityData {
            stargazer_count: m.stargazer_count,
            fork_count: m.fork_count,
            watcher_count: m.watcher_count,
        }
    }
}

impl Activity {
    pub fn required_data(&self, m: &MetadataRecord) -> (r: ActivityData)
        requires
            i32::MIN <= pull_request_total(m) <= i32::MAX,
        ensures
            r.pr_count == pull_request_total(m),
            r.contributor_count == m.mentionable_user_count,
    {
        ActivityData::from_metadata(m)
    }

    /// The key this pass's score is stored under.
    pub fn name(&self) -> (r: &'static str)
        ensures
            r@ == "activity_score"@,
    {
        "activity_score"
    }
}

impl Maintainability {
    pub fn required_data(&self, m: &MetadataRecord, now: i64) -> (r: MaintainabilityData)
        requires
            m.pushed_at matches Some(p) ==> i64::MIN < now - p <= i64::MAX,
        ensures
            r.pushed_at_days == match m.pushed_at {
                Some(p) => whole_days(now - p),
                None => 0,
            },
            r.commit_count == m.commit_count,
            r.releases_count == m.release_count,
    {
        MaintainabilityData::from_metadata(m, now)
    }

    /// The key this pass's score is stored under.
    pub fn name(&self) -> (r: &'static str)
        ensures
            r@ == "maintainability_score"@,
    {
        "maintainability_score"
    }
}

impl Maturity {
    /// The key this pass's score is stored under.
    pub fn name(&self) -> (r: &'static str)
        ensures
            r@ == "maturity_score"@,
    {
        "maturity_score"
    }
}

impl Openness {
    pub fn required_data(&self, m: &MetadataRecord) -> (r: OpennessData)
        ensures
            r.has_license == (m.license_name matches Some(n) && n@.len() > 0),
    {
        OpennessData::from_metadata(m)
    }

    /// The key this pass's score is stored under.
    pub fn name(&self) -> (r: &'static str)
        ensures
            r@ == "openness_score"@,
    {
        "openness_score"
    }
}

impl Popularity {
    pub fn required_data(&self, m: &MetadataRecord) -> (r: PopularityData)
        ensures
            r.stargazer_count == m.stargazer_count,
            r.fork_count == m.fork_count,
            r.watcher_count == m.watcher_count,
    {
        PopularityData::from_metadata(m)
    }

    /// The key this pass's score is stored under.
    pub fn name(&self) -> (r: &'static str)
        ensures
            r@ == "popularity_score"@,
    {
        "popularity_score"
    }
}

} // verus!
