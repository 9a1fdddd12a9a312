//! Shapes of the data that the GitHub APIs return about users, contributors,
//! repositories and commits.

use vstd::prelude::*;

verus! {

/// A user as the analysis keeps it: store id, GitHub id, login and the e-mail
/// addresses seen for it.
pub struct AnalyzedUser {
    pub user_id: i32,
    pub github_id: i64,
    pub login: String,
    pub profile_email: Option<String>,
    pub commit_email: Option<String>,
}

pub struct Contributor {
    pub id: i64,
    pub login: String,
    pub avatar_url: String,
    pub contributions: i32,
    pub email: Option<String>,
}

/// Where a repository's contributors appear to work from.
pub struct ContributorAnalysis {
    pub has_china_timezone: bool,
    pub common_timezone: String,
}

impl ContributorAnalysis {
    /// Whether the contributors' most common time zone is UTC+08:00.
    pub fn is_from_china(&self) -> (r: bool)
        ensures
            r == (self.common_timezone@ == "+08:00"@),
    {
        let tz = "+08:00".to_owned();
        self.common_timezone == tz
    }
}

pub struct Repository {
    pub id: String,
    pub name: String,
    pub url: String,
    pub created_at: String,
}

pub struct GraphQLResponse {
    pub data: Option<SearchData>,
}

pub struct SearchData {
    pub search: SearchResult,
}

pub struct SearchResult {
    pub edges: Vec<Edge>,
    pub page_info: PageInfo,
}

pub struct Edge {
    pub node: Repository,
}

pub struct PageInfo {
    pub end_cursor: Option<String>,
    pub has_next_page: bool,
}

pub struct CommitAuthor {
    pub login: String,
    pub id: i64,
    pub avatar_url: String,
}

pub struct CommitInfo {
    pub _author: Option<String>,
    pub email: Option<String>,
}

pub struct CommitDetail {
    pub author: Option<CommitInfo>,
}

pub struct CommitData {
    pub author: Option<CommitAuthor>,
    pub commit: CommitDetail,
}

pub struct RestfulRepository {
    pub id: i32,
    pub node_id: String,
    pub name: String,
    pub html_url: String,
    pub created_at: String,
}

pub struct GithubMetadataResponse {
    pub data: GithubMetadataData,
}

pub struct GithubMetadataData {
    pub node: Option<GithubMetadata>,
}

/// A repository's metadata as the GraphQL API reports it.
pub struct GithubMetadata {
    pub id: String,
    pub is_archived: bool,
    pub license_info: Option<LicenseInfo>,
    pub disk_usage: i32,
    pub stargazer_count: i32,
    pub fork_count: i32,
    pub watchers: Count,
    pub mentionable_users: Count,
    pub open_issues: Count,
    pub closed_issues: Count,
    pub open_pull_requests: Count,
    pub closed_pull_requests: Count,
    pub merged_pull_requests: Count,
    pub default_branch_ref: Option<DefaultBranchRef>,
    pub created_at: String,
    pub pushed_at: String,
    pub primary_language: Option<Language>,
    pub releases: Count,
    pub owner: Owner,
    pub languages: Languages,
}

pub struct LicenseInfo {
    pub name: String,
}

pub struct Count {
    pub total_count: i32,
}

pub struct DefaultBranchRef {
    pub target: CommitTarget,
}

pub struct CommitTarget {
    pub history: History,
}

pub struct History {
    pub total_count: i32,
}

pub struct Language {
    pub name: String,
}

pub struct Owner {
    pub typename: String,
}

pub struct Languages {
    pub total_count: i32,
    pub total_size: i32,
    pub edges: Vec<LanguageEdge>,
}

pub struct LanguageEdge {
    pub size: i32,
    pub node: Language,
}

pub struct GitHubErrorResponse {
    pub errors: Option<Vec<GitHubError>>,
}

pub struct GitHubError {
    pub message: String,
    pub type_: String,
}

impl GithubMetadata {
    /// Commits on the default branch, 0 when the repository has none.
    pub fn commit_count(&self) -> (r: i32)
        ensures
            r == match &self.default_branch_ref {
                Some(b) => b.target.history.total_count,
                None => 0,
            },
    {
        match &self.default_branch_ref {
            Some(b) => b.target.history.total_count,
            None => 0,
        }
    }
}

} // verus!
