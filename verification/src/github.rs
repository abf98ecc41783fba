//! Records of GitHub users and repositories.

use vstd::prelude::*;
use crate::time::{parse_rfc3339, rfc3339_instant, UtcTime};

verus! {

/// The data type for a GitHub user.
#[derive(Debug, Default, Clone, PartialEq, Eq)]
pub struct GitHubUser {
    pub login: String,
    pub id: u64,
    pub avatar_url: String,
    pub gravatar_id: String,
    pub url: String,
    pub html_url: String,
    pub followers_url: String,
    pub following_url: String,
    pub gists_url: String,
    pub starred_url: String,
    pub subscriptions_url: String,
    pub organizations_url: String,
    pub repos_url: String,
    pub events_url: String,
    pub received_events_url: String,
    pub site_admin: bool,
}

/// A repository as GitHub reports it, with its dates as RFC 3339 texts.
#[derive(Debug, Clone, PartialEq, Eq)]
pub struct GithubRepo {
    pub id: u64,
    pub owner: GitHubUser,
    pub name: String,
    pub full_name: String,
    pub description: Option<String>,
    pub private: bool,
    pub fork: bool,
    pub url: String,
    pub html_url: String,
    pub archive_url: String,
    pub assignees_url: String,
    pub blobs_url: String,
    pub branches_url: String,
    pub clone_url: String,
    pub collaborators_url: String,
    pub comments_url: String,
    pub commits_url: String,
    pub compare_url: String,
    pub contents_url: String,
    pub contributors_url: String,
    pub deployments_url: String,
    pub downloads_url: String,
    pub events_url: String,
    pub forks_url: String,
    pub git_commits_url: String,
    pub git_refs_url: String,
    pub git_tags_url: String,
    pub git_url: String,
    pub hooks_url: String,
    pub issue_comment_url: String,
    pub issue_events_url: String,
    pub issues_url: String,
    pub keys_url: String,
    pub labels_url: String,
    pub languages_url: String,
    pub merges_url: String,
    pub milestones_url: String,
    pub mirror_url: Option<String>,
    pub notifications_url: String,
    pub pulls_url: String,
    pub releases_url: String,
    pub ssh_url: String,
    pub stargazers_url: String,
    pub statuses_url: String,
    pub subscribers_url: String,
    pub subscription_url: String,
    pub svn_url: String,
    pub tags_url: String,
    pub teams_url: String,
    pub trees_url: String,
    pub homepage: Option<String>,
    pub language: Option<String>,
    pub forks_count: u64,
    pub stargazers_count: u64,
    pub watchers_count: u64,
    pub size: u64,
    pub default_branch: String,
    pub open_issues_count: u64,
    pub has_issues: bool,
    pub has_wiki: bool,
    pub has_pages: bool,
    pub has_downloads: bool,
    pub archived: bool,
    pub pushed_at: String,
    pub created_at: String,
    pub updated_at: String,
}

/// The data type for a GitHub repository.
#[derive(Debug, Clone, PartialEq, Eq)]
pub struct Repo {
    pub id: u64,
    pub owner: GitHubUser,
    pub name: String,
    pub full_name: String,
    pub description: Option<String>,
    pub private: bool,
    pub fork: bool,
    pub url: String,
    pub html_url: String,
    pub archive_url: String,
    pub assignees_url: String,
    pub blobs_url: String,
    pub branches_url: String,
    pub clone_url: String,
    pub collaborators_url: String,
    pub comments_url: String,
    pub commits_url: String,
    pub compare_url: String,
    pub contents_url: String,
    pub contributors_url: String,
    pub deployments_url: String,
    pub downloads_url: String,
    pub events_url: String,
    pub forks_url: String,
    pub git_commits_url: String,
    pub git_refs_url: String,
    pub git_tags_url: String,
    pub git_url: String,
    pub hooks_url: String,
    pub issue_comment_url: String,
    pub issue_events_url: String,
    pub issues_url: String,
    pub keys_url: String,
    pub labels_url: String,
    pub languages_url: String,
    pub merges_url: String,
    pub milestones_url: String,
    pub mirror_url: Option<String>,
    pub notifications_url: String,
    pub pulls_url: String,
    pub releases_url: String,
    pub ssh_url: String,
    pub stargazers_url: String,
    pub statuses_url: String,
    pub subscribers_url: String,
    pub subscription_url: String,
    pub svn_url: String,
    pub tags_url: String,
    pub teams_url: String,
    pub trees_url: String,
    pub homepage: Option<String>,
    pub language: Option<String>,
    pub forks_count: u64,
    pub stargazers_count: u64,
    pub watchers_count: u64,
    pub size: u64,
    pub default_branch: String,
    pub open_issues_count: u64,
    pub has_issues: bool,
    pub has_wiki: bool,
    pub has_pages: bool,
    pub has_downloads: bool,
    pub archived: bool,
    pub pushed_at: UtcTime,
    pub created_at: UtcTime,
    pub updated_at: UtcTime,
}

/// The date of a repository that does not read as RFC 3339.
#[derive(Debug, Clone, Copy, PartialEq, Eq, Structural)]
pub enum InvalidDate {
    PushedAt,
    CreatedAt,
    UpdatedAt,
}

/// The record of a repository whose dates read as the given instants:
/// every other field as GitHub reports it.
pub open spec fn repo_with_dates(
    r: GithubRepo,
    pushed_at: UtcTime,
    created_at: UtcTime,
    updated_at: UtcTime,
) -> Repo {
    Repo {
        id: r.id,
        owner: r.owner,
        name: r.name,
        full_name: r.full_name,
        description: r.description,
        private: r.private,
        fork: r.fork,
        url: r.url,
        html_url: r.html_url,
        archive_url: r.archive_url,
        assignees_url: r.assignees_url,
        blobs_url: r.blobs_url,
        branches_url: r.branches_url,
        clone_url: r.clone_url,
        collaborators_url: r.collaborators_url,
        comments_url: r.comments_url,
        commits_url: r.commits_url,
        compare_url: r.compare_url,
        contents_url: r.contents_url,
        contributors_url: r.contributors_url,
        deployments_url: r.deployments_url,
        downloads_url: r.downloads_url,
        events_url: r.events_url,
        forks_url: r.forks_url,
        git_commits_url: r.git_commits_url,
        git_refs_url: r.git_refs_url,
        git_tags_url: r.git_tags_url,
        git_url: r.git_url,
        hooks_url: r.hooks_url,
        issue_comment_url: r.issue_comment_url,
        issue_events_url: r.issue_events_url,
        issues_url: r.issues_url,
        keys_url: r.keys_url,
        labels_url: r.labels_url,
        languages_url: r.languages_url,
        merges_url: r.merges_url,
        milestones_url: r.milestones_url,
        mirror_url: r.mirror_url,
        notifications_url: r.notifications_url,
        pulls_url: r.pulls_url,
        releases_url: r.releases_url,
        ssh_url: r.ssh_url,
        stargazers_url: r.stargazers_url,
        statuses_url: r.statuses_url,
        subscribers_url: r.subscribers_url,
        subscription_url: r.subscription_url,
        svn_url: r.svn_url,
        tags_url: r.tags_url,
        teams_url: r.teams_url,
        trees_url: r.trees_url,
        homepage: r.homepage,
        language: r.language,
        forks_count: r.forks_count,
        stargazers_count: r.stargazers_count,
        watchers_count: r.watchers_count,
        size: r.size,
        default_branch: r.default_branch,
        open_issues_count: r.open_issues_count,
        has_issues: r.has_issues,
        has_wiki: r.has_wiki,
        has_pages: r.has_pages,
        has_downloads: r.has_downloads,
        archived: r.archived,
        pushed_at,
        created_at,
        updated_at,
    }
}

/// The record of a repository as GitHub reports it, or the first of its
/// dates, in the order pushed, created, updated, that does not read.
pub open spec fn repo_record(r: GithubRepo) -> Result<Repo, InvalidDate> {
    match rfc3339_instant(r.pushed_at@) {
        None => Err(InvalidDate::PushedAt),
        Some(pushed_at) => match rfc3339_instant(r.created_at@) {
            None => Err(InvalidDate::CreatedAt),
            Some(created_at) => match rfc3339_instant(r.updated_at@) {
                None => Err(InvalidDate::UpdatedAt),
                Some(updated_at) => Ok(repo_with_dates(r, pushed_at, created_at, updated_at)),
            },
        },
    }
}

impl Repo {
    /// The record of a repository as GitHub reports it.
    pub fn new(r: GithubRepo) -> (repo: Result<Repo, InvalidDate>)
        ensures
            repo == repo_record(r),
    {
        let pushed_at = match parse_rfc3339(r.pushed_at.as_str()) {
            Some(t) => t,
            None => {
                return Err(InvalidDate::PushedAt);
            },
        };
        let created_at = match parse_rfc3339(r.created_at.as_str()) {
            Some(t) => t,
            None => {
                return Err(InvalidDate::CreatedAt);
            },
        };
        let updated_at = match parse_rfc3339(r.updated_at.as_str()) {
            Some(t) => t,
            None => {
                return Err(InvalidDate::UpdatedAt);
            },
        };
        Ok(
            Repo {
                id: r.id,
                owner: r.owner,
                name: r.name,
                full_name: r.full_name,
                description: r.description,
                private: r.private,
                fork: r.fork,
                url: r.url,
                html_url: r.html_url,
                archive_url: r.archive_url,
                assignees_url: r.assignees_url,
                blobs_url: r.blobs_url,
                branches_url: r.branches_url,
                clone_url: r.clone_url,
                collaborators_url: r.collaborators_url,
                comments_url: r.comments_url,
                commits_url: r.commits_url,
                compare_url: r.compare_url,
                contents_url: r.contents_url,
                contributors_url: r.contributors_url,
                deployments_url: r.deployments_url,
                downloads_url: r.downloads_url,
                events_url: r.events_url,
                forks_url: r.forks_url,
                git_commits_url: r.git_commits_url,
                git_refs_url: r.git_refs_url,
                git_tags_url: r.git_tags_url,
                git_url: r.git_url,
                hooks_url: r.hooks_url,
                issue_comment_url: r.issue_comment_url,
                issue_events_url: r.issue_events_url,
                issues_url: r.issues_url,
                keys_url: r.keys_url,
                labels_url: r.labels_url,
                languages_url: r.languages_url,
                merges_url: r.merges_url,
                milestones_url: r.milestones_url,
                mirror_url: r.mirror_url,
                notifications_url: r.notifications_url,
                pulls_url: r.pulls_url,
                releases_url: r.releases_url,
                ssh_url: r.ssh_url,
                stargazers_url: r.stargazers_url,
                statuses_url: r.statuses_url,
                subscribers_url: r.subscribers_url,
                subscription_url: r.subscription_url,
                svn_url: r.svn_url,
                tags_url: r.tags_url,
                teams_url: r.teams_url,
                trees_url: r.trees_url,
                homepage: r.homepage,
                language: r.language,
                forks_count: r.forks_count,
                stargazers_count: r.stargazers_count,
                watchers_count: r.watchers_count,
                size: r.size,
                default_branch: r.default_branch,
                open_issues_count: r.open_issues_count,
                has_issues: r.has_issues,
                has_wiki: r.has_wiki,
                has_pages: r.has_pages,
                has_downloads: r.has_downloads,
                archived: r.archived,
                pushed_at,
                created_at,
                updated_at,
            },
        )
    }
}

} // verus!
