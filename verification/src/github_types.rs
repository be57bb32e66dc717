//! Plain data shapes of the GitHub objects the fetchers hand over.  Only
//! fields the pipeline can hold as plain values appear here; timestamps
//! arrive already rendered as strings where the logic reads them.

use vstd::prelude::*;

verus! {

#[derive(Debug, Clone, Eq, PartialEq)]
pub enum IssueStateReason {
    Completed,
    NotPlanned,
    Reopened,
}

#[derive(Debug, Clone, PartialEq)]
pub struct PullRequestLink {
    pub url: String,
    pub html_url: String,
    pub diff_url: String,
    pub patch_url: String,
}

#[derive(Debug, Clone, Hash, Eq, PartialEq)]
pub struct Contents {
    pub contents_type: String,
    pub encoding: String,
    pub size: u64,
    pub name: String,
    pub path: String,
    pub content: String,
    pub sha: String,
    pub url: String,
    pub git_url: String,
    pub html_url: String,
    pub download_url: String,
}

#[derive(Debug, Clone, Hash, Eq, PartialEq)]
pub enum Event {
    AddedToProject,
    Assigned,
    Closed,
    ConvertedNoteToIssue,
    Demilestoned,
    HeadRefDeleted,
    HeadRefForcePushed,
    HeadRefRestored,
    Labeled,
    Locked,
    Mentioned,
    MarkedAsDuplicate,
    Merged,
    Milestoned,
    MovedColumnsInProject,
    Referenced,
    RemovedFromProject,
    Renamed,
    Reopened,
    ReviewDismissed,
    ReviewRequested,
    ReviewRequestRemoved,
    Subscribed,
    Transferred,
    Unassigned,
    Unlabeled,
    Unlocked,
    UnmarkedAsDuplicate,
    UserBlocked,
}

#[derive(Debug, Clone, Eq, PartialEq)]
pub enum IssueState {
    Open,
    Closed,
}

#[derive(Debug, Clone, Hash, Eq, PartialEq)]
pub struct ProjectCard {
    pub url: String,
    pub project_url: String,
    pub column_name: Option<String>,
    pub previous_column_name: Option<String>,
    pub column_url: String,
}

#[derive(Debug, Clone, Hash, Eq, PartialEq)]
pub enum ProjectCardContentType {
    Issue,
    PullRequest,
}

#[derive(Debug, Clone, Hash, Eq, PartialEq)]
pub struct IssuePullRequest {
    pub url: Option<String>,
    pub html_url: Option<String>,
    pub diff_url: Option<String>,
    pub patch_url: Option<String>,
}

#[derive(Debug, Clone, Hash, Eq, PartialEq)]
pub struct User {
    pub login: String,
    pub node_id: String,
    pub avatar_url: String,
    pub gravatar_id: String,
    pub url: String,
    pub html_url: String,
    pub followers_url: String,
    pub following_url: String,
    pub gists_url: String,
    pub starred_url: String,
    pub subscriptions_url: String,
    pub organizations_url: String,
    pub repos_url: String,
    pub events_url: String,
    pub received_events_url: String,
    pub user_type: String,
    pub site_admin: bool,
}

#[derive(Debug, Clone, Hash, Eq, PartialEq)]
pub struct Label {
    pub url: String,
    pub name: String,
    pub description: Option<String>,
    pub color: String,
    pub default: bool,
}

#[derive(Debug, Clone, Hash, Eq, PartialEq)]
pub struct RepositoryFile {
    pub name: Option<String>,
    pub key: Option<String>,
    pub url: Option<String>,
    pub html_url: Option<String>,
}

#[derive(Debug, Clone, Hash, Eq, PartialEq)]
pub struct License {
    pub key: String,
    pub name: String,
    pub node_id: String,
    pub spdx_id: String,
    pub url: Option<String>,
    pub html_url: Option<String>,
    pub description: Option<String>,
    pub implementation: Option<String>,
    pub permissions: Option<Vec<String>>,
    pub conditions: Option<Vec<String>>,
    pub limitations: Option<Vec<String>>,
    pub body: Option<String>,
    pub featured: Option<bool>,
}

#[derive(Debug, Clone, Hash, Eq, PartialEq)]
pub struct Permissions {
    pub admin: bool,
    pub push: bool,
    pub pull: bool,
    pub triage: bool,
    pub maintain: bool,
}

#[derive(Debug, Copy, Clone, Hash, Eq, PartialEq)]
pub enum CheckStatus {
    Queued,
    Completed,
    InProgress,
}

#[derive(Debug, Copy, Clone, Hash, Eq, PartialEq)]
pub enum StatusState {
    Failure,
    Pending,
    Success,
    Error,
}

#[derive(Debug, Clone, Hash, Eq, PartialEq)]
pub struct InstallationPermissions {
    pub actions: Option<String>,
    pub checks: Option<String>,
    pub contents: Option<String>,
    pub issues: Option<String>,
    pub metadata: Option<String>,
    pub single_file: Option<String>,
    pub statuses: Option<String>,
}

#[derive(Debug, Clone, Hash, Eq, PartialEq)]
pub struct Installation {
    pub account: User,
    pub access_tokens_url: Option<String>,
    pub repositories_url: Option<String>,
    pub html_url: Option<String>,
    pub target_type: Option<String>,
    pub permissions: InstallationPermissions,
    pub events: Vec<String>,
    pub single_file_name: Option<String>,
    pub repository_selection: Option<String>,
}

#[derive(Debug, Clone, Hash, Eq, PartialEq)]
pub struct PublicKey {
    pub key_id: String,
    pub key: String,
}

#[derive(Default, Debug, Clone, PartialEq)]
pub struct Rate {
    pub limit: usize,
    pub used: usize,
    pub remaining: usize,
    pub reset: usize,
}

#[derive(Default, Debug, Clone, PartialEq)]
pub struct Resources {
    pub core: Rate,
    pub search: Rate,
    pub graphql: Option<Rate>,
    pub integration_manifest: Option<Rate>,
    pub scim: Option<Rate>,
    pub source_import: Option<Rate>,
    pub code_scanning_upload: Option<Rate>,
    pub actions_runner_registration: Option<Rate>,
}

#[derive(Default, Debug, Clone, PartialEq)]
pub struct RateLimit {
    pub resources: Resources,
    pub rate: Rate,
}

} // verus!
