//! The errors that abort the `create` workflow. Every failing step is
//! fatal: the workflow never proceeds past a failure and never retries.

use vstd::prelude::*;
use vstd::string::StringExecFns;

verus! {

/// Everything that can abort the workflow, grouped as the design groups
/// them: configuration errors, the repository-state error, the remote API
/// error, and the version-control errors.
#[derive(Clone, Copy, Debug, PartialEq, Eq, Structural)]
pub enum WorkflowError {
    /// Both a GitHub and a GitLab repository are configured.
    BothProvidersConfigured,
    /// Neither a GitHub nor a GitLab repository is configured.
    NoProviderConfigured,
    /// The GitHub repository identifier does not hold exactly one `/`.
    BadGithubRepoName,
    /// No GitHub access token was supplied.
    MissingGithubToken,
    /// No GitLab access token was supplied.
    MissingGitlabToken,
    /// The repository could not be opened.
    RepoOpenFailed,
    /// The working copy is in the middle of an operation.
    RepoNotClean,
    /// Creating the remote issue failed.
    IssueCreationFailed,
    /// The configured base branch does not exist locally.
    BaseBranchNotFound,
    /// A branch with the derived name already exists.
    BranchAlreadyExists,
    /// Creating the branch failed for another reason.
    BranchCreateFailed,
    /// Creating the worktree failed.
    WorktreeCreateFailed,
    /// Updating HEAD to the new branch failed.
    SetHeadFailed,
    /// Checking out the new branch failed.
    CheckoutFailed,
}

/// The human-readable description of each error.
pub open spec fn spec_message(e: WorkflowError) -> Seq<char> {
    match e {
        WorkflowError::BothProvidersConfigured => "both a github repo and a gitlab repo are configured"@,
        WorkflowError::NoProviderConfigured => "neither a github repo nor a gitlab repo is configured"@,
        WorkflowError::BadGithubRepoName => "github repo name must be of the form <username>/<repo_name>"@,
        WorkflowError::MissingGithubToken => "GITHUB_TOKEN env variable is required"@,
        WorkflowError::MissingGitlabToken => "GITLAB_TOKEN env variable is required"@,
        WorkflowError::RepoOpenFailed => "could not open the repository"@,
        WorkflowError::RepoNotClean => "repo is not clean"@,
        WorkflowError::IssueCreationFailed => "could not create the remote issue"@,
        WorkflowError::BaseBranchNotFound => "the base branch was not found"@,
        WorkflowError::BranchAlreadyExists => "a branch with that name already exists"@,
        WorkflowError::BranchCreateFailed => "could not create the branch"@,
        WorkflowError::WorktreeCreateFailed => "could not create the worktree"@,
        WorkflowError::SetHeadFailed => "could not set HEAD to the new branch"@,
        WorkflowError::CheckoutFailed => "could not check out the new branch"@,
    }
}

impl WorkflowError {
    /// The message shown to the operator when this error aborts the run.
    pub fn message(&self) -> (r: String)
        ensures
            r@ == spec_message(*self),
    {
        match self {
            WorkflowError::BothProvidersConfigured => String::from_str(
                "both a github repo and a gitlab repo are configured",
            ),
            WorkflowError::NoProviderConfigured => String::from_str(
                "neither a github repo nor a gitlab repo is configured",
            ),
            WorkflowError::BadGithubRepoName => String::from_str(
                "github repo name must be of the form <username>/<repo_name>",
            ),
            WorkflowError::MissingGithubToken => String::from_str(
                "GITHUB_TOKEN env variable is required",
            ),
            WorkflowError::MissingGitlabToken => String::from_str(
                "GITLAB_TOKEN env variable is required",
            ),
            WorkflowError::RepoOpenFailed => String::from_str("could not open the repository"),
            WorkflowError::RepoNotClean => String::from_str("repo is not clean"),
            WorkflowError::IssueCreationFailed => String::from_str(
                "could not create the remote issue",
            ),
            WorkflowError::BaseBranchNotFound => String::from_str("the base branch was not found"),
            WorkflowError::BranchAlreadyExists => String::from_str(
                "a branch with that name already exists",
            ),
            WorkflowError::BranchCreateFailed => String::from_str("could not create the branch"),
            WorkflowError::WorktreeCreateFailed => String::from_str(
                "could not create the worktree",
            ),
            WorkflowError::SetHeadFailed => String::from_str("could not set HEAD to the new branch"),
            WorkflowError::CheckoutFailed => String::from_str("could not check out the new branch"),
        }
    }
}

} // verus!
