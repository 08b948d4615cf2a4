use tix::args::CreateCommand;
use tix::error::WorkflowError;
use tix::git::RepoState;
use tix::github::GithubIssue;
use tix::gitlab::GitlabIssue;
use tix::settings::Repository;
use tix::settings::Worktree;
use tix::workflow::validate_provider;
use tix::workflow::Action;
use tix::workflow::Event;
use tix::workflow::Provider;
use tix::workflow::Workflow;

fn repo(github: Option<&str>, gitlab: Option<&str>, worktrees: bool) -> Repository {
    Repository {
        default_labels: None,
        directory: "/srv/proj".to_string(),
        name: "proj".to_string(),
        github_repo: github.map(|s| s.to_string()),
        gitlab_repo: gitlab.map(|s| s.to_string()),
        default_branch: "main".to_string(),
        worktree: Worktree { default_branch: "main".to_string(), enabled: worktrees },
    }
}

#[test]
fn validate_provider_requires_exactly_one_host() {
    assert_eq!(
        validate_provider(&repo(Some("me/proj"), Some("group/proj"), false)),
        Err(WorkflowError::BothProvidersConfigured)
    );
    assert_eq!(validate_provider(&repo(None, None, false)), Err(WorkflowError::NoProviderConfigured));
    assert_eq!(validate_provider(&repo(Some("me/proj"), None, false)), Ok(Provider::Github));
    assert_eq!(validate_provider(&repo(None, Some("group/proj"), false)), Ok(Provider::Gitlab));
}

#[test]
fn both_hosts_configured_aborts_before_any_network_or_vcs_mutation() {
    let w = Workflow::new(CreateCommand { title: None });
    let (w, a) = w.step(Event::RepoChosen(repo(Some("me/proj"), Some("group/proj"), false)));
    assert_eq!(a, Action::OpenRepo);
    let (w, a) = w.step(Event::RepoOpened);
    assert_eq!(a, Action::Fail(WorkflowError::BothProvidersConfigured));
    // The machine is aborted: every further event is ignored.
    let (_, a) = w.step(Event::StateRead(RepoState::Clean));
    assert_eq!(a, Action::Ignore);
}

#[test]
fn no_host_configured_aborts_the_same_way() {
    let w = Workflow::new(CreateCommand { title: None });
    let (w, a) = w.step(Event::RepoChosen(repo(None, None, false)));
    assert_eq!(a, Action::OpenRepo);
    let (w, a) = w.step(Event::RepoOpened);
    assert_eq!(a, Action::Fail(WorkflowError::NoProviderConfigured));
    let (_, a) = w.step(Event::TitleProvided("x".to_string()));
    assert_eq!(a, Action::Ignore);
}

#[test]
fn dirty_working_copy_aborts_before_any_issue_is_created() {
    let w = Workflow::new(CreateCommand { title: None });
    let (w, _) = w.step(Event::RepoChosen(repo(Some("me/proj"), None, false)));
    let (w, a) = w.step(Event::RepoOpened);
    assert_eq!(a, Action::ReadRepoState);
    let (w, a) = w.step(Event::StateRead(RepoState::Rebase));
    assert_eq!(a, Action::Fail(WorkflowError::RepoNotClean));
    // No issue-creation action can follow: the machine ignores everything.
    let (_, a) = w.step(Event::LabelsProvided("bug".to_string()));
    assert_eq!(a, Action::Ignore);
}

#[test]
fn github_in_place_happy_path_updates_head_and_checks_out() {
    let w = Workflow::new(CreateCommand { title: None });
    let (w, a) = w.step(Event::RepoChosen(repo(Some("me/proj"), None, false)));
    assert_eq!(a, Action::OpenRepo);
    let (w, a) = w.step(Event::RepoOpened);
    assert_eq!(a, Action::ReadRepoState);
    let (w, a) = w.step(Event::StateRead(RepoState::Clean));
    assert_eq!(a, Action::PromptTitle);
    let (w, a) = w.step(Event::TitleProvided("Fix login bug".to_string()));
    assert_eq!(a, Action::PromptLabels);
    let (w, a) = w.step(Event::LabelsProvided("bug, ui".to_string()));
    assert_eq!(
        a,
        Action::CreateGithubIssue {
            project: "me/proj".to_string(),
            title: "Fix login bug".to_string(),
            labels: "bug, ui".to_string(),
        }
    );
    // The branch name uses the human-facing issue number, not the id.
    let issue = GithubIssue { id: 999999, title: "Fix login bug".to_string(), number: 42 };
    let (w, a) = w.step(Event::GithubIssueCreated(issue));
    assert_eq!(a, Action::ResolveBase { base_branch: "main".to_string() });
    let (w, a) = w.step(Event::BaseResolved);
    assert_eq!(a, Action::CreateBranch { branch: "42-fix-login-bug".to_string() });
    let (w, a) = w.step(Event::BranchCreated);
    // Worktrees disabled: no worktree is created, HEAD is updated instead.
    assert_eq!(a, Action::SetHead { branch: "42-fix-login-bug".to_string() });
    let (w, a) = w.step(Event::HeadSet);
    assert_eq!(a, Action::CheckoutHead);
    let (_, a) = w.step(Event::CheckedOut);
    assert_eq!(a, Action::ReportBranch { branch: "42-fix-login-bug".to_string() });
}

#[test]
fn gitlab_worktree_happy_path_leaves_head_alone() {
    let w = Workflow::new(CreateCommand { title: None });
    let (w, _) = w.step(Event::RepoChosen(repo(None, Some("group/proj"), true)));
    let (w, _) = w.step(Event::RepoOpened);
    let (w, _) = w.step(Event::StateRead(RepoState::Clean));
    let (w, _) = w.step(Event::TitleProvided("Do the thing".to_string()));
    let (w, a) = w.step(Event::LabelsProvided("".to_string()));
    assert_eq!(
        a,
        Action::CreateGitlabIssue {
            project: "group/proj".to_string(),
            title: "Do the thing".to_string(),
            labels: "".to_string(),
        }
    );
    // The branch name uses the project-local iid, not the global id.
    let issue = GitlabIssue { id: 777, iid: 5, title: "Do the thing".to_string() };
    let (w, a) = w.step(Event::GitlabIssueCreated(issue));
    assert_eq!(a, Action::ResolveBase { base_branch: "main".to_string() });
    let (w, a) = w.step(Event::BaseResolved);
    assert_eq!(a, Action::CreateBranch { branch: "5-do-the-thing".to_string() });
    let (w, a) = w.step(Event::BranchCreated);
    // Worktrees enabled: the primary working directory is untouched.
    assert_eq!(a, Action::AddWorktree { branch: "5-do-the-thing".to_string() });
    let (_, a) = w.step(Event::WorktreeAdded);
    assert_eq!(a, Action::ReportWorktree { branch: "5-do-the-thing".to_string() });
}

#[test]
fn command_line_title_skips_the_title_prompt() {
    let w = Workflow::new(CreateCommand { title: Some("Given title".to_string()) });
    let (w, _) = w.step(Event::RepoChosen(repo(Some("me/proj"), None, false)));
    let (w, _) = w.step(Event::RepoOpened);
    let (w, a) = w.step(Event::StateRead(RepoState::Clean));
    assert_eq!(a, Action::PromptLabels);
    let (_, a) = w.step(Event::LabelsProvided("".to_string()));
    assert_eq!(
        a,
        Action::CreateGithubIssue {
            project: "me/proj".to_string(),
            title: "Given title".to_string(),
            labels: "".to_string(),
        }
    );
}

#[test]
fn empty_command_line_title_still_prompts() {
    let w = Workflow::new(CreateCommand { title: Some("".to_string()) });
    let (w, _) = w.step(Event::RepoChosen(repo(Some("me/proj"), None, false)));
    let (w, _) = w.step(Event::RepoOpened);
    let (_, a) = w.step(Event::StateRead(RepoState::Clean));
    assert_eq!(a, Action::PromptTitle);
}

#[test]
fn an_existing_branch_name_fails_with_the_already_exists_error() {
    let w = Workflow::new(CreateCommand { title: None });
    let (w, _) = w.step(Event::RepoChosen(repo(Some("me/proj"), None, false)));
    let (w, _) = w.step(Event::RepoOpened);
    let (w, _) = w.step(Event::StateRead(RepoState::Clean));
    let (w, _) = w.step(Event::TitleProvided("Fix login bug".to_string()));
    let (w, _) = w.step(Event::LabelsProvided("".to_string()));
    let issue = GithubIssue { id: 1, title: "Fix login bug".to_string(), number: 42 };
    let (w, _) = w.step(Event::GithubIssueCreated(issue));
    let (w, _) = w.step(Event::BaseResolved);
    let (w, a) = w.step(Event::BranchAlreadyExists);
    assert_eq!(a, Action::Fail(WorkflowError::BranchAlreadyExists));
    let (_, a) = w.step(Event::BranchCreated);
    assert_eq!(a, Action::Ignore);
}

#[test]
fn missing_base_branch_aborts() {
    let w = Workflow::new(CreateCommand { title: None });
    let (w, _) = w.step(Event::RepoChosen(repo(Some("me/proj"), None, false)));
    let (w, _) = w.step(Event::RepoOpened);
    let (w, _) = w.step(Event::StateRead(RepoState::Clean));
    let (w, _) = w.step(Event::TitleProvided("T".to_string()));
    let (w, _) = w.step(Event::LabelsProvided("".to_string()));
    let issue = GithubIssue { id: 1, title: "T".to_string(), number: 8 };
    let (w, _) = w.step(Event::GithubIssueCreated(issue));
    let (_, a) = w.step(Event::BaseNotFound);
    assert_eq!(a, Action::Fail(WorkflowError::BaseBranchNotFound));
}

#[test]
fn failed_issue_creation_aborts() {
    let w = Workflow::new(CreateCommand { title: None });
    let (w, _) = w.step(Event::RepoChosen(repo(Some("me/proj"), None, false)));
    let (w, _) = w.step(Event::RepoOpened);
    let (w, _) = w.step(Event::StateRead(RepoState::Clean));
    let (w, _) = w.step(Event::TitleProvided("T".to_string()));
    let (w, _) = w.step(Event::LabelsProvided("".to_string()));
    let (_, a) = w.step(Event::IssueCreationFailed);
    assert_eq!(a, Action::Fail(WorkflowError::IssueCreationFailed));
}

#[test]
fn failed_repository_open_aborts() {
    let w = Workflow::new(CreateCommand { title: None });
    let (w, _) = w.step(Event::RepoChosen(repo(Some("me/proj"), None, false)));
    let (_, a) = w.step(Event::RepoOpenFailed);
    assert_eq!(a, Action::Fail(WorkflowError::RepoOpenFailed));
}
