use tix::error::WorkflowError;
use tix::git::is_repo_clean;
use tix::git::RepoState;
use tix::github::GithubProject;
use tix::gitlab::GitlabProject;
use tix::settings::default_branch;
use tix::settings::default_worktree;
use tix::settings::Repository;
use tix::settings::Settings;
use tix::settings::Worktree;

fn repo(name: &str, dir: &str) -> Repository {
    Repository {
        default_labels: None,
        directory: dir.to_string(),
        name: name.to_string(),
        github_repo: Some("me/proj".to_string()),
        gitlab_repo: None,
        default_branch: "main".to_string(),
        worktree: Worktree { default_branch: "main".to_string(), enabled: false },
    }
}

#[test]
fn defaults_are_main_and_disabled() {
    let w = default_worktree();
    assert_eq!(w.default_branch, "main");
    assert!(!w.enabled);
    assert_eq!(default_branch(), "main");
}

#[test]
fn get_repo_finds_the_first_match() {
    let s = Settings {
        repositories: vec![repo("alpha", "/tmp/a"), repo("beta", "/tmp/b"), repo("beta", "/tmp/c")],
    };
    let found = s.get_repo("beta".to_string()).expect("beta should be found");
    assert_eq!(found.directory, "/tmp/b");
    assert!(s.get_repo("gamma".to_string()).is_none());
}

#[test]
fn repo_names_keeps_configuration_order() {
    let s = Settings { repositories: vec![repo("alpha", "/tmp/a"), repo("beta", "/tmp/b")] };
    assert_eq!(s.repo_names(), vec!["alpha", "beta"]);
}

#[test]
fn basedir_is_the_directory_when_worktrees_are_disabled() {
    let r = repo("alpha", "/srv/proj");
    assert_eq!(r.get_git_basedir(), "/srv/proj");
}

#[test]
fn basedir_is_the_default_branch_subdirectory_when_worktrees_are_enabled() {
    let mut r = repo("alpha", "/srv/proj");
    r.worktree.enabled = true;
    assert_eq!(r.get_git_basedir(), "/srv/proj/main");
}

#[test]
fn worktree_dir_appends_the_branch_name() {
    let r = repo("alpha", "/srv/proj");
    assert_eq!(r.get_worktree_dir("42-fix".to_string()), "/srv/proj/42-fix");
}

#[test]
fn github_project_parses_owner_and_repo() {
    let p = GithubProject::new("me/proj".to_string(), Some("token")).expect("should parse");
    assert_eq!(p.name, "me/proj");
    assert_eq!(p.username, "me");
    assert_eq!(p.repo_name, "proj");
}

#[test]
fn github_project_rejects_identifiers_without_exactly_one_slash() {
    assert_eq!(
        GithubProject::new("noslash".to_string(), Some("token")).unwrap_err(),
        WorkflowError::BadGithubRepoName
    );
    assert_eq!(
        GithubProject::new("a/b/c".to_string(), Some("token")).unwrap_err(),
        WorkflowError::BadGithubRepoName
    );
}

#[test]
fn github_project_requires_a_token() {
    assert_eq!(
        GithubProject::new("me/proj".to_string(), None).unwrap_err(),
        WorkflowError::MissingGithubToken
    );
}

#[test]
fn gitlab_project_requires_a_token() {
    assert_eq!(
        GitlabProject::new("group/proj".to_string(), None).unwrap_err(),
        WorkflowError::MissingGitlabToken
    );
    let p = GitlabProject::new("group/proj".to_string(), Some("token")).expect("should build");
    assert_eq!(p.project_name(), "group/proj");
}

#[test]
fn clean_repo_state_passes_the_check() {
    assert_eq!(is_repo_clean(&RepoState::Clean), Ok(true));
}

#[test]
fn any_in_progress_operation_fails_the_check() {
    assert_eq!(is_repo_clean(&RepoState::Merge), Err(WorkflowError::RepoNotClean));
    assert_eq!(is_repo_clean(&RepoState::Rebase), Err(WorkflowError::RepoNotClean));
    assert_eq!(is_repo_clean(&RepoState::Bisect), Err(WorkflowError::RepoNotClean));
}

#[test]
fn error_messages_name_the_failure() {
    assert_eq!(WorkflowError::RepoNotClean.message(), "repo is not clean");
    assert_eq!(
        WorkflowError::MissingGithubToken.message(),
        "GITHUB_TOKEN env variable is required"
    );
}
