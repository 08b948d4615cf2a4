//! The `create` workflow as a state machine. The machine owns every
//! decision: which provider the chosen repository selects, whether the
//! working copy allows branching, what the new branch is called, and
//! whether the branch is materialized in place or as a worktree. The
//! binary around the library performs each requested action — a prompt, a
//! network call, a git operation — and feeds the outcome back as the next
//! event. Every failure aborts: no step runs past a failed one.

use crate::args::CreateCommand;
use crate::error::WorkflowError;
use crate::git::RepoState;
use crate::github::GithubIssue;
use crate::gitlab::GitlabIssue;
use crate::settings::Repository;
use crate::util::branch_name;
use crate::util::spec_branch_name;
use vstd::prelude::*;

verus! {

/// The issue host a repository selects.
#[derive(Clone, Copy, Debug, PartialEq, Eq, Structural)]
pub enum Provider {
    Github,
    Gitlab,
}

/// Which issue host the repository configures. Exactly one of the two
/// must be set; both or neither is the configuration error it is.
pub open spec fn spec_validate_provider(rep: Repository) -> Result<Provider, WorkflowError> {
    if rep.github_repo is Some && rep.gitlab_repo is Some {
        Err(WorkflowError::BothProvidersConfigured)
    } else if rep.github_repo is None && rep.gitlab_repo is None {
        Err(WorkflowError::NoProviderConfigured)
    } else if rep.github_repo is Some {
        Ok(Provider::Github)
    } else {
        Ok(Provider::Gitlab)
    }
}

/// Checks that exactly one issue host is configured and names it.
pub fn validate_provider(rep: &Repository) -> (r: Result<Provider, WorkflowError>)
    ensures
        r == spec_validate_provider(*rep),
{
    let has_github = rep.github_repo.is_some();
    let has_gitlab = rep.gitlab_repo.is_some();
    if has_github && has_gitlab {
        Err(WorkflowError::BothProvidersConfigured)
    } else if !has_github && !has_gitlab {
        Err(WorkflowError::NoProviderConfigured)
    } else if has_github {
        Ok(Provider::Github)
    } else {
        Ok(Provider::Gitlab)
    }
}

/// Where the workflow stands: which outcome it is waiting for.
#[derive(Clone, Copy, Debug, PartialEq, Eq, Structural)]
pub enum Phase {
    /// Waiting for the operator to choose a repository.
    SelectRepo,
    /// Waiting for the chosen repository to be opened.
    OpenRepo,
    /// Waiting for the working-copy state to be read.
    CheckClean,
    /// Waiting for a prompted issue title.
    ObtainTitle,
    /// Waiting for the prompted labels.
    ObtainLabels,
    /// Waiting for the remote issue to be created.
    CreateIssue,
    /// Waiting for the base branch to be resolved to its commit.
    ResolveBase,
    /// Waiting for the new branch to be created.
    CreateBranch,
    /// Waiting for the worktree to be added.
    AddWorktree,
    /// Waiting for HEAD to be moved to the new branch.
    SetHead,
    /// Waiting for the checkout of the new HEAD.
    Checkout,
    /// The branch exists and was reported.
    Done,
    /// A step failed; nothing further runs.
    Aborted,
}

/// An outcome the surrounding binary reports back to the machine.
#[derive(Debug)]
pub enum Event {
    /// The operator chose this repository's configuration.
    RepoChosen(Repository),
    /// The repository was opened.
    RepoOpened,
    /// The repository could not be opened.
    RepoOpenFailed,
    /// The working-copy state was read.
    StateRead(RepoState),
    /// The operator supplied an issue title.
    TitleProvided(String),
    /// The operator supplied a (possibly empty) label list.
    LabelsProvided(String),
    /// GitHub created the issue.
    GithubIssueCreated(GithubIssue),
    /// GitLab created the issue.
    GitlabIssueCreated(GitlabIssue),
    /// The remote host rejected the issue, or the call failed.
    IssueCreationFailed,
    /// The base branch was found and resolved to its commit.
    BaseResolved,
    /// The base branch does not exist locally.
    BaseNotFound,
    /// The new branch was created.
    BranchCreated,
    /// A branch with the derived name already exists.
    BranchAlreadyExists,
    /// Creating the branch failed for another reason.
    BranchCreateFailed,
    /// The worktree was added.
    WorktreeAdded,
    /// Adding the worktree failed.
    WorktreeFailed,
    /// HEAD now points at the new branch.
    HeadSet,
    /// Moving HEAD failed.
    SetHeadFailed,
    /// The working tree now matches the new branch.
    CheckedOut,
    /// The checkout failed.
    CheckoutFailed,
}

/// What the machine asks the surrounding binary to do next.
#[derive(Debug, PartialEq, Eq)]
pub enum Action {
    /// Open the chosen repository at its base directory.
    OpenRepo,
    /// Read the working-copy state.
    ReadRepoState,
    /// Prompt for an issue title (non-empty, at most 255 characters).
    PromptTitle,
    /// Prompt for a comma-separated label list (empty allowed).
    PromptLabels,
    /// Create the issue on GitHub.
    CreateGithubIssue { project: String, title: String, labels: String },
    /// Create the issue on GitLab, self-assigned to the current user.
    CreateGitlabIssue { project: String, title: String, labels: String },
    /// Look up the base branch and the commit it points at.
    ResolveBase { base_branch: String },
    /// Create the new branch at the base commit, never overwriting.
    CreateBranch { branch: String },
    /// Add a worktree for the branch, leaving the primary directory alone.
    AddWorktree { branch: String },
    /// Point HEAD at the new branch.
    SetHead { branch: String },
    /// Check out HEAD into the primary working directory.
    CheckoutHead,
    /// Report the created branch.
    ReportBranch { branch: String },
    /// Report the created worktree and its branch.
    ReportWorktree { branch: String },
    /// Report the error and stop.
    Fail(WorkflowError),
    /// The event did not belong to the current phase; nothing happens.
    Ignore,
}

/// The state the machine carries between events.
#[derive(Debug)]
pub struct Workflow {
    pub phase: Phase,
    /// The title supplied on the command line, if any.
    pub cli_title: Option<String>,
    /// The chosen repository configuration.
    pub repo: Option<Repository>,
    /// The provider the configuration selects.
    pub provider: Option<Provider>,
    /// The issue title in use.
    pub title: Option<String>,
    /// The label list as entered.
    pub labels: Option<String>,
    /// The derived branch name.
    pub branch: Option<String>,
}

/// The machine's initial state for a `create` invocation.
pub open spec fn spec_init(cmd: CreateCommand) -> Workflow {
    Workflow {
        phase: Phase::SelectRepo,
        cli_title: cmd.title,
        repo: None,
        provider: None,
        title: None,
        labels: None,
        branch: None,
    }
}

/// An event that does not belong to the phase changes nothing.
pub open spec fn spec_ignored(w: Workflow, w2: Workflow, a: Action) -> bool {
    w2 == w && a == Action::Ignore
}

/// A failure aborts the workflow with its error.
pub open spec fn spec_abort_to(w: Workflow, e: WorkflowError, w2: Workflow, a: Action) -> bool {
    w2 == (Workflow { phase: Phase::Aborted, ..w }) && a == Action::Fail(e)
}

/// The step after the remote issue arrived: the branch name is derived
/// from the issue's human-facing number and title, and the base branch is
/// resolved next.
pub open spec fn spec_named_branch(
    w: Workflow,
    n: int,
    title: Seq<char>,
    w2: Workflow,
    a: Action,
) -> bool {
    match w.repo {
        Some(rep) => {
            &&& w2 == (Workflow { phase: Phase::ResolveBase, branch: w2.branch, ..w })
            &&& w2.branch matches Some(b) && b@ == spec_branch_name(n, title, 50)
            &&& a == (Action::ResolveBase { base_branch: rep.default_branch })
        },
        None => spec_ignored(w, w2, a),
    }
}

/// The whole transition relation of the workflow: what one delivered
/// event does to the state, and which action it requests. The relation
/// pins every case; the derived branch name is pinned by its value.
pub open spec fn spec_step_rel(w: Workflow, ev: Event, w2: Workflow, a: Action) -> bool {
    match w.phase {
        Phase::SelectRepo => match ev {
            Event::RepoChosen(rep) => w2 == (Workflow {
                phase: Phase::OpenRepo,
                repo: Some(rep),
                ..w
            }) && a == Action::OpenRepo,
            _ => spec_ignored(w, w2, a),
        },
        Phase::OpenRepo => match ev {
            Event::RepoOpened => match w.repo {
                Some(rep) => match spec_validate_provider(rep) {
                    Ok(p) => w2 == (Workflow {
                        phase: Phase::CheckClean,
                        provider: Some(p),
                        ..w
                    }) && a == Action::ReadRepoState,
                    Err(e) => spec_abort_to(w, e, w2, a),
                },
                None => spec_ignored(w, w2, a),
            },
            Event::RepoOpenFailed => spec_abort_to(w, WorkflowError::RepoOpenFailed, w2, a),
            _ => spec_ignored(w, w2, a),
        },
        Phase::CheckClean => match ev {
            Event::StateRead(st) => if st is Clean {
                match w.cli_title {
                    Some(t) => if t@.len() > 0 {
                        w2 == (Workflow { phase: Phase::ObtainLabels, title: Some(t), ..w }) && a
                            == Action::PromptLabels
                    } else {
                        w2 == (Workflow { phase: Phase::ObtainTitle, ..w }) && a
                            == Action::PromptTitle
                    },
                    None => w2 == (Workflow { phase: Phase::ObtainTitle, ..w }) && a
                        == Action::PromptTitle,
                }
            } else {
                spec_abort_to(w, WorkflowError::RepoNotClean, w2, a)
            },
            _ => spec_ignored(w, w2, a),
        },
        Phase::ObtainTitle => match ev {
            Event::TitleProvided(t) => w2 == (Workflow {
                phase: Phase::ObtainLabels,
                title: Some(t),
                ..w
            }) && a == Action::PromptLabels,
            _ => spec_ignored(w, w2, a),
        },
        Phase::ObtainLabels => match ev {
            Event::LabelsProvided(l) => match (w.provider, w.repo, w.title) {
                (Some(Provider::Github), Some(rep), Some(t)) => match rep.github_repo {
                    Some(g) => w2 == (Workflow { phase: Phase::CreateIssue, labels: Some(l), ..w })
                        && a == (Action::CreateGithubIssue { project: g, title: t, labels: l }),
                    None => spec_ignored(w, w2, a),
                },
                (Some(Provider::Gitlab), Some(rep), Some(t)) => match rep.gitlab_repo {
                    Some(g) => w2 == (Workflow { phase: Phase::CreateIssue, labels: Some(l), ..w })
                        && a == (Action::CreateGitlabIssue { project: g, title: t, labels: l }),
                    None => spec_ignored(w, w2, a),
                },
                _ => spec_ignored(w, w2, a),
            },
            _ => spec_ignored(w, w2, a),
        },
        Phase::CreateIssue => match ev {
            Event::GithubIssueCreated(iss) => if w.provider == Some(Provider::Github) {
                spec_named_branch(w, iss.number as int, iss.title@, w2, a)
            } else {
                spec_ignored(w, w2, a)
            },
            Event::GitlabIssueCreated(iss) => if w.provider == Some(Provider::Gitlab) {
                spec_named_branch(w, iss.iid as int, iss.title@, w2, a)
            } else {
                spec_ignored(w, w2, a)
            },
            Event::IssueCreationFailed => spec_abort_to(
                w,
                WorkflowError::IssueCreationFailed,
                w2,
                a,
            ),
            _ => spec_ignored(w, w2, a),
        },
        Phase::ResolveBase => match ev {
            Event::BaseResolved => match w.branch {
                Some(b) => w2 == (Workflow { phase: Phase::CreateBranch, ..w }) && a
                    == (Action::CreateBranch { branch: b }),
                None => spec_ignored(w, w2, a),
            },
            Event::BaseNotFound => spec_abort_to(w, WorkflowError::BaseBranchNotFound, w2, a),
            _ => spec_ignored(w, w2, a),
        },
        Phase::CreateBranch => match ev {
            Event::BranchCreated => match (w.repo, w.branch) {
                (Some(rep), Some(b)) => if rep.worktree.enabled {
                    w2 == (Workflow { phase: Phase::AddWorktree, ..w }) && a
                        == (Action::AddWorktree { branch: b })
                } else {
                    w2 == (Workflow { phase: Phase::SetHead, ..w }) && a == (Action::SetHead {
                        branch: b,
                    })
                },
                _ => spec_ignored(w, w2, a),
            },
            Event::BranchAlreadyExists => spec_abort_to(
                w,
                WorkflowError::BranchAlreadyExists,
                w2,
                a,
            ),
            Event::BranchCreateFailed => spec_abort_to(w, WorkflowError::BranchCreateFailed, w2, a),
            _ => spec_ignored(w, w2, a),
        },
        Phase::AddWorktree => match ev {
            Event::WorktreeAdded => match w.branch {
                Some(b) => w2 == (Workflow { phase: Phase::Done, ..w }) && a
                    == (Action::ReportWorktree { branch: b }),
                None => spec_ignored(w, w2, a),
            },
            Event::WorktreeFailed => spec_abort_to(w, WorkflowError::WorktreeCreateFailed, w2, a),
            _ => spec_ignored(w, w2, a),
        },
        Phase::SetHead => match ev {
            Event::HeadSet => w2 == (Workflow { phase: Phase::Checkout, ..w }) && a
                == Action::CheckoutHead,
            Event::SetHeadFailed => spec_abort_to(w, WorkflowError::SetHeadFailed, w2, a),
            _ => spec_ignored(w, w2, a),
        },
        Phase::Checkout => match ev {
            Event::CheckedOut => match w.branch {
                Some(b) => w2 == (Workflow { phase: Phase::Done, ..w }) && a
                    == (Action::ReportBranch { branch: b }),
                None => spec_ignored(w, w2, a),
            },
            Event::CheckoutFailed => spec_abort_to(w, WorkflowError::CheckoutFailed, w2, a),
            _ => spec_ignored(w, w2, a),
        },
        Phase::Done => spec_ignored(w, w2, a),
        Phase::Aborted => spec_ignored(w, w2, a),
    }
}

/// A run of the machine: `states[i]` and `acts[i]` are the outcome of
/// delivering `evs[i]` to the state before it, starting from `w0`.
pub open spec fn spec_trace_ok(
    w0: Workflow,
    evs: Seq<Event>,
    states: Seq<Workflow>,
    acts: Seq<Action>,
) -> bool {
    &&& states.len() == evs.len()
    &&& acts.len() == evs.len()
    &&& forall|i: int|
        0 <= i < evs.len() ==> spec_step_rel(
            if i == 0 {
                w0
            } else {
                states[i - 1]
            },
            evs[i],
            states[i],
            #[trigger] acts[i],
        )
}

/// An action that reaches neither the network nor any branch, worktree or
/// HEAD: opening the repository (a local, free read), failing, or ignoring
/// a stray event.
pub open spec fn spec_quiet_action(a: Action) -> bool {
    a is OpenRepo || a is Fail || a is Ignore
}

/// A state that has not yet passed configuration validation, or has
/// aborted; with an invalidly configured repository if one is chosen.
pub open spec fn spec_pre_validation(w: Workflow) -> bool {
    &&& w.phase is SelectRepo || w.phase is OpenRepo || w.phase is Aborted
    &&& (w.repo matches Some(rep) ==> spec_validate_provider(rep) is Err)
}

/// A repository configured with both issue hosts, or with neither, aborts
/// the workflow at validation: however the run continues, the only actions
/// ever requested are opening the repository, failing, and ignoring — no
/// network call and no version-control mutation.
pub proof fn lemma_invalid_config_stays_quiet(
    w0: Workflow,
    evs: Seq<Event>,
    states: Seq<Workflow>,
    acts: Seq<Action>,
)
    requires
        spec_trace_ok(w0, evs, states, acts),
        spec_pre_validation(w0),
        forall|i: int|
            0 <= i < evs.len() ==> (#[trigger] evs[i] matches Event::RepoChosen(rep)
                ==> spec_validate_provider(rep) is Err),
    ensures
        forall|i: int| 0 <= i < acts.len() ==> spec_quiet_action(#[trigger] acts[i]),
        forall|i: int| 0 <= i < states.len() ==> spec_pre_validation(#[trigger] states[i]),
    decreases evs.len(),
{
    if evs.len() > 0 {
        assert(spec_step_rel(w0, evs[0], states[0], acts[0]));
        assert(spec_quiet_action(acts[0]));
        assert(spec_pre_validation(states[0]));
        let evs2 = evs.drop_first();
        let sts2 = states.drop_first();
        let acts2 = acts.drop_first();
        assert forall|i: int|
            0 <= i < evs2.len() implies spec_step_rel(
            if i == 0 {
                states[0]
            } else {
                sts2[i - 1]
            },
            evs2[i],
            sts2[i],
            #[trigger] acts2[i],
        ) by {
            assert(spec_step_rel(states[i], evs[i + 1], states[i + 1], acts[i + 1]));
        }
        lemma_invalid_config_stays_quiet(states[0], evs2, sts2, acts2);
        assert forall|i: int| 0 <= i < acts.len() implies spec_quiet_action(#[trigger] acts[i]) by {
            if i > 0 {
                assert(spec_quiet_action(acts2[i - 1]));
            }
        }
        assert forall|i: int|
            0 <= i < states.len() implies spec_pre_validation(#[trigger] states[i]) by {
            if i > 0 {
                assert(spec_pre_validation(sts2[i - 1]));
            }
        }
    }
}

/// A state that has not yet seen a clean working copy, or has aborted.
pub open spec fn spec_pre_clean(w: Workflow) -> bool {
    w.phase is SelectRepo || w.phase is OpenRepo || w.phase is CheckClean || w.phase is Aborted
}

/// An action that creates the remote issue.
pub open spec fn spec_remote_issue_action(a: Action) -> bool {
    a is CreateGithubIssue || a is CreateGitlabIssue
}

/// A dirty working copy aborts the workflow at the cleanliness check:
/// however the run continues, no remote issue creation is ever requested,
/// so no orphaned issue can be created for a run that cannot complete.
pub proof fn lemma_dirty_repo_never_creates_issue(
    w0: Workflow,
    evs: Seq<Event>,
    states: Seq<Workflow>,
    acts: Seq<Action>,
)
    requires
        spec_trace_ok(w0, evs, states, acts),
        spec_pre_clean(w0),
        forall|i: int|
            0 <= i < evs.len() ==> (#[trigger] evs[i] matches Event::StateRead(st) ==> !(st
                is Clean)),
    ensures
        forall|i: int| 0 <= i < acts.len() ==> !spec_remote_issue_action(#[trigger] acts[i]),
        forall|i: int| 0 <= i < states.len() ==> spec_pre_clean(#[trigger] states[i]),
    decreases evs.len(),
{
    if evs.len() > 0 {
        assert(spec_step_rel(w0, evs[0], states[0], acts[0]));
        assert(!spec_remote_issue_action(acts[0]));
        assert(spec_pre_clean(states[0]));
        let evs2 = evs.drop_first();
        let sts2 = states.drop_first();
        let acts2 = acts.drop_first();
        assert forall|i: int|
            0 <= i < evs2.len() implies spec_step_rel(
            if i == 0 {
                states[0]
            } else {
                sts2[i - 1]
            },
            evs2[i],
            sts2[i],
            #[trigger] acts2[i],
        ) by {
            assert(spec_step_rel(states[i], evs[i + 1], states[i + 1], acts[i + 1]));
        }
        lemma_dirty_repo_never_creates_issue(states[0], evs2, sts2, acts2);
        assert forall|i: int|
            0 <= i < acts.len() implies !spec_remote_issue_action(#[trigger] acts[i]) by {
            if i > 0 {
                assert(!spec_remote_issue_action(acts2[i - 1]));
            }
        }
        assert forall|i: int| 0 <= i < states.len() implies spec_pre_clean(#[trigger] states[i]) by {
            if i > 0 {
                assert(spec_pre_clean(sts2[i - 1]));
            }
        }
    }
}

/// A state whose chosen repository, if any, has worktrees enabled, and
/// that has not entered the in-place materialization phases.
pub open spec fn spec_worktree_mode(w: Workflow) -> bool {
    &&& (w.repo matches Some(rep) ==> rep.worktree.enabled)
    &&& !(w.phase is SetHead)
    &&& !(w.phase is Checkout)
}

/// With worktrees enabled, materialization never touches the primary
/// working directory: however the run continues, no HEAD update and no
/// checkout is ever requested.
pub proof fn lemma_worktree_mode_leaves_head_alone(
    w0: Workflow,
    evs: Seq<Event>,
    states: Seq<Workflow>,
    acts: Seq<Action>,
)
    requires
        spec_trace_ok(w0, evs, states, acts),
        spec_worktree_mode(w0),
        forall|i: int|
            0 <= i < evs.len() ==> (#[trigger] evs[i] matches Event::RepoChosen(rep)
                ==> rep.worktree.enabled),
    ensures
        forall|i: int|
            0 <= i < acts.len() ==> !((#[trigger] acts[i]) is SetHead) && !(acts[i]
                is CheckoutHead),
        forall|i: int| 0 <= i < states.len() ==> spec_worktree_mode(#[trigger] states[i]),
    decreases evs.len(),
{
    if evs.len() > 0 {
        assert(spec_step_rel(w0, evs[0], states[0], acts[0]));
        assert(!(acts[0] is SetHead) && !(acts[0] is CheckoutHead));
        assert(spec_worktree_mode(states[0]));
        let evs2 = evs.drop_first();
        let sts2 = states.drop_first();
        let acts2 = acts.drop_first();
        assert forall|i: int|
            0 <= i < evs2.len() implies spec_step_rel(
            if i == 0 {
                states[0]
            } else {
                sts2[i - 1]
            },
            evs2[i],
            sts2[i],
            #[trigger] acts2[i],
        ) by {
            assert(spec_step_rel(states[i], evs[i + 1], states[i + 1], acts[i + 1]));
        }
        lemma_worktree_mode_leaves_head_alone(states[0], evs2, sts2, acts2);
        assert forall|i: int|
            0 <= i < acts.len() implies !((#[trigger] acts[i]) is SetHead) && !(acts[i]
            is CheckoutHead) by {
            if i > 0 {
                assert(!(acts2[i - 1] is SetHead) && !(acts2[i - 1] is CheckoutHead));
            }
        }
        assert forall|i: int|
            0 <= i < states.len() implies spec_worktree_mode(#[trigger] states[i]) by {
            if i > 0 {
                assert(spec_worktree_mode(sts2[i - 1]));
            }
        }
    }
}

/// A state whose chosen repository, if any, has worktrees disabled, and
/// that has not entered the worktree phase.
pub open spec fn spec_in_place_mode(w: Workflow) -> bool {
    &&& (w.repo matches Some(rep) ==> !rep.worktree.enabled)
    &&& !(w.phase is AddWorktree)
}

/// With worktrees disabled, materialization never creates a worktree:
/// however the run continues, no worktree addition is ever requested.
pub proof fn lemma_in_place_mode_adds_no_worktree(
    w0: Workflow,
    evs: Seq<Event>,
    states: Seq<Workflow>,
    acts: Seq<Action>,
)
    requires
        spec_trace_ok(w0, evs, states, acts),
        spec_in_place_mode(w0),
        forall|i: int|
            0 <= i < evs.len() ==> (#[trigger] evs[i] matches Event::RepoChosen(rep)
                ==> !rep.worktree.enabled),
    ensures
        forall|i: int|
            0 <= i < acts.len() ==> !((#[trigger] acts[i]) is AddWorktree) && !(acts[i]
                is ReportWorktree),
        forall|i: int| 0 <= i < states.len() ==> spec_in_place_mode(#[trigger] states[i]),
    decreases evs.len(),
{
    if evs.len() > 0 {
        assert(spec_step_rel(w0, evs[0], states[0], acts[0]));
        assert(!(acts[0] is AddWorktree) && !(acts[0] is ReportWorktree));
        assert(spec_in_place_mode(states[0]));
        let evs2 = evs.drop_first();
        let sts2 = states.drop_first();
        let acts2 = acts.drop_first();
        assert forall|i: int|
            0 <= i < evs2.len() implies spec_step_rel(
            if i == 0 {
                states[0]
            } else {
                sts2[i - 1]
            },
            evs2[i],
            sts2[i],
            #[trigger] acts2[i],
        ) by {
            assert(spec_step_rel(states[i], evs[i + 1], states[i + 1], acts[i + 1]));
        }
        lemma_in_place_mode_adds_no_worktree(states[0], evs2, sts2, acts2);
        assert forall|i: int|
            0 <= i < acts.len() implies !((#[trigger] acts[i]) is AddWorktree) && !(acts[i]
            is ReportWorktree) by {
            if i > 0 {
                assert(!(acts2[i - 1] is AddWorktree) && !(acts2[i - 1] is ReportWorktree));
            }
        }
        assert forall|i: int|
            0 <= i < states.len() implies spec_in_place_mode(#[trigger] states[i]) by {
            if i > 0 {
                assert(spec_in_place_mode(sts2[i - 1]));
            }
        }
    }
}

/// The position of a phase along the workflow's forward order. Every
/// transition keeps it or moves it up: the workflow never goes back.
pub open spec fn spec_phase_rank(p: Phase) -> int {
    match p {
        Phase::SelectRepo => 0,
        Phase::OpenRepo => 1,
        Phase::CheckClean => 2,
        Phase::ObtainTitle => 3,
        Phase::ObtainLabels => 4,
        Phase::CreateIssue => 5,
        Phase::ResolveBase => 6,
        Phase::CreateBranch => 7,
        Phase::AddWorktree => 8,
        Phase::SetHead => 9,
        Phase::Checkout => 10,
        Phase::Done => 11,
        Phase::Aborted => 12,
    }
}

proof fn lemma_step_rank(w: Workflow, ev: Event, w2: Workflow, a: Action)
    requires
        spec_step_rel(w, ev, w2, a),
    ensures
        spec_phase_rank(w.phase) <= spec_phase_rank(w2.phase),
        spec_remote_issue_action(a) ==> w.phase is ObtainLabels && w2.phase is CreateIssue,
        a is CreateBranch ==> w.phase is ResolveBase && w2.phase is CreateBranch,
{
}

proof fn lemma_trace_rank_monotone(
    w0: Workflow,
    evs: Seq<Event>,
    states: Seq<Workflow>,
    acts: Seq<Action>,
    i: int,
    j: int,
)
    requires
        spec_trace_ok(w0, evs, states, acts),
        0 <= i <= j < states.len(),
    ensures
        spec_phase_rank(states[i].phase) <= spec_phase_rank(states[j].phase),
    decreases j - i,
{
    if i < j {
        lemma_trace_rank_monotone(w0, evs, states, acts, i, j - 1);
        assert(spec_step_rel(states[j - 1], evs[j], states[j], acts[j]));
        lemma_step_rank(states[j - 1], evs[j], states[j], acts[j]);
    }
}

/// A run creates at most one remote issue and at most one branch: the
/// workflow's phases only move forward, and each of the two mutations is
/// requested at exactly one forward step, so no run can request either
/// twice.
pub proof fn lemma_at_most_one_issue_and_one_branch(
    w0: Workflow,
    evs: Seq<Event>,
    states: Seq<Workflow>,
    acts: Seq<Action>,
)
    requires
        spec_trace_ok(w0, evs, states, acts),
    ensures
        forall|i: int, j: int|
            #![trigger acts[i], acts[j]]
            (0 <= i < j < acts.len() && spec_remote_issue_action(acts[i]))
                ==> !spec_remote_issue_action(acts[j]),
        forall|i: int, j: int|
            #![trigger acts[i], acts[j]]
            (0 <= i < j < acts.len() && acts[i] is CreateBranch) ==> !(acts[j] is CreateBranch),
{
    assert forall|i: int, j: int|
        #![trigger acts[i], acts[j]]
        (0 <= i < j < acts.len() && spec_remote_issue_action(acts[i])) implies
        !spec_remote_issue_action(acts[j]) by {
        if spec_remote_issue_action(acts[j]) {
            let pre_i = if i == 0 {
                w0
            } else {
                states[i - 1]
            };
            assert(spec_step_rel(pre_i, evs[i], states[i], acts[i]));
            lemma_step_rank(pre_i, evs[i], states[i], acts[i]);
            assert(spec_step_rel(states[j - 1], evs[j], states[j], acts[j]));
            lemma_step_rank(states[j - 1], evs[j], states[j], acts[j]);
            lemma_trace_rank_monotone(w0, evs, states, acts, i, j - 1);
            assert(false);
        }
    }
    assert forall|i: int, j: int|
        #![trigger acts[i], acts[j]]
        (0 <= i < j < acts.len() && acts[i] is CreateBranch) implies !(acts[j]
        is CreateBranch) by {
        if acts[j] is CreateBranch {
            let pre_i = if i == 0 {
                w0
            } else {
                states[i - 1]
            };
            assert(spec_step_rel(pre_i, evs[i], states[i], acts[i]));
            lemma_step_rank(pre_i, evs[i], states[i], acts[i]);
            assert(spec_step_rel(states[j - 1], evs[j], states[j], acts[j]));
            lemma_step_rank(states[j - 1], evs[j], states[j], acts[j]);
            lemma_trace_rank_monotone(w0, evs, states, acts, i, j - 1);
            assert(false);
        }
    }
}

/// With worktrees enabled, a created branch is materialized as a worktree
/// for exactly the derived branch name.
pub proof fn lemma_worktree_materialization(w: Workflow, w2: Workflow, a: Action)
    requires
        w.phase is CreateBranch,
        w.repo matches Some(rep) && rep.worktree.enabled,
        w.branch is Some,
        spec_step_rel(w, Event::BranchCreated, w2, a),
    ensures
        w2.phase is AddWorktree,
        a matches Action::AddWorktree { branch } && Some(branch) == w.branch,
{
}

/// With worktrees disabled, a created branch is materialized in place:
/// HEAD is moved to the branch, and the following step checks it out.
pub proof fn lemma_in_place_materialization(w: Workflow, w2: Workflow, a: Action)
    requires
        w.phase is CreateBranch,
        w.repo matches Some(rep) && !rep.worktree.enabled,
        w.branch is Some,
        spec_step_rel(w, Event::BranchCreated, w2, a),
    ensures
        w2.phase is SetHead,
        a matches Action::SetHead { branch } && Some(branch) == w.branch,
{
}

/// Once HEAD points at the new branch, the machine asks for the checkout
/// of the primary working directory.
pub proof fn lemma_head_update_then_checkout(w: Workflow, w2: Workflow, a: Action)
    requires
        w.phase is SetHead,
        spec_step_rel(w, Event::HeadSet, w2, a),
    ensures
        w2.phase is Checkout,
        a == Action::CheckoutHead,
{
}

/// A branch name that already exists fails the workflow with exactly the
/// version-control "already exists" error: nothing is overwritten and the
/// run does not silently succeed.
pub proof fn lemma_existing_branch_aborts(w: Workflow, w2: Workflow, a: Action)
    requires
        w.phase is CreateBranch,
        spec_step_rel(w, Event::BranchAlreadyExists, w2, a),
    ensures
        w2.phase is Aborted,
        a == Action::Fail(WorkflowError::BranchAlreadyExists),
{
}

fn abort_with(w: Workflow, e: WorkflowError) -> (r: (Workflow, Action))
    ensures
        spec_abort_to(w, e, r.0, r.1),
{
    (Workflow { phase: Phase::Aborted, ..w }, Action::Fail(e))
}

impl Workflow {
    /// The workflow at the start of a `create` invocation, before the
    /// operator has chosen a repository.
    pub fn new(cmd: CreateCommand) -> (w: Workflow)
        ensures
            w == spec_init(cmd),
    {
        Workflow {
            phase: Phase::SelectRepo,
            cli_title: cmd.title,
            repo: None,
            provider: None,
            title: None,
            labels: None,
            branch: None,
        }
    }

    /// Delivers one event and returns the next state and the action the
    /// surrounding binary must perform, exactly as the transition relation
    /// says.
    pub fn step(self, ev: Event) -> (r: (Workflow, Action))
        ensures
            spec_step_rel(self, ev, r.0, r.1),
    {
        match self.phase {
            Phase::SelectRepo => match ev {
                Event::RepoChosen(rep) => (
                    Workflow { phase: Phase::OpenRepo, repo: Some(rep), ..self },
                    Action::OpenRepo,
                ),
                _ => (self, Action::Ignore),
            },
            Phase::OpenRepo => match ev {
                Event::RepoOpened => {
                    let outcome = match &self.repo {
                        Some(rep) => Some(validate_provider(rep)),
                        None => None,
                    };
                    match outcome {
                        Some(Ok(p)) => (
                            Workflow { phase: Phase::CheckClean, provider: Some(p), ..self },
                            Action::ReadRepoState,
                        ),
                        Some(Err(e)) => abort_with(self, e),
                        None => (self, Action::Ignore),
                    }
                },
                Event::RepoOpenFailed => abort_with(self, WorkflowError::RepoOpenFailed),
                _ => (self, Action::Ignore),
            },
            Phase::CheckClean => match ev {
                Event::StateRead(st) => match st {
                    RepoState::Clean => {
                        let use_cli = match &self.cli_title {
                            Some(t) => !t.as_str().is_empty(),
                            None => false,
                        };
                        if use_cli {
                            let t = match &self.cli_title {
                                Some(t) => t.clone(),
                                None => String::new(),
                            };
                            (
                                Workflow {
                                    phase: Phase::ObtainLabels,
                                    title: Some(t),
                                    ..self
                                },
                                Action::PromptLabels,
                            )
                        } else {
                            (Workflow { phase: Phase::ObtainTitle, ..self }, Action::PromptTitle)
                        }
                    },
                    _ => abort_with(self, WorkflowError::RepoNotClean),
                },
                _ => (self, Action::Ignore),
            },
            Phase::ObtainTitle => match ev {
                Event::TitleProvided(t) => (
                    Workflow { phase: Phase::ObtainLabels, title: Some(t), ..self },
                    Action::PromptLabels,
                ),
                _ => (self, Action::Ignore),
            },
            Phase::ObtainLabels => match ev {
                Event::LabelsProvided(l) => {
                    let pieces: Option<(bool, String, String)> = match (
                        &self.provider,
                        &self.repo,
                        &self.title,
                    ) {
                        (Some(Provider::Github), Some(rep), Some(t)) => match &rep.github_repo {
                            Some(g) => Some((true, g.clone(), t.clone())),
                            None => None,
                        },
                        (Some(Provider::Gitlab), Some(rep), Some(t)) => match &rep.gitlab_repo {
                            Some(g) => Some((false, g.clone(), t.clone())),
                            None => None,
                        },
                        _ => None,
                    };
                    match pieces {
                        Some((is_github, g, t)) => {
                            let lab = l.clone();
                            let w2 = Workflow { phase: Phase::CreateIssue, labels: Some(l), ..self };
                            if is_github {
                                (w2, Action::CreateGithubIssue { project: g, title: t, labels: lab })
                            } else {
                                (w2, Action::CreateGitlabIssue { project: g, title: t, labels: lab })
                            }
                        },
                        None => (self, Action::Ignore),
                    }
                },
                _ => (self, Action::Ignore),
            },
            Phase::CreateIssue => match ev {
                Event::GithubIssueCreated(iss) => {
                    let github = match &self.provider {
                        Some(Provider::Github) => true,
                        _ => false,
                    };
                    if github {
                        match &self.repo {
                            Some(rep) => {
                                let b = branch_name(iss.number, iss.title.as_str(), 50);
                                let base = rep.default_branch.clone();
                                (
                                    Workflow {
                                        phase: Phase::ResolveBase,
                                        branch: Some(b),
                                        ..self
                                    },
                                    Action::ResolveBase { base_branch: base },
                                )
                            },
                            None => (self, Action::Ignore),
                        }
                    } else {
                        (self, Action::Ignore)
                    }
                },
                Event::GitlabIssueCreated(iss) => {
                    let gitlab = match &self.provider {
                        Some(Provider::Gitlab) => true,
                        _ => false,
                    };
                    if gitlab {
                        match &self.repo {
                            Some(rep) => {
                                let b = branch_name(iss.iid as u64, iss.title.as_str(), 50);
                                let base = rep.default_branch.clone();
                                (
                                    Workflow {
                                        phase: Phase::ResolveBase,
                                        branch: Some(b),
                                        ..self
                                    },
                                    Action::ResolveBase { base_branch: base },
                                )
                            },
                            None => (self, Action::Ignore),
                        }
                    } else {
                        (self, Action::Ignore)
                    }
                },
                Event::IssueCreationFailed => abort_with(self, WorkflowError::IssueCreationFailed),
                _ => (self, Action::Ignore),
            },
            Phase::ResolveBase => match ev {
                Event::BaseResolved => match &self.branch {
                    Some(b) => {
                        let br = b.clone();
                        (
                            Workflow { phase: Phase::CreateBranch, ..self },
                            Action::CreateBranch { branch: br },
                        )
                    },
                    None => (self, Action::Ignore),
                },
                Event::BaseNotFound => abort_with(self, WorkflowError::BaseBranchNotFound),
                _ => (self, Action::Ignore),
            },
            Phase::CreateBranch => match ev {
                Event::BranchCreated => {
                    let pieces: Option<(bool, String)> = match (&self.repo, &self.branch) {
                        (Some(rep), Some(b)) => Some((rep.worktree.enabled, b.clone())),
                        _ => None,
                    };
                    match pieces {
                        Some((enabled, b)) => if enabled {
                            (
                                Workflow { phase: Phase::AddWorktree, ..self },
                                Action::AddWorktree { branch: b },
                            )
                        } else {
                            (
                                Workflow { phase: Phase::SetHead, ..self },
                                Action::SetHead { branch: b },
                            )
                        },
                        None => (self, Action::Ignore),
                    }
                },
                Event::BranchAlreadyExists => abort_with(self, WorkflowError::BranchAlreadyExists),
                Event::BranchCreateFailed => abort_with(self, WorkflowError::BranchCreateFailed),
                _ => (self, Action::Ignore),
            },
            Phase::AddWorktree => match ev {
                Event::WorktreeAdded => match &self.branch {
                    Some(b) => {
                        let br = b.clone();
                        (
                            Workflow { phase: Phase::Done, ..self },
                            Action::ReportWorktree { branch: br },
                        )
                    },
                    None => (self, Action::Ignore),
                },
                Event::WorktreeFailed => abort_with(self, WorkflowError::WorktreeCreateFailed),
                _ => (self, Action::Ignore),
            },
            Phase::SetHead => match ev {
                Event::HeadSet => (Workflow { phase: Phase::Checkout, ..self }, Action::CheckoutHead),
                Event::SetHeadFailed => abort_with(self, WorkflowError::SetHeadFailed),
                _ => (self, Action::Ignore),
            },
            Phase::Checkout => match ev {
                Event::CheckedOut => match &self.branch {
                    Some(b) => {
                        let br = b.clone();
                        (
                            Workflow { phase: Phase::Done, ..self },
                            Action::ReportBranch { branch: br },
                        )
                    },
                    None => (self, Action::Ignore),
                },
                Event::CheckoutFailed => abort_with(self, WorkflowError::CheckoutFailed),
                _ => (self, Action::Ignore),
            },
            Phase::Done => (self, Action::Ignore),
            Phase::Aborted => (self, Action::Ignore),
        }
    }
}

} // verus!
