//! The configuration the workflow runs against: the repositories the
//! operator may choose, their defaults, and the paths derived from them.

use crate::text::chars_of_str;
use crate::text::string_of_chars;
use vstd::prelude::*;
use vstd::string::StrSliceExecFns;
use vstd::string::StringExecFns;

verus! {

/// Worktree configuration of a repository.
#[derive(Debug, Clone)]
pub struct Worktree {
    pub default_branch: String,
    pub enabled: bool,
}

/// The worktree configuration used when none is given: disabled, with
/// `main` as its branch.
pub fn default_worktree() -> (w: Worktree)
    ensures
        w.default_branch@ == "main"@,
        !w.enabled,
{
    Worktree { default_branch: String::from_str("main"), enabled: false }
}

/// The base branch used when none is configured.
pub fn default_branch() -> (s: String)
    ensures
        s@ == "main"@,
{
    String::from_str("main")
}

/// One configured repository. Exactly one of `github_repo` and
/// `gitlab_repo` must be set; the workflow checks that before any side
/// effect.
#[derive(Debug, Clone)]
pub struct Repository {
    pub default_labels: Option<String>,
    pub directory: String,
    pub name: String,
    pub github_repo: Option<String>,
    pub gitlab_repo: Option<String>,
    pub default_branch: String,
    pub worktree: Worktree,
}

/// The whole configuration: the repositories the operator may choose from.
#[derive(Debug)]
pub struct Settings {
    pub repositories: Vec<Repository>,
}

/// The index of the first repository with the given name, if any.
pub open spec fn spec_find_repo(reps: Seq<Repository>, name: Seq<char>) -> Option<int>
    decreases reps.len(),
{
    if reps.len() == 0 {
        None
    } else if reps.first().name@ == name {
        Some(0int)
    } else {
        match spec_find_repo(reps.drop_first(), name) {
            None => None,
            Some(i) => Some(i + 1),
        }
    }
}

proof fn lemma_find_repo_at(reps: Seq<Repository>, name: Seq<char>, i: int)
    requires
        0 <= i <= reps.len(),
        forall|j: int| 0 <= j < i ==> reps[j].name@ != name,
        i < reps.len() ==> reps[i].name@ == name,
    ensures
        i < reps.len() ==> spec_find_repo(reps, name) == Some(i),
        i == reps.len() ==> spec_find_repo(reps, name) is None,
    decreases i + 1,
{
    if reps.len() == 0 {
    } else if i == 0 {
        if reps.len() > 0 && i < reps.len() {
            assert(reps.first().name@ == name);
        } else {
        }
    } else {
        assert(reps.first().name@ != name);
        lemma_find_repo_at(reps.drop_first(), name, i - 1);
        assert(forall|j: int| 0 <= j < reps.len() - 1 ==> reps.drop_first()[j] == reps[j + 1]);
    }
}

impl Settings {
    /// The configured repository names, in configuration order.
    pub fn repo_names(&self) -> (r: Vec<String>)
        ensures
            r@.len() == self.repositories@.len(),
            forall|i: int|
                0 <= i < r@.len() ==> r@[i]@ == #[trigger] self.repositories@[i].name@,
    {
        let mut out: Vec<String> = Vec::new();
        let mut i: usize = 0;
        while i < self.repositories.len()
            invariant
                i <= self.repositories@.len(),
                out@.len() == i,
                forall|j: int|
                    0 <= j < i ==> out@[j]@ == #[trigger] self.repositories@[j].name@,
            decreases self.repositories@.len() - i,
        {
            out.push(self.repositories[i].name.clone());
            i = i + 1;
        }
        out
    }

    /// The first configured repository with the given name, if any.
    pub fn get_repo(&self, name: String) -> (r: Option<&Repository>)
        ensures
            spec_find_repo(self.repositories@, name@) matches Some(i) ==> (r matches Some(rep)
                && *rep == self.repositories@[i]),
            spec_find_repo(self.repositories@, name@) is None ==> r is None,
    {
        let mut i: usize = 0;
        while i < self.repositories.len()
            invariant
                i <= self.repositories@.len(),
                forall|j: int| 0 <= j < i ==> #[trigger] self.repositories@[j].name@ != name@,
            decreases self.repositories@.len() - i,
        {
            if self.repositories[i].name == name {
                proof {
                    lemma_find_repo_at(self.repositories@, name@, i as int);
                }
                return Some(&self.repositories[i]);
            }
            i = i + 1;
        }
        proof {
            lemma_find_repo_at(self.repositories@, name@, i as int);
        }
        None
    }
}

/// Relies on shellexpand::tilde: only an input whose first character is a
/// tilde is rewritten, and then only that tilde is replaced (by the home
/// directory, which only the environment knows, or kept when none is
/// known); everything after the first character survives unchanged. Any
/// other input comes back exactly as given.
#[verifier::external_body]
fn expand_tilde(s: &str) -> (r: String)
    ensures
        (s@.len() == 0 || s@[0] != '~') ==> r@ == s@,
        (s@.len() > 0 && s@[0] == '~') ==> exists|h: Seq<char>| r@ == h + s@.skip(1),
{
    shellexpand::tilde(s).into_owned()
}

fn join_path(base: &String, tail: &String) -> (r: String)
    ensures
        r@ == base@ + seq!['/'] + tail@,
{
    let mut v = chars_of_str(base.as_str());
    v.push('/');
    let mut t = chars_of_str(tail.as_str());
    v.append(&mut t);
    proof {
        assert(v@ =~= base@ + seq!['/'] + tail@);
    }
    string_of_chars(&v)
}

impl Repository {
    /// The path the repository is opened at, before tilde expansion: the
    /// configured directory, or the default branch's subdirectory of it
    /// when worktrees are enabled.
    pub open spec fn spec_basedir_input(&self) -> Seq<char> {
        if self.worktree.enabled {
            self.directory@ + seq!['/'] + self.default_branch@
        } else {
            self.directory@
        }
    }

    /// The directory the repository is opened at. The tilde expansion is
    /// the environment's; a path that does not start with a tilde comes
    /// back exactly as composed, and one that does keeps everything after
    /// the tilde.
    pub fn get_git_basedir(&self) -> (r: String)
        ensures
            (self.spec_basedir_input().len() == 0 || self.spec_basedir_input()[0] != '~') ==> r@
                == self.spec_basedir_input(),
            (self.spec_basedir_input().len() > 0 && self.spec_basedir_input()[0] == '~')
                ==> exists|h: Seq<char>| r@ == h + self.spec_basedir_input().skip(1),
    {
        if self.worktree.enabled {
            let joined = join_path(&self.directory, &self.default_branch);
            expand_tilde(joined.as_str())
        } else {
            expand_tilde(self.directory.as_str())
        }
    }

    /// The directory a new worktree for the given branch name is placed
    /// at, before tilde expansion.
    pub open spec fn spec_worktree_dir_input(&self, name: Seq<char>) -> Seq<char> {
        self.directory@ + seq!['/'] + name
    }

    /// The directory a new worktree for the given branch name is placed
    /// at. The tilde expansion is the environment's; a path that does not
    /// start with a tilde comes back exactly as composed, and one that
    /// does keeps everything after the tilde.
    pub fn get_worktree_dir(&self, name: String) -> (r: String)
        ensures
            (self.spec_worktree_dir_input(name@).len() == 0 || self.spec_worktree_dir_input(
                name@,
            )[0] != '~') ==> r@ == self.spec_worktree_dir_input(name@),
            (self.spec_worktree_dir_input(name@).len() > 0 && self.spec_worktree_dir_input(
                name@,
            )[0] == '~') ==> exists|h: Seq<char>| r@ == h + self.spec_worktree_dir_input(
                name@,
            ).skip(1),
    {
        let joined = join_path(&self.directory, &name);
        expand_tilde(joined.as_str())
    }
}

} // verus!
