//! The GitHub side: the project identifier parsed into its owner and
//! repository parts, and the issue the remote host returns.

use crate::error::WorkflowError;
use crate::text::chars_of_str;
use crate::text::string_of_chars;
use crate::text::vec_range;
use vstd::prelude::*;

verus! {

/// A GitHub project, identified as `<username>/<repo_name>`.
#[derive(Debug)]
pub struct GithubProject {
    pub name: String,
    pub username: String,
    pub repo_name: String,
}

/// The issue GitHub returns: the opaque global id, the human-facing issue
/// number, and the title as stored by the host.
#[derive(Debug)]
pub struct GithubIssue {
    pub id: u64,
    pub title: String,
    pub number: u64,
}

/// Whether the text holds exactly one `/`.
pub open spec fn spec_exactly_one_slash(s: Seq<char>) -> bool {
    exists|i: int|
        0 <= i < s.len() && s[i] == '/' && (forall|j: int|
            0 <= j < s.len() && j != i ==> s[j] != '/')
}

fn find_slash_from(v: &Vec<char>, from: usize) -> (r: usize)
    requires
        from <= v@.len(),
    ensures
        from <= r <= v@.len(),
        forall|j: int| from <= j < r ==> v@[j] != '/',
        r < v@.len() ==> v@[r as int] == '/',
    decreases v@.len() - from,
{
    if from < v.len() && v[from] != '/' {
        find_slash_from(v, from + 1)
    } else {
        from
    }
}

impl GithubProject {
    /// Parses a project identifier of the form `<username>/<repo_name>`.
    /// The identifier must hold exactly one `/`, and an access token must
    /// have been supplied; each failure is reported as the configuration
    /// error it is. The token itself is only checked for presence: the
    /// caller keeps it for building its API client.
    pub fn new(project_name: String, token: Option<&str>) -> (r: Result<GithubProject, WorkflowError>)
        ensures
            !spec_exactly_one_slash(project_name@) ==> r == Err::<GithubProject, WorkflowError>(
                WorkflowError::BadGithubRepoName,
            ),
            spec_exactly_one_slash(project_name@) && token is None ==> r == Err::<
                GithubProject,
                WorkflowError,
            >(WorkflowError::MissingGithubToken),
            spec_exactly_one_slash(project_name@) && token is Some ==> (r matches Ok(p)
                && p.name@ == project_name@ && (forall|i: int|
                0 <= i < project_name@.len() && project_name@[i] == '/' ==> p.username@
                    == project_name@.take(i) && p.repo_name@ == project_name@.skip(i + 1))),
    {
        let v = chars_of_str(project_name.as_str());
        let i = find_slash_from(&v, 0);
        if i == v.len() {
            proof {
                assert(!spec_exactly_one_slash(project_name@));
            }
            return Err(WorkflowError::BadGithubRepoName);
        }
        let k = find_slash_from(&v, i + 1);
        if k < v.len() {
            proof {
                assert(v@[i as int] == '/' && v@[k as int] == '/' && i != k);
                assert(!spec_exactly_one_slash(project_name@));
            }
            return Err(WorkflowError::BadGithubRepoName);
        }
        proof {
            assert(spec_exactly_one_slash(project_name@));
        }
        match token {
            None => Err(WorkflowError::MissingGithubToken),
            Some(_) => {
                let user = vec_range(&v, 0, i);
                let repo = vec_range(&v, i + 1, v.len());
                proof {
                    assert(v@.subrange(0, i as int) =~= project_name@.take(i as int));
                    assert(v@.subrange(i + 1, v@.len() as int) =~= project_name@.skip(i + 1));
                }
                Ok(GithubProject {
                    name: project_name,
                    username: string_of_chars(&user),
                    repo_name: string_of_chars(&repo),
                })
            },
        }
    }
}

} // verus!
