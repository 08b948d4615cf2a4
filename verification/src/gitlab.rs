//! The GitLab side: the project handle and the values the remote host
//! returns. The issue carries both the opaque global id and the
//! project-local sequential number (the "iid"); branch names use the iid.

use crate::error::WorkflowError;
use vstd::prelude::*;

verus! {

/// A GitLab project, identified by its project path.
#[derive(Debug)]
pub struct GitlabProject {
    name: String,
}

/// The authenticated user, as resolved before creating an issue so the
/// issue can be self-assigned.
#[derive(Debug)]
pub struct GitlabUser {
    pub id: u64,
}

/// A milestone of a group.
#[derive(Debug)]
pub struct GitlabMilestone {
    pub id: u64,
    pub name: String,
}

/// A group and its milestones.
#[derive(Debug)]
pub struct GitlabGroup {
    pub id: u64,
    pub name: String,
    pub milestones: Vec<GitlabMilestone>,
}

/// The issue GitLab returns: the opaque global id, the project-local
/// sequential number, and the title as stored by the host.
#[derive(Debug)]
pub struct GitlabIssue {
    pub id: u32,
    pub iid: u32,
    pub title: String,
}

impl GitlabProject {
    /// The project path this handle was built from, as a value.
    pub closed spec fn spec_name(&self) -> Seq<char> {
        self.name@
    }

    /// Builds the project handle. An access token must have been supplied;
    /// its absence is the configuration error it is. The token itself is
    /// only checked for presence: the caller keeps it for building its API
    /// client.
    pub fn new(project_name: String, token: Option<&str>) -> (r: Result<GitlabProject, WorkflowError>)
        ensures
            token is None ==> r == Err::<GitlabProject, WorkflowError>(
                WorkflowError::MissingGitlabToken,
            ),
            token is Some ==> (r matches Ok(p) && p.spec_name() == project_name@),
    {
        match token {
            None => Err(WorkflowError::MissingGitlabToken),
            Some(_) => Ok(GitlabProject { name: project_name }),
        }
    }

    /// The project path this handle was built from.
    pub fn project_name(&self) -> (r: &String)
        ensures
            r@ == self.spec_name(),
    {
        &self.name
    }
}

} // verus!
