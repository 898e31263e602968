//! The records that the API's listings are made of.

use vstd::prelude::*;
use crate::text::{replace_all, replace_all_spec};

verus! {

/// An instant, as whole seconds since the Unix epoch, in UTC.
#[derive(Clone, Copy, Debug, PartialEq, Eq, Structural)]
pub struct Timestamp {
    pub secs: i64,
}

/// A run's duration was negative: its last update precedes its creation.
#[derive(Clone, Copy, Debug, PartialEq, Eq, Structural)]
pub struct NegativeDuration {
    pub run_id: usize,
}

/// A repository, with the paths of the workflow definitions found in it.
#[derive(Debug, Clone)]
pub struct Repo {
    pub full_name: String,
    pub workflows: Vec<String>,
}

/// The repository a code-search hit belongs to.
#[derive(Debug, Clone)]
pub struct Repository {
    pub full_name: String,
}

/// One hit of a code search: a matching file and its repository.
#[derive(Debug, Clone)]
pub struct CodeSearchItem {
    pub name: String,
    pub path: String,
    pub repository: Repository,
}

/// A page of code-search hits.
#[derive(Debug, Clone)]
pub struct CodeSearch {
    pub incomplete_results: bool,
    pub items: Vec<CodeSearchItem>,
}

/// A page of artifacts.
#[derive(Debug, Clone)]
pub struct Artifacts {
    pub artifacts: Vec<Artifact>,
}

/// A file that a run uploaded.
#[derive(Debug, Clone)]
pub struct Artifact {
    pub id: usize,
    pub name: String,
    pub size_in_bytes: usize,
    pub archive_download_url: String,
}

/// A repository's public key for encrypting secrets, base64 encoded.
#[derive(Debug, Clone)]
pub struct Key {
    pub key_id: String,
    pub key: String,
}

/// A page of secret names.
#[derive(Debug, Clone)]
pub struct Secrets {
    pub secrets: Vec<Secret>,
}

/// A secret, known by its name only.
#[derive(Debug, Clone)]
pub struct Secret {
    pub name: String,
}

/// A page of workflows.
#[derive(Debug, Clone)]
pub struct Workflows {
    pub workflows: Vec<Workflow>,
}

/// A workflow declared in a repository.
#[derive(Debug, Clone, PartialEq, Eq)]
pub struct Workflow {
    pub id: usize,
    pub name: String,
    pub state: String,
    pub path: String,
}

/// The directory that holds workflow definitions, relative to a repository's root.
pub const WORKFLOWS_DIR: &'static str = ".github/workflows/";

impl Workflow {
    /// The workflow's path with every occurrence of the workflows directory removed.
    pub fn filename(&self) -> (r: String)
        ensures
            r@ == replace_all_spec(self.path@, WORKFLOWS_DIR@, Seq::empty()),
    {
        proof {
            reveal_strlit("");
            assert(""@ =~= Seq::<char>::empty());
        }
        replace_all(self.path.as_str(), WORKFLOWS_DIR, "")
    }
}

/// A page of runs.
#[derive(Debug, Clone)]
pub struct Runs {
    pub workflow_runs: Vec<Run>,
}

/// One run of a workflow.
#[derive(Debug, Clone)]
pub struct Run {
    pub id: usize,
    pub head_branch: String,
    pub conclusion: Option<String>,
    pub event: String,
    pub status: String,
    pub jobs_url: String,
    pub logs_url: String,
    pub artifacts_url: String,
    pub cancel_url: String,
    pub rerun_url: String,
    pub created_at: Timestamp,
    pub updated_at: Timestamp,
    pub html_url: String,
}

/// The signed length of a run in seconds: last update minus creation.
pub open spec fn run_secs(r: Run) -> int {
    r.updated_at.secs - r.created_at.secs
}

impl Run {
    /// The run's duration in seconds, or an error when its timestamps are inverted.
    pub fn duration(&self) -> (r: Result<u64, NegativeDuration>)
        ensures
            run_secs(*self) >= 0 ==> r == Ok::<u64, NegativeDuration>(run_secs(*self) as u64),
            run_secs(*self) < 0 ==> r == Err::<u64, NegativeDuration>(NegativeDuration { run_id: self.id }),
    {
        let d: i128 = self.updated_at.secs as i128 - self.created_at.secs as i128;
        if d < 0 {
            Err(NegativeDuration { run_id: self.id })
        } else {
            Ok(d as u64)
        }
    }
}

} // verus!
