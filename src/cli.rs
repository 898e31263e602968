//! The commands the client understands, as plain data.

use vstd::prelude::*;

verus! {

/// Commands on the artifacts of workflow runs.
#[derive(Debug)]
pub enum Artifacts {
    /// List the artifacts of one run.
    List { repository: String, run_id: usize },
    /// Delete one artifact.
    Delete { repository: String, artifact_id: usize },
}

/// List the repositories of an organisation that declare workflows.
#[derive(Debug)]
pub struct Repos {
    pub org: String,
}

/// The layout of tabular output.
#[derive(Clone, Copy, Debug, PartialEq, Eq, Structural)]
pub enum Format {
    Tab,
    Csv,
}

/// The text of the error for an unknown format name.
pub open spec fn unsupported_format_message(s: Seq<char>) -> Seq<char> {
    s + " is not a supported format. try 'csv' or 'tab' instead"@
}

impl Default for Format {
    fn default() -> (r: Format)
        ensures
            r == Format::Tab,
    {
        Format::Tab
    }
}

impl Format {
    /// `csv` and `tab` name the two formats; any other name is an error.
    pub fn parse(s: &str) -> (r: Result<Format, String>)
        ensures
            s@ == "csv"@ ==> r == Ok::<Format, String>(Format::Csv),
            s@ == "tab"@ ==> r == Ok::<Format, String>(Format::Tab),
            s@ != "csv"@ && s@ != "tab"@ ==> (r matches Err(e) && e@ == unsupported_format_message(s@)),
    {
        proof {
            reveal_strlit("csv");
            reveal_strlit("tab");
            assert("csv"@[0] != "tab"@[0]);
        }
        let given = String::from_str(s);
        if given == String::from_str("csv") {
            Ok(Format::Csv)
        } else if given == String::from_str("tab") {
            Ok(Format::Tab)
        } else {
            Err(given.concat(" is not a supported format. try 'csv' or 'tab' instead"))
        }
    }
}

impl std::str::FromStr for Format {
    type Err = String;

    fn from_str(s: &str) -> Result<Format, String> {
        Format::parse(s)
    }
}

/// Commands on the runs of a workflow.
#[derive(Debug)]
pub enum Runs {
    /// List the runs of a workflow since a day (`yyyy-mm-dd`), by default the
    /// first of the current month.
    List { repository: String, workflow: String, since: Option<String>, format: Format },
}

/// Commands on a repository's secrets.
#[derive(Debug)]
pub enum Secrets {
    /// List the names of the secrets.
    List { repository: String },
    /// Show the public key that secrets are encrypted with.
    PublicKey { repository: String },
    /// Create or replace a secret.
    Create { repository: String, name: String, value: String },
    /// Delete a secret.
    Delete { repository: String, name: String },
}

/// Commands on a repository's workflows, optionally narrowed by a fragment
/// of their name.
#[derive(Debug)]
pub enum Workflows {
    /// List the declared workflows.
    List { repository: String, workflow: Option<String> },
    /// Show the time the workflows' runs took, and its grand total.
    Usage { repository: String, workflow: Option<String> },
}

} // verus!
