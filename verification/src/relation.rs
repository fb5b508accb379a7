//! The outcome of classifying two branches, the errors that classification
//! can raise, and their textual renderings.

use vstd::prelude::*;
use vstd::string::StringExecFns;
use crate::ids::{hex_of, hex_string};

verus! {

/// How two branch tips relate: the same commit, one reachable from the
/// other ("in a row"), or diverged from a common ancestor.
#[derive(Debug, PartialEq, Eq)]
pub enum Relation {
    Same,
    /// Holds the name of the branch that is ahead.
    Inrow(String),
    Diff,
}

/// A classification outcome: a commit identifier together with the
/// relation it witnesses.
#[derive(Debug, PartialEq, Eq)]
pub struct Common {
    pub oid: Vec<u8>,
    pub relation: Relation,
}

/// Why a classification produced no outcome.
#[derive(Debug, PartialEq, Eq)]
pub enum RelationError {
    /// The named branch does not resolve to a commit.
    BranchNotFound(String),
    /// The path does not hold a readable repository.
    RepositoryOpenFailed,
    /// The repository's history could not be walked.
    WalkFailed,
    /// The two histories share no commit at all.
    NoCommonAncestor,
}

impl Common {
    pub fn new(oid: Vec<u8>, relation: Relation) -> (c: Common)
        ensures
            c.oid == oid,
            c.relation == relation,
    {
        Common { oid, relation }
    }

    /// The one-line rendering of this outcome.
    pub open spec fn describe_spec(self) -> Seq<char> {
        match self.relation {
            Relation::Same => "Same: "@ + hex_of(self.oid@),
            Relation::Inrow(name) => "Inrow: "@ + hex_of(self.oid@) + ", branch '"@ + name@
                + "' is ahead"@,
            Relation::Diff => "Diff: "@ + hex_of(self.oid@),
        }
    }

    /// Renders this outcome as one line of text.
    pub fn describe(&self) -> (r: String)
        ensures
            r@ == self.describe_spec(),
    {
        match &self.relation {
            Relation::Same => {
                let mut s = String::from_str("Same: ");
                s.append(hex_string(&self.oid).as_str());
                proof {
                    assert(s@ =~= self.describe_spec());
                }
                s
            },
            Relation::Inrow(name) => {
                let mut s = String::from_str("Inrow: ");
                s.append(hex_string(&self.oid).as_str());
                s.append(", branch '");
                s.append(name.as_str());
                s.append("' is ahead");
                proof {
                    assert(s@ =~= self.describe_spec());
                }
                s
            },
            Relation::Diff => {
                let mut s = String::from_str("Diff: ");
                s.append(hex_string(&self.oid).as_str());
                proof {
                    assert(s@ =~= self.describe_spec());
                }
                s
            },
        }
    }
}

impl RelationError {
    /// The one-line rendering of this error.
    pub open spec fn describe_spec(self) -> Seq<char> {
        match self {
            RelationError::BranchNotFound(name) => "branch '"@ + name@ + "' not found"@,
            RelationError::RepositoryOpenFailed => "failed to open repository"@,
            RelationError::WalkFailed => "failed to walk the history"@,
            RelationError::NoCommonAncestor => "No common commit"@,
        }
    }

    /// Renders this error as one line of text.
    pub fn describe(&self) -> (r: String)
        ensures
            r@ == self.describe_spec(),
    {
        match self {
            RelationError::BranchNotFound(name) => {
                let mut s = String::from_str("branch '");
                s.append(name.as_str());
                s.append("' not found");
                proof {
                    assert(s@ =~= self.describe_spec());
                }
                s
            },
            RelationError::RepositoryOpenFailed => String::from_str("failed to open repository"),
            RelationError::WalkFailed => String::from_str("failed to walk the history"),
            RelationError::NoCommonAncestor => String::from_str("No common commit"),
        }
    }
}

/// The line reported for one repository in workspace mode, and whether it
/// belongs on the error stream: results read `<path>: <outcome>`, failures
/// read `ERROR: <path>: <message>`, and a failure never hides or replaces
/// another repository's line.
pub fn workspace_line(path: &str, r: &Result<Common, RelationError>) -> (out: (String, bool))
    ensures
        r matches Ok(c) ==> out.1 == false && out.0@ == path@ + ": "@ + c.describe_spec(),
        r matches Err(e) ==> out.1 == true && out.0@ == "ERROR: "@ + path@ + ": "@
            + e.describe_spec(),
{
    match r {
        Ok(c) => {
            let mut s = String::from_str(path);
            s.append(": ");
            s.append(c.describe().as_str());
            proof {
                assert(s@ =~= path@ + ": "@ + c.describe_spec());
            }
            (s, false)
        },
        Err(e) => {
            let mut s = String::from_str("ERROR: ");
            s.append(path);
            s.append(": ");
            s.append(e.describe().as_str());
            proof {
                assert(s@ =~= "ERROR: "@ + path@ + ": "@ + e.describe_spec());
            }
            (s, true)
        },
    }
}

} // verus!
