//! Repository access: trusted wrappers around the git library for opening
//! a repository, resolving a branch to its tip, and materialising the
//! ancestor walk of a tip, together with the verified classification of
//! two branches of one repository.

use vstd::prelude::*;
use git2::Repository;
use crate::classify::{classify_diverging, walk_contains};
use crate::ids::{id_views, ids_equal};
use crate::relation::{Common, Relation, RelationError};

verus! {

#[verifier::external_type_specification]
#[verifier::external_body]
pub struct ExRepository(Repository);

/// Relies on git2::Repository::open: opens the repository at the given
/// path, or fails when the path does not hold one.
#[verifier::external_body]
fn open_repository(path: &str) -> (r: Option<Repository>) {
    Repository::open(path).ok()
}

/// Relies on git2::Repository::find_branch and git2::Reference::target:
/// resolves a local branch name to its tip commit, whose raw identifier
/// git2::Oid::as_bytes gives as exactly twenty bytes; yields nothing when
/// the name does not resolve to a commit.
#[verifier::external_body]
fn branch_tip(repo: &Repository, name: &str) -> (r: Option<Vec<u8>>)
    ensures
        r matches Some(id) ==> id@.len() == 20,
{
    match repo.find_branch(name, git2::BranchType::Local) {
        Ok(branch) => branch.get().target().map(|oid| oid.as_bytes().to_vec()),
        Err(_) => None,
    }
}

/// Relies on git2::Repository::revwalk and git2::Revwalk::push: yields
/// every commit reachable from the given tip, the tip included, each as
/// its twenty-byte identifier, in the walk's default reverse-chronological
/// order; yields nothing when the walk cannot be set up or fails.
#[verifier::external_body]
fn ancestor_walk(repo: &Repository, tip: &Vec<u8>) -> (r: Option<Vec<Vec<u8>>>)
    ensures
        r matches Some(w) ==> forall|i: int| 0 <= i < w@.len() ==> w@[i]@.len() == 20,
{
    let oid = git2::Oid::from_bytes(tip).ok()?;
    let mut walk = repo.revwalk().ok()?;
    walk.push(oid).ok()?;
    let mut out: Vec<Vec<u8>> = Vec::new();
    for item in walk {
        out.push(item.ok()?.as_bytes().to_vec());
    }
    Some(out)
}

/// Classifies the relationship of two branches of an open repository, as
/// `classify` does on the materialised walks: resolves each name to its
/// tip, then compares the tips, tests each tip against the other's
/// ancestor walk, and falls back to the first commit of the first
/// branch's walk that the second branch's history also holds. The second
/// walk is only materialised once the first has ruled the tips neither
/// equal nor in a row.
pub fn find_common(repo: &Repository, branch1: &String, branch2: &String) -> (r: Result<
    Common,
    RelationError,
>)
    ensures
        r matches Err(e) ==> (e matches RelationError::BranchNotFound(n) ==> n@ == branch1@ || n@
            == branch2@),
        r matches Ok(c) ==> c.oid@.len() == 20,
        r matches Ok(c) ==> (c.relation matches Relation::Inrow(n) ==> n@ == branch1@ || n@
            == branch2@),
{
    let b1 = match branch_tip(repo, branch1.as_str()) {
        Some(id) => id,
        None => {
            return Err(RelationError::BranchNotFound(branch1.clone()));
        },
    };
    let b2 = match branch_tip(repo, branch2.as_str()) {
        Some(id) => id,
        None => {
            return Err(RelationError::BranchNotFound(branch2.clone()));
        },
    };
    if ids_equal(&b1, &b2) {
        return Ok(Common::new(b1, Relation::Same));
    }
    let walk1 = match ancestor_walk(repo, &b1) {
        Some(w) => w,
        None => {
            return Err(RelationError::WalkFailed);
        },
    };
    if walk_contains(&walk1, &b2) {
        return Ok(Common::new(b2, Relation::Inrow(branch1.clone())));
    }
    let walk2 = match ancestor_walk(repo, &b2) {
        Some(w) => w,
        None => {
            return Err(RelationError::WalkFailed);
        },
    };
    let r = classify_diverging(branch2, &b1, &walk1, &walk2);
    proof {
        if r is Ok && r->Ok_0.relation is Diff {
            let w1 = id_views(walk1@);
            let i = choose|i: int| 0 <= i < w1.len() && w1[i] == r->Ok_0.oid@;
            assert(w1[i] == walk1@[i]@);
        }
    }
    r
}

/// Opens the repository at `path` and classifies `branch1` against
/// `branch2` in it, as `find_common` does; fails with
/// `RepositoryOpenFailed` when the path holds no repository.
pub fn common(path: &str, branch1: &String, branch2: &String) -> (r: Result<Common, RelationError>)
    ensures
        r matches Err(e) ==> (e matches RelationError::BranchNotFound(n) ==> n@ == branch1@ || n@
            == branch2@),
        r matches Ok(c) ==> c.oid@.len() == 20,
        r matches Ok(c) ==> (c.relation matches Relation::Inrow(n) ==> n@ == branch1@ || n@
            == branch2@),
{
    let repo = match open_repository(path) {
        Some(repo) => repo,
        None => {
            return Err(RelationError::RepositoryOpenFailed);
        },
    };
    find_common(&repo, branch1, branch2)
}

} // verus!
