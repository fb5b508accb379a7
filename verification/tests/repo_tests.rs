use branchrel::relation::{workspace_line, Relation, RelationError};
use branchrel::repo::common;

// Builds an empty-tree commit with a fixed author time, updating the given
// branch, and returns its identifier. Distinct times keep the history
// walk's reverse-chronological order deterministic.
fn commit(
    repo: &git2::Repository,
    branch: &str,
    parents: &[&git2::Commit],
    time: i64,
    msg: &str,
) -> git2::Oid {
    let sig = git2::Signature::new("tester", "tester@example.com", &git2::Time::new(time, 0))
        .unwrap();
    let tree_id = repo.treebuilder(None).unwrap().write().unwrap();
    let tree = repo.find_tree(tree_id).unwrap();
    let refname = format!("refs/heads/{}", branch);
    repo.commit(Some(&refname), &sig, &sig, msg, &tree, parents).unwrap()
}

fn find(repo: &git2::Repository, oid: git2::Oid) -> git2::Commit<'_> {
    repo.find_commit(oid).unwrap()
}

#[test]
fn same_tip_reports_same() {
    let dir = tempfile::tempdir().unwrap();
    let repo = git2::Repository::init_bare(dir.path()).unwrap();
    let x = commit(&repo, "master", &[], 1000, "root");
    repo.branch("other", &find(&repo, x), false).unwrap();
    let c = common(
        dir.path().to_str().unwrap(),
        &String::from("master"),
        &String::from("other"),
    )
    .unwrap();
    assert_eq!(c.oid, x.as_bytes().to_vec());
    assert_eq!(c.relation, Relation::Same);
    assert_eq!(c.describe(), format!("Same: {}", x));
}

#[test]
fn fast_forward_reports_inrow_with_ahead_branch() {
    let dir = tempfile::tempdir().unwrap();
    let repo = git2::Repository::init_bare(dir.path()).unwrap();
    let x = commit(&repo, "master", &[], 1000, "root");
    repo.branch("feature", &find(&repo, x), false).unwrap();
    let _c1 = commit(&repo, "feature", &[&find(&repo, x)], 2000, "work");
    let path = dir.path().to_str().unwrap().to_string();

    // master's tip lies on feature's walk: feature is ahead, and the
    // reported identifier is master's lagging tip.
    let a = common(&path, &String::from("feature"), &String::from("master")).unwrap();
    assert_eq!(a.oid, x.as_bytes().to_vec());
    assert_eq!(a.relation, Relation::Inrow(String::from("feature")));
    assert_eq!(a.describe(), format!("Inrow: {}, branch 'feature' is ahead", x));

    // The same pair the other way round names the same branch as ahead.
    let b = common(&path, &String::from("master"), &String::from("feature")).unwrap();
    assert_eq!(b.oid, x.as_bytes().to_vec());
    assert_eq!(b.relation, Relation::Inrow(String::from("feature")));
}

#[test]
fn diverged_reports_first_shared_commit() {
    let dir = tempfile::tempdir().unwrap();
    let repo = git2::Repository::init_bare(dir.path()).unwrap();
    let x1 = commit(&repo, "master", &[], 1000, "root");
    let x2 = commit(&repo, "master", &[&find(&repo, x1)], 2000, "shared");
    repo.branch("feature", &find(&repo, x2), false).unwrap();
    let _c2 = commit(&repo, "feature", &[&find(&repo, x2)], 3000, "theirs");
    let _c1 = commit(&repo, "master", &[&find(&repo, x2)], 4000, "ours");

    let c = common(
        dir.path().to_str().unwrap(),
        &String::from("master"),
        &String::from("feature"),
    )
    .unwrap();
    // The first commit of master's walk that feature's history also holds
    // is the newer shared commit, not the root.
    assert_eq!(c.oid, x2.as_bytes().to_vec());
    assert_eq!(c.relation, Relation::Diff);
    assert_eq!(c.describe(), format!("Diff: {}", x2));
}

#[test]
fn missing_branch_reports_branch_not_found() {
    let dir = tempfile::tempdir().unwrap();
    let repo = git2::Repository::init_bare(dir.path()).unwrap();
    let _x = commit(&repo, "master", &[], 1000, "root");
    let path = dir.path().to_str().unwrap().to_string();

    let r = common(&path, &String::from("master"), &String::from("nosuch"));
    assert_eq!(r, Err(RelationError::BranchNotFound(String::from("nosuch"))));
    let r = common(&path, &String::from("absent"), &String::from("master"));
    assert_eq!(r, Err(RelationError::BranchNotFound(String::from("absent"))));
}

#[test]
fn branch_at_non_commit_reports_walk_failed() {
    // A branch reference that points at a tree resolves to an identifier,
    // but its history cannot be walked.
    let dir = tempfile::tempdir().unwrap();
    let repo = git2::Repository::init_bare(dir.path()).unwrap();
    let _x = commit(&repo, "master", &[], 1000, "root");
    let tree_id = repo.treebuilder(None).unwrap().write().unwrap();
    repo.reference("refs/heads/broken", tree_id, false, "points at a tree").unwrap();

    let r = common(
        dir.path().to_str().unwrap(),
        &String::from("master"),
        &String::from("broken"),
    );
    assert_eq!(r, Err(RelationError::WalkFailed));
}

#[test]
fn disjoint_histories_report_no_common_ancestor() {
    let dir = tempfile::tempdir().unwrap();
    let repo = git2::Repository::init_bare(dir.path()).unwrap();
    let _a = commit(&repo, "one", &[], 1000, "first root");
    let _b = commit(&repo, "two", &[], 2000, "second root");

    let r = common(
        dir.path().to_str().unwrap(),
        &String::from("one"),
        &String::from("two"),
    );
    assert_eq!(r, Err(RelationError::NoCommonAncestor));
}

#[test]
fn non_repository_reports_open_failed() {
    let dir = tempfile::tempdir().unwrap();
    let r = common(
        dir.path().to_str().unwrap(),
        &String::from("master"),
        &String::from("dev"),
    );
    assert_eq!(r, Err(RelationError::RepositoryOpenFailed));
}

#[test]
fn workspace_of_three_directories_reports_each_in_order() {
    // Three subdirectories, the middle one no repository: two result
    // lines and one ERROR line, in iteration order, nothing aborted.
    let ws = tempfile::tempdir().unwrap();
    let sub_a = ws.path().join("a");
    let sub_b = ws.path().join("b");
    let sub_c = ws.path().join("c");

    let repo_a = git2::Repository::init_bare(&sub_a).unwrap();
    let xa = commit(&repo_a, "master", &[], 1000, "root");
    repo_a.branch("dev", &find(&repo_a, xa), false).unwrap();

    git2::Repository::init_bare(&sub_b).unwrap();
    let repo_c = git2::Repository::init_bare(&sub_c).unwrap();
    let xc = commit(&repo_c, "master", &[], 1000, "root");
    repo_c.branch("dev", &find(&repo_c, xc), false).unwrap();

    // The repository under b holds no branches at all, so its line fails.
    let b1 = String::from("master");
    let b2 = String::from("dev");
    let mut lines: Vec<(String, bool)> = Vec::new();
    for sub in [&sub_a, &sub_b, &sub_c] {
        let path = sub.to_str().unwrap();
        let r = common(path, &b1, &b2);
        lines.push(workspace_line(path, &r));
    }
    assert_eq!(lines.len(), 3);
    assert_eq!(lines[0].1, false);
    assert!(lines[0].0.starts_with(sub_a.to_str().unwrap()));
    assert!(lines[0].0.ends_with(&format!("Same: {}", xa)));
    assert_eq!(lines[1].1, true);
    assert!(lines[1].0.starts_with("ERROR: "));
    assert!(lines[1].0.contains("branch 'master' not found"));
    assert_eq!(lines[2].1, false);
    assert!(lines[2].0.ends_with(&format!("Same: {}", xc)));
}
