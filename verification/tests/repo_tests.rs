use mkdbupgrade::repo::classify_head;
use mkdbupgrade::{
    find_branch, get_branch_version, get_current_branch, get_upgrades, RepoError,
};
use std::time::{SystemTime, UNIX_EPOCH};

/// A fresh bare repository under a unique temporary path.
fn fresh_repo(tag: &str) -> git2::Repository {
    let nanos = SystemTime::now().duration_since(UNIX_EPOCH).unwrap().as_nanos();
    let path = format!("/tmp/mkdbupgrade_it_{}_{}", tag, nanos);
    let mut opts = git2::RepositoryInitOptions::new();
    opts.bare(true);
    git2::Repository::init_opts(&path, &opts).unwrap()
}

/// A tree whose `Open-ILS/src/sql/Pg/upgrade` directory holds the named
/// files.
fn upgrade_tree(repo: &git2::Repository, files: &[(&str, &str)]) -> git2::Oid {
    let mut builder = repo.treebuilder(None).unwrap();
    for (name, content) in files {
        let blob = repo.blob(content.as_bytes()).unwrap();
        builder.insert(*name, blob, 0o100644).unwrap();
    }
    let mut oid = builder.write().unwrap();
    for dir in ["upgrade", "Pg", "sql", "src", "Open-ILS"] {
        let mut wrap = repo.treebuilder(None).unwrap();
        wrap.insert(dir, oid, 0o040000).unwrap();
        oid = wrap.write().unwrap();
    }
    oid
}

/// A commit of `tree_oid` on the named branch, with no parents.
fn commit_on_branch(repo: &git2::Repository, branch: &str, tree_oid: git2::Oid) -> git2::Oid {
    let sig = git2::Signature::now("tester", "tester@example.com").unwrap();
    let tree = repo.find_tree(tree_oid).unwrap();
    let refname = format!("refs/heads/{}", branch);
    repo.commit(Some(&refname), &sig, &sig, branch, &tree, &[]).unwrap()
}

#[test]
fn upgrades_between_two_branches() {
    let repo = fresh_repo("diff");
    let old_tree = upgrade_tree(&repo, &[("0001.sql", "SELECT 1;\n"), ("0002.sql", "SELECT 2;\n")]);
    let new_tree = upgrade_tree(
        &repo,
        &[
            ("0001.sql", "SELECT 1;\n"),
            ("0002.sql", "SELECT 2;\n"),
            ("0003.sql", "SELECT 3;\n"),
            ("0004.sql", "SELECT 4;\n"),
        ],
    );
    commit_on_branch(&repo, "rel_3_2_1", old_tree);
    commit_on_branch(&repo, "rel_3_3_0", new_tree);

    let from = find_branch(&repo, &String::from("rel_3_2_1")).unwrap();
    let to = find_branch(&repo, &String::from("rel_3_3_0")).unwrap();
    let upgrades = get_upgrades(&repo, &from, &to).unwrap();
    assert_eq!(
        upgrades,
        vec![
            String::from("Open-ILS/src/sql/Pg/upgrade/0003.sql"),
            String::from("Open-ILS/src/sql/Pg/upgrade/0004.sql"),
        ]
    );
}

#[test]
fn identical_branches_have_no_upgrades() {
    let repo = fresh_repo("same");
    let tree = upgrade_tree(&repo, &[("0001.sql", "SELECT 1;\n")]);
    commit_on_branch(&repo, "rel_1_0_0", tree);
    commit_on_branch(&repo, "rel_1_0_1", tree);
    let from = find_branch(&repo, &String::from("rel_1_0_0")).unwrap();
    let to = find_branch(&repo, &String::from("rel_1_0_1")).unwrap();
    assert_eq!(get_upgrades(&repo, &from, &to).unwrap(), Vec::<String>::new());
}

#[test]
fn missing_upgrade_directory_counts_as_empty() {
    let repo = fresh_repo("bare_tree");
    let empty = repo.treebuilder(None).unwrap().write().unwrap();
    let full = upgrade_tree(&repo, &[("0009.sql", "SELECT 9;\n")]);
    commit_on_branch(&repo, "base", empty);
    commit_on_branch(&repo, "rel_2_0_0", full);
    let from = find_branch(&repo, &String::from("base")).unwrap();
    let to = find_branch(&repo, &String::from("rel_2_0_0")).unwrap();
    assert_eq!(
        get_upgrades(&repo, &from, &to).unwrap(),
        vec![String::from("Open-ILS/src/sql/Pg/upgrade/0009.sql")]
    );
}

#[test]
fn branch_lookup_falls_back_to_remote() {
    let repo = fresh_repo("remote");
    let tree = upgrade_tree(&repo, &[("0001.sql", "SELECT 1;\n")]);
    let oid = commit_on_branch(&repo, "local_main", tree);
    repo.reference("refs/remotes/origin/rel_4_0_0", oid, false, "remote branch").unwrap();
    assert!(find_branch(&repo, &String::from("origin/rel_4_0_0")).is_ok());
    assert!(find_branch(&repo, &String::from("no_such_branch")).is_err());
}

#[test]
fn current_branch_and_its_version() {
    let repo = fresh_repo("head");
    let tree = upgrade_tree(&repo, &[("0001.sql", "SELECT 1;\n")]);
    commit_on_branch(&repo, "rel_5_6_7", tree);
    repo.set_head("refs/heads/rel_5_6_7").unwrap();
    let branch = get_current_branch(&repo).unwrap();
    assert_eq!(get_branch_version(&branch), Some(String::from("5.6.7")));
}

#[test]
fn head_classification_follows_the_branch_test() {
    let repo = fresh_repo("classify");
    let tree = upgrade_tree(&repo, &[("0001.sql", "SELECT 1;\n")]);
    commit_on_branch(&repo, "rel_7_7_7", tree);
    repo.set_head("refs/heads/rel_7_7_7").unwrap();

    let head = repo.head().unwrap();
    assert!(classify_head(head, true).is_ok());

    let head_again = repo.head().unwrap();
    let refused = classify_head(head_again, false);
    match refused {
        Err(RepoError::NotOnBranch(_)) => {}
        _ => panic!("expected the not-on-branch error"),
    };
}

#[test]
fn detached_head_is_not_a_branch() {
    let repo = fresh_repo("detached");
    let tree = upgrade_tree(&repo, &[("0001.sql", "SELECT 1;\n")]);
    let oid = commit_on_branch(&repo, "main", tree);
    repo.set_head_detached(oid).unwrap();
    let outcome = get_current_branch(&repo);
    match outcome {
        Err(RepoError::NotOnBranch(e)) => assert_eq!(e.message(), "head is not a branch"),
        _ => panic!("expected a not-on-branch error"),
    };
}
