//! Branch resolution and upgrade-set enumeration against a git
//! repository.
//!
//! Every call into the `git2` crate stands behind a trusted item. What a
//! repository holds depends on the machine, so those items state nothing
//! about the values they hand back; the logic that works on the returned
//! plain values — path joining and upgrade diffing — is verified with
//! exact contracts.

use crate::diff::{diff_upgrades, spec_new_upgrades};
use crate::version::{is_first_match, version_at};
use vstd::prelude::*;

verus! {

/// Error returned when the repository's current head reference is not a
/// branch.
#[derive(Debug, Clone)]
pub struct HeadError;

impl HeadError {
    /// The diagnostic text of this error.
    pub fn message(&self) -> (r: &'static str)
        ensures
            r@ == "head is not a branch"@,
    {
        "head is not a branch"
    }
}

/// A failure while resolving branches or enumerating a branch's tree.
#[derive(Debug)]
pub enum RepoError {
    /// The underlying repository operation failed.
    Backend(git2::Error),
    /// The current head is not a named branch.
    NotOnBranch(HeadError),
}

#[verifier::external_type_specification]
#[verifier::external_body]
pub struct ExRepository(git2::Repository);

#[verifier::external_type_specification]
#[verifier::external_body]
pub struct ExBranch<'repo>(git2::Branch<'repo>);

#[verifier::external_type_specification]
#[verifier::external_body]
pub struct ExReference<'repo>(git2::Reference<'repo>);

#[verifier::external_type_specification]
#[verifier::external_body]
pub struct ExTree<'repo>(git2::Tree<'repo>);

#[verifier::external_type_specification]
#[verifier::external_body]
pub struct ExGitError(git2::Error);

/// Relies on `git2::Repository::open`: opens the repository enclosing
/// the current working directory, or fails when there is none.
#[verifier::external_body]
pub fn get_repository() -> (r: Option<git2::Repository>) {
    git2::Repository::open("./").ok()
}

/// Relies on `git2::Repository::head`: the reference the repository's
/// head currently points to.
#[verifier::external_body]
fn repo_head<'a>(repo: &'a git2::Repository) -> (r: Result<git2::Reference<'a>, git2::Error>) {
    repo.head()
}

/// Relies on `git2::Reference::is_branch`: whether the reference is a
/// local branch.
#[verifier::external_body]
fn reference_is_branch(reference: &git2::Reference<'_>) -> (r: bool) {
    reference.is_branch()
}

/// Relies on `git2::Branch::wrap`: views an owned reference as a branch.
#[verifier::external_body]
fn branch_wrap<'a>(reference: git2::Reference<'a>) -> (r: git2::Branch<'a>) {
    git2::Branch::wrap(reference)
}

/// The decision on a resolved head reference: one that is a branch
/// resolves to that branch; any other head is the distinct
/// not-on-branch failure.
pub fn classify_head<'a>(head: git2::Reference<'a>, is_branch: bool) -> (r: Result<
    git2::Branch<'a>,
    RepoError,
>)
    ensures
        is_branch <==> r is Ok,
        !is_branch ==> r matches Err(RepoError::NotOnBranch(_)),
{
    if is_branch {
        Ok(branch_wrap(head))
    } else {
        Err(RepoError::NotOnBranch(HeadError))
    }
}

/// The currently checked-out branch, a distinct error when the head is
/// not a named branch (a detached head), and the backend's error when
/// the head cannot be read at all. The decision on a readable head is
/// `classify_head`, whose contract pins the outcome for each answer of
/// the repository.
pub fn get_current_branch<'a>(repo: &'a git2::Repository) -> (r: Result<
    git2::Branch<'a>,
    RepoError,
>) {
    match repo_head(repo) {
        Ok(head) => {
            let is_branch = reference_is_branch(&head);
            classify_head(head, is_branch)
        },
        Err(e) => Err(RepoError::Backend(e)),
    }
}

/// Relies on `git2::Repository::find_branch`: looks the name up among
/// the local branches, or among the remote-tracking branches.
#[verifier::external_body]
fn lookup_branch<'a>(repo: &'a git2::Repository, name: &String, local: bool) -> (r: Result<
    git2::Branch<'a>,
    git2::Error,
>) {
    repo.find_branch(
        name,
        if local {
            git2::BranchType::Local
        } else {
            git2::BranchType::Remote
        },
    )
}

/// The named branch: resolution is attempted against local branches
/// first, then against remote-tracking branches; when both lookups fail,
/// the remote lookup's error is reported. A failure here is always the
/// backend's lookup error, never the not-on-branch error.
pub fn find_branch<'a>(repo: &'a git2::Repository, name: &String) -> (r: Result<
    git2::Branch<'a>,
    RepoError,
>)
    ensures
        r matches Err(e) ==> e matches RepoError::Backend(_),
{
    match lookup_branch(repo, name, true) {
        Ok(b) => Ok(b),
        Err(_) => match lookup_branch(repo, name, false) {
            Ok(b) => Ok(b),
            Err(e) => Err(RepoError::Backend(e)),
        },
    }
}

/// Relies on `git2::Branch::name`: the branch's name when the branch
/// has one and it is valid UTF-8, and nothing otherwise.
#[verifier::external_body]
fn branch_name(branch: &git2::Branch<'_>) -> (r: Option<String>) {
    match branch.name() {
        Ok(Some(s)) => Some(s.to_owned()),
        Ok(None) => None,
        Err(_) => None,
    }
}

/// The version carried by the branch's name, such as `3.2.1` out of
/// `rel_3_2_1`, read by `crate::version::extract_version`; `None` when
/// the name cannot be read or holds no version token. Whatever the
/// repository answers, a returned version is the first-match version
/// token of some name.
pub fn get_branch_version(branch: &git2::Branch<'_>) -> (r: Option<String>)
    ensures
        r matches Some(v) ==> exists|n: Seq<char>, i: int|
            #[trigger] is_first_match(n, i) && v@ == version_at(n, i),
{
    match branch_name(branch) {
        Some(name) => {
            let version = crate::version::extract_version(name.as_str());
            proof {
                if version is Some {
                    let i = choose|i: int|
                        #[trigger] is_first_match(name@, i) && version->0@ == version_at(name@, i);
                    assert(is_first_match(name@, i) && version->0@ == version_at(name@, i));
                }
            }
            version
        },
        None => None,
    }
}

/// The path of the schema-upgrade directory inside the source tree.
pub fn upgrade_dir() -> (r: &'static str)
    ensures
        r@ == "Open-ILS/src/sql/Pg/upgrade"@,
{
    "Open-ILS/src/sql/Pg/upgrade"
}

/// Relies on `git2::Reference::peel_to_tree`, `git2::Tree::get_path`,
/// `git2::TreeEntry::to_object`, `git2::Object::into_tree` and
/// `git2::Error::code`: the tree recorded under `dirpath` in the
/// branch's snapshot; `None` when the path is absent there or names
/// something that is not a tree.
#[verifier::external_body]
fn dir_tree<'a>(repo: &'a git2::Repository, branch: &git2::Branch<'a>, dirpath: &str) -> (r:
    Result<Option<git2::Tree<'a>>, git2::Error>) {
    let tree = match branch.get().peel_to_tree() {
        Ok(t) => t,
        Err(e) => return Err(e),
    };
    match tree.get_path(std::path::Path::new(dirpath)) {
        Ok(entry) => match entry.to_object(repo) {
            Ok(object) => Ok(object.into_tree().ok()),
            Err(e) => Err(e),
        },
        Err(e) if e.code() == git2::ErrorCode::NotFound => Ok(None),
        Err(e) => Err(e),
    }
}

/// Relies on `git2::Tree::walk` in pre-order mode and
/// `git2::TreeEntry::name`: the leaf names of the tree's entries, in
/// the traversal's stable pre-order, skipping names that are not valid
/// UTF-8.
#[verifier::external_body]
fn walk_entry_names(dir: &git2::Tree<'_>) -> (r: Result<Vec<String>, git2::Error>) {
    let mut names: Vec<String> = Vec::new();
    let walked = dir.walk(git2::TreeWalkMode::PreOrder, |_, entry| {
        if let Ok(n) = entry.name() {
            names.push(n.to_owned());
        }
        git2::TreeWalkResult::Ok
    });
    match walked {
        Ok(()) => Ok(names),
        Err(e) => Err(e),
    }
}

/// The upgrade path formed from one entry name: the fixed directory
/// prefix, a slash, and the leaf name.
pub open spec fn spec_upgrade_path(name: Seq<char>) -> Seq<char> {
    "Open-ILS/src/sql/Pg/upgrade"@ + "/"@ + name
}

/// A list of entry names turned into upgrade paths, element for element.
pub open spec fn spec_upgrade_paths(names: Seq<Seq<char>>) -> Seq<Seq<char>> {
    names.map_values(|n: Seq<char>| spec_upgrade_path(n))
}

/// The entry names turned into upgrade paths, in order: each name is
/// prefixed with the upgrade directory and a slash.
pub fn join_upgrade_paths(names: &Vec<String>) -> (r: Vec<String>)
    ensures
        r.deep_view() == spec_upgrade_paths(names.deep_view()),
{
    let ghost all = names.deep_view();
    let mut out: Vec<String> = Vec::new();
    let mut i: usize = 0;
    proof {
        assert(out.deep_view() =~= all.take(0).map_values(
            |n: Seq<char>| spec_upgrade_path(n),
        ));
    }
    while i < names.len()
        invariant
            all == names.deep_view(),
            i <= names.len(),
            out.deep_view() == all.take(i as int).map_values(
                |n: Seq<char>| spec_upgrade_path(n),
            ),
        decreases names.len() - i,
    {
        let mut path = String::from_str(upgrade_dir());
        path.append("/");
        path.append(names[i].as_str());
        let ghost prev = out.deep_view();
        out.push(path);
        proof {
            assert(out.deep_view() =~= prev.push(spec_upgrade_path(all[i as int])));
            assert(out.deep_view() =~= all.take(i + 1 as int).map_values(
                |n: Seq<char>| spec_upgrade_path(n),
            ));
        }
        i += 1;
    }
    proof {
        assert(all.take(names.len() as int) =~= all);
    }
    out
}

/// One branch's upgrade enumeration: the entry names recorded under the
/// upgrade directory in the branch's tree snapshot, each joined with
/// the directory prefix. An absent directory yields the empty list;
/// any other traversal failure is surfaced. Whatever the repository
/// answers, an enumeration is some name list mapped through the fixed
/// prefix join.
fn get_branch_upgrades(repo: &git2::Repository, branch: &git2::Branch<'_>) -> (r: Result<
    Vec<String>,
    git2::Error,
>)
    ensures
        r matches Ok(v) ==> exists|names: Seq<Seq<char>>|
            v.deep_view() == #[trigger] spec_upgrade_paths(names),
{
    let dirpath = upgrade_dir();
    match dir_tree(repo, branch, dirpath) {
        Err(e) => Err(e),
        Ok(None) => {
            let empty: Vec<String> = Vec::new();
            proof {
                let no_names = Seq::<Seq<char>>::empty();
                assert(empty.deep_view() =~= spec_upgrade_paths(no_names));
            }
            Ok(empty)
        },
        Ok(Some(dir)) => match walk_entry_names(&dir) {
            Err(e) => Err(e),
            Ok(names) => {
                let paths = join_upgrade_paths(&names);
                proof {
                    assert(paths.deep_view() == spec_upgrade_paths(names.deep_view()));
                }
                Ok(paths)
            },
        },
    }
}

/// The list of upgrades needed to go from the `from` branch to the `to`
/// branch: the upgrade paths of `to`'s enumeration that are absent from
/// `from`'s, in `to`'s order, computed by `crate::diff::diff_upgrades`.
/// Whatever the repository answers, a returned list is the diff of some
/// source enumeration against some prefix-joined name list; in
/// particular every returned path carries the fixed directory prefix.
/// A failure here is always an enumeration backend error.
pub fn get_upgrades<'a>(
    repo: &git2::Repository,
    from: &git2::Branch<'a>,
    to: &git2::Branch<'a>,
) -> (r: Result<Vec<String>, RepoError>)
    ensures
        r matches Ok(v) ==> exists|src: Seq<Seq<char>>, names: Seq<Seq<char>>|
            v.deep_view() == #[trigger] spec_new_upgrades(src, spec_upgrade_paths(names)),
        r matches Err(e) ==> e matches RepoError::Backend(_),
{
    let from_upgrades = match get_branch_upgrades(repo, from) {
        Ok(v) => v,
        Err(e) => return Err(RepoError::Backend(e)),
    };
    let to_upgrades = match get_branch_upgrades(repo, to) {
        Ok(v) => v,
        Err(e) => return Err(RepoError::Backend(e)),
    };
    let new_upgrades = diff_upgrades(&from_upgrades, &to_upgrades);
    proof {
        let to_names = choose|ns: Seq<Seq<char>>|
            to_upgrades.deep_view() == #[trigger] spec_upgrade_paths(ns);
        assert(new_upgrades.deep_view() == spec_new_upgrades(
            from_upgrades.deep_view(),
            spec_upgrade_paths(to_names),
        ));
    }
    Ok(new_upgrades)
}

} // verus!
