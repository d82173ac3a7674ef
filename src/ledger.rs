//! The change log: a git repository at the store root with one commit per store mutation.
use vstd::prelude::*;
use git2::{Commit, Index, Oid, Repository, Signature, Tree};
use crate::entry::{Password, gpg_ext};
use crate::paths::{entry_name, entry_name_exec, relative_path, relative_path_exec};

verus! {

#[verifier::external_type_specification]
#[verifier::external_body]
pub struct ExRepository(Repository);

#[verifier::external_type_specification]
#[verifier::external_body]
pub struct ExGitError(git2::Error);

#[verifier::external_type_specification]
#[verifier::external_body]
pub struct ExIndex(Index);

#[verifier::external_type_specification]
#[verifier::external_body]
pub struct ExOid(Oid);

#[verifier::external_type_specification]
#[verifier::external_body]
pub struct ExTree<'a>(Tree<'a>);

#[verifier::external_type_specification]
#[verifier::external_body]
pub struct ExCommit<'a>(Commit<'a>);

#[verifier::external_type_specification]
#[verifier::external_body]
pub struct ExSignature<'a>(Signature<'a>);

/// Why the change log could not record a mutation.
#[derive(Debug)]
pub enum LedgerError {
    /// The entry has no container path.
    PathNotSet,
    /// The file does not lie under the store root.
    PathOutsideRepo,
    /// The repository has no commit to build on.
    NoHeadCommit,
    /// The repository refused an operation.
    Git(git2::Error),
}

/// The name under which commits are made when the repository has no identity configured.
pub const APPLICATION_ID: &'static str = "pass4thewin";

/// Relies on `Repository::init`: creates a repository at `path`, or reopens the one there.
#[verifier::external_body]
fn git_init(path: &str) -> Result<Repository, git2::Error> {
    Repository::init(path)
}

/// Relies on `Repository::open`: opens the repository at `path`.
#[verifier::external_body]
fn git_open(path: &str) -> Result<Repository, git2::Error> {
    Repository::open(path)
}

/// Relies on `Repository::index`: the repository's staging index.
#[verifier::external_body]
fn git_index(repo: &Repository) -> Result<Index, git2::Error> {
    repo.index()
}

/// Relies on `Index::write_tree`: writes the index as a tree object.
#[verifier::external_body]
fn git_write_tree(index: &mut Index) -> Result<Oid, git2::Error> {
    index.write_tree()
}

/// Relies on `Repository::find_tree`: the tree object `oid`.
#[verifier::external_body]
fn git_find_tree<'a>(repo: &'a Repository, oid: Oid) -> Result<Tree<'a>, git2::Error> {
    repo.find_tree(oid)
}

/// Relies on `Repository::signature`: the identity configured for the repository.
#[verifier::external_body]
fn git_signature(repo: &Repository) -> Result<Signature<'static>, git2::Error> {
    repo.signature()
}

/// Relies on `Signature::now`: an identity with the current time.
#[verifier::external_body]
fn git_signature_now(name: &str, email: &str) -> Result<Signature<'static>, git2::Error> {
    Signature::now(name, email)
}

/// Relies on `Repository::head`, `Reference::resolve` and `Reference::peel_to_commit`: the
/// commit that HEAD names.
#[verifier::external_body]
fn git_head_commit<'a>(repo: &'a Repository) -> Result<Commit<'a>, git2::Error> {
    repo.head()?.resolve()?.peel_to_commit()
}

/// The paths that have an entry in a staging index, at any stage.
pub uninterp spec fn index_paths(i: Index) -> Set<Seq<char>>;

/// Whether a path holds no backslash, so that git keeps it as it is on every platform.
pub open spec fn no_backslash(s: Seq<char>) -> bool {
    forall|k: int| 0 <= k < s.len() ==> s[k] != '\\'
}

/// A relative path written with `/` as its only separator, as git records paths.
pub open spec fn repo_path(s: Seq<char>) -> Seq<char> {
    s.map_values(|c: char| if c == '\\' { '/' } else { c })
}

/// Relies on `Index::add_path` (libgit2's `git_index_add_bypath`): on success the index holds
/// a stage-0 entry for `rel` as given. Other entries that collide with it may be dropped.
#[verifier::external_body]
fn git_add_path(index: &mut Index, rel: &str) -> (r: Result<(), git2::Error>)
    requires
        no_backslash(rel@),
    ensures
        r is Ok ==> index_paths(*final(index)).contains(rel@),
{
    index.add_path(std::path::Path::new(rel))
}

/// Relies on `Index::remove_path` (libgit2's `git_index_remove_bypath`): on success no entry
/// for `rel` is left, neither at stage 0 nor in conflict.
#[verifier::external_body]
fn git_remove_path(index: &mut Index, rel: &str) -> (r: Result<(), git2::Error>)
    requires
        no_backslash(rel@),
    ensures
        r is Ok ==> !index_paths(*final(index)).contains(rel@),
{
    index.remove_path(std::path::Path::new(rel))
}

/// Relies on `Index::write`: saves the index to disk; its entries stay as they are.
#[verifier::external_body]
fn git_write_index(index: &mut Index) -> (r: Result<(), git2::Error>)
    ensures
        index_paths(*final(index)) == index_paths(*old(index)),
{
    index.write()
}

/// Relies on `Repository::commit`: commits `tree` on HEAD with `message`, with `parent` as its
/// only parent or with none.
#[verifier::external_body]
fn git_commit(
    repo: &Repository,
    sig: &Signature,
    message: &str,
    tree: &Tree,
    parent: Option<&Commit>,
) -> Result<Oid, git2::Error> {
    match parent {
        Some(p) => repo.commit(Some("HEAD"), sig, sig, message, tree, &[p]),
        None => repo.commit(Some("HEAD"), sig, sig, message, tree, &[]),
    }
}

/// `prefix`, a space, then `subject`.
pub fn commit_message(prefix: &str, subject: &str) -> (r: String)
    ensures
        r@ == prefix@ + seq![' '] + subject@,
{
    let mut m = String::from_str(prefix);
    m.append(" ");
    proof {
        reveal_strlit(" ");
    }
    m.append(subject);
    m
}

/// The message recording that the entry at `rel` was added.
pub open spec fn added_password_message(rel: Seq<char>) -> Seq<char> {
    "Added password "@ + entry_name(rel)
}

/// The message recording that the entry at `rel` was updated.
pub open spec fn updated_password_message(rel: Seq<char>) -> Seq<char> {
    "Updated password "@ + entry_name(rel)
}

/// The message recording that the entry at `rel` was added.
pub fn added_password_message_exec(rel: &str) -> (r: String)
    ensures
        r@ == added_password_message(rel@),
{
    proof {
        reveal_strlit("Added password");
        reveal_strlit("Added password ");
    }
    let name = entry_name_exec(rel);
    let r = commit_message("Added password", name.as_str());
    assert(r@ =~= added_password_message(rel@));
    r
}

/// The message recording that the entry at `rel` was updated.
pub fn updated_password_message_exec(rel: &str) -> (r: String)
    ensures
        r@ == updated_password_message(rel@),
{
    proof {
        reveal_strlit("Updated password");
        reveal_strlit("Updated password ");
    }
    let name = entry_name_exec(rel);
    let r = commit_message("Updated password", name.as_str());
    assert(r@ =~= updated_password_message(rel@));
    r
}

/// The file `full` relative to the store root `root`, if it lies under it.
pub fn get_relative_path(root: &str, full: &str) -> (r: Option<String>)
    ensures
        match r {
            Some(s) => relative_path(root@, full@) == Some(s@),
            None => relative_path(root@, full@) is None,
        },
{
    relative_path_exec(root, full)
}

/// A new repository at `path`, if one could be made.
pub fn create_repo(path: &str) -> Option<Repository> {
    match git_init(path) {
        Ok(repo) => Some(repo),
        Err(_) => None,
    }
}

/// The repository at `path`, if there is one.
pub fn open_repo(path: &str) -> Option<Repository> {
    match git_open(path) {
        Ok(repo) => Some(repo),
        Err(_) => None,
    }
}

/// The identity for commits: the repository's own, else one named after the application.
pub fn get_signature(repo: &Repository) -> Result<Signature<'static>, git2::Error> {
    match git_signature(repo) {
        Ok(sig) => Ok(sig),
        Err(_) => {
            let email = String::from_str(APPLICATION_ID).concat("@windows.local");
            git_signature_now(APPLICATION_ID, email.as_str())
        },
    }
}

/// The staging index written as a tree.
pub fn write_index_to_tree(repo: &Repository) -> Result<Tree<'_>, git2::Error> {
    let mut index = git_index(repo)?;
    let oid = git_write_tree(&mut index)?;
    git_find_tree(repo, oid)
}

/// The commit that HEAD names; `NoHeadCommit` when there is none.
pub fn get_head_commit(repo: &Repository) -> (r: Result<Commit<'_>, LedgerError>)
    ensures
        r is Err ==> r->Err_0 is NoHeadCommit,
{
    match git_head_commit(repo) {
        Ok(c) => Ok(c),
        Err(_) => Err(LedgerError::NoHeadCommit),
    }
}

/// The first commit of a store's history: empty, without parent, "Initial commit".
pub fn create_initial_commit(repo: &Repository) -> (r: Result<Oid, LedgerError>)
    ensures
        r is Err ==> r->Err_0 is Git,
{
    let sig = match get_signature(repo) {
        Ok(s) => s,
        Err(e) => return Err(LedgerError::Git(e)),
    };
    let tree = match write_index_to_tree(repo) {
        Ok(t) => t,
        Err(e) => return Err(LedgerError::Git(e)),
    };
    match git_commit(repo, &sig, "Initial commit", &tree, None) {
        Ok(oid) => Ok(oid),
        Err(e) => Err(LedgerError::Git(e)),
    }
}

/// Creates a repository at `path` whose history is the initial commit alone.
pub fn init_repo(path: &str) -> (r: Result<Repository, LedgerError>)
    ensures
        r is Err ==> r->Err_0 is Git,
{
    let repo = match git_init(path) {
        Ok(repo) => repo,
        Err(e) => return Err(LedgerError::Git(e)),
    };
    match create_initial_commit(&repo) {
        Ok(_) => Ok(repo),
        Err(e) => Err(e),
    }
}

/// Commits what is staged with `message`, on top of HEAD as its only parent; `NoHeadCommit`
/// when the history is empty.
pub fn create_commit(repo: &Repository, message: &str) -> (r: Result<Oid, LedgerError>)
    ensures
        r is Err ==> (r->Err_0 is Git || r->Err_0 is NoHeadCommit),
{
    let sig = match get_signature(repo) {
        Ok(s) => s,
        Err(e) => return Err(LedgerError::Git(e)),
    };
    let tree = match write_index_to_tree(repo) {
        Ok(t) => t,
        Err(e) => return Err(LedgerError::Git(e)),
    };
    let parent = get_head_commit(repo)?;
    match git_commit(repo, &sig, message, &tree, Some(&parent)) {
        Ok(oid) => Ok(oid),
        Err(e) => Err(LedgerError::Git(e)),
    }
}

/// `rel` with every backslash turned into `/`.
pub fn to_repo_path(rel: &str) -> (r: String)
    ensures
        r@ == repo_path(rel@),
        no_backslash(r@),
{
    let n = rel.unicode_len();
    let mut out = String::new();
    let mut i: usize = 0;
    while i < n
        invariant
            n == rel@.len(),
            i <= n,
            out@ == repo_path(rel@.take(i as int)),
        decreases n - i,
    {
        let c = rel.get_char(i);
        if c == '\\' {
            out.append("/");
            proof {
                reveal_strlit("/");
            }
        } else {
            out.append(rel.substring_char(i, i + 1));
        }
        assert(rel@.take(i + 1) =~= rel@.take(i as int).push(c));
        assert(repo_path(rel@.take(i + 1)) =~= repo_path(rel@.take(i as int)).push(
            if c == '\\' { '/' } else { c },
        ));
        i = i + 1;
    }
    assert(rel@.take(n as int) =~= rel@);
    out
}

/// Stages `rel` in `index` and saves the index, or, when `remove` is set, takes its entry out.
pub fn stage_in_index(index: &mut Index, rel: &str, remove: bool) -> (r: Result<(), LedgerError>)
    requires
        no_backslash(rel@),
    ensures
        r is Err ==> r->Err_0 is Git,
        r is Ok && remove ==> !index_paths(*final(index)).contains(rel@),
        r is Ok && !remove ==> index_paths(*final(index)).contains(rel@),
{
    let staged = if remove {
        git_remove_path(index, rel)
    } else {
        git_add_path(index, rel)
    };
    match staged {
        Ok(()) => {},
        Err(e) => return Err(LedgerError::Git(e)),
    }
    match git_write_index(index) {
        Ok(()) => Ok(()),
        Err(e) => Err(LedgerError::Git(e)),
    }
}

/// Stages the file at `rel`, relative to the repository root, or unstages it when
/// `remove` is set; backslashes in `rel` are taken as separators.
pub fn stage_path(repo: &Repository, rel: &str, remove: bool) -> (r: Result<(), LedgerError>)
    ensures
        r is Err ==> r->Err_0 is Git,
{
    let path = to_repo_path(rel);
    let mut index = match git_index(repo) {
        Ok(i) => i,
        Err(e) => return Err(LedgerError::Git(e)),
    };
    stage_in_index(&mut index, path.as_str(), remove)
}

/// Stages the file at `rel`, relative to the repository root.
pub fn add_file(repo: &Repository, rel: &str) -> (r: Result<(), LedgerError>)
    ensures
        r is Err ==> r->Err_0 is Git,
{
    stage_path(repo, rel, false)
}

/// Records a change of the file `file` in the store at `root`: stages it (or its removal,
/// when `remove` is set) and commits with `message`. `PathOutsideRepo`, before anything is
/// staged, when the file does not lie under the root.
pub fn record_mutation(repo: &Repository, root: &str, file: &str, message: &str, remove: bool) -> (r:
    Result<Oid, LedgerError>)
    ensures
        relative_path(root@, file@) is None <==> (r is Err && r->Err_0 is PathOutsideRepo),
        r is Err ==> (r->Err_0 is PathOutsideRepo || r->Err_0 is Git || r->Err_0 is NoHeadCommit),
{
    let rel = match relative_path_exec(root, file) {
        Some(rel) => rel,
        None => return Err(LedgerError::PathOutsideRepo),
    };
    stage_path(repo, rel.as_str(), remove)?;
    create_commit(repo, message)
}

/// Records that the file `file` was added, with the message "Added file <relative path>".
pub fn add_commit_file(repo: &Repository, root: &str, file: &str) -> (r: Result<Oid, LedgerError>)
    ensures
        relative_path(root@, file@) is None <==> (r is Err && r->Err_0 is PathOutsideRepo),
{
    let rel = match relative_path_exec(root, file) {
        Some(rel) => rel,
        None => return Err(LedgerError::PathOutsideRepo),
    };
    let message = commit_message("Added file", rel.as_str());
    stage_path(repo, rel.as_str(), false)?;
    create_commit(repo, message.as_str())
}

/// What `password_message` gives for an entry at `path` in the store at `root`.
pub open spec fn password_message_result(
    root: Seq<char>,
    path: Option<Seq<char>>,
    updated: bool,
    r: Result<String, LedgerError>,
) -> bool {
    match path {
        None => r is Err && r->Err_0 is PathNotSet,
        Some(p) => match relative_path(root, p) {
            None => r is Err && r->Err_0 is PathOutsideRepo,
            Some(rel) => r is Ok && r->Ok_0@ == if updated {
                updated_password_message(rel)
            } else {
                added_password_message(rel)
            },
        },
    }
}

/// The message recording that the entry `password` was added or, with `updated`, changed:
/// `PathNotSet` without a container path, `PathOutsideRepo` when it does not lie under `root`,
/// else "Added password <name>" or "Updated password <name>".
pub fn password_message(root: &str, password: &Password, updated: bool) -> (r: Result<String, LedgerError>)
    ensures
        password_message_result(root@, password.path(), updated, r),
{
    let path = match password.get_filepath() {
        Some(p) => p,
        None => return Err(LedgerError::PathNotSet),
    };
    let rel = match relative_path_exec(root, path.as_str()) {
        Some(rel) => rel,
        None => return Err(LedgerError::PathOutsideRepo),
    };
    if updated {
        Ok(updated_password_message_exec(rel.as_str()))
    } else {
        Ok(added_password_message_exec(rel.as_str()))
    }
}

/// Records that the entry `password` was added, with the message "Added password <name>"
/// that `password_message` builds.
pub fn add_commit_password(repo: &Repository, root: &str, password: &Password) -> (r: Result<Oid, LedgerError>)
    ensures
        password.path() is None <==> (r is Err && r->Err_0 is PathNotSet),
        password.path() is Some ==> (relative_path(root@, password.path()->0) is None <==> (r is Err
            && r->Err_0 is PathOutsideRepo)),
{
    let message = password_message(root, password, false)?;
    let path = password.get_filepath().unwrap();
    record_mutation(repo, root, path.as_str(), message.as_str(), false)
}

/// Records that the entry `password` was changed, with the message "Updated password <name>"
/// that `password_message` builds.
pub fn add_commit_update_password(repo: &Repository, root: &str, password: &Password) -> (r: Result<Oid, LedgerError>)
    ensures
        password.path() is None <==> (r is Err && r->Err_0 is PathNotSet),
        password.path() is Some ==> (relative_path(root@, password.path()->0) is None <==> (r is Err
            && r->Err_0 is PathOutsideRepo)),
{
    let message = password_message(root, password, true)?;
    let path = password.get_filepath().unwrap();
    record_mutation(repo, root, path.as_str(), message.as_str(), false)
}

/// Records a move from `old` to `new` as one commit that unstages the first and stages the
/// second. `PathOutsideRepo`, before anything is staged, when either lies outside the root.
pub fn commit_move(repo: &Repository, root: &str, old: &str, new: &str, message: &str) -> (r: Result<Oid, LedgerError>)
    ensures
        (relative_path(root@, old@) is None || relative_path(root@, new@) is None) <==> (r is Err
            && r->Err_0 is PathOutsideRepo),
{
    let old_rel = match relative_path_exec(root, old) {
        Some(rel) => rel,
        None => return Err(LedgerError::PathOutsideRepo),
    };
    let new_rel = match relative_path_exec(root, new) {
        Some(rel) => rel,
        None => return Err(LedgerError::PathOutsideRepo),
    };
    stage_path(repo, old_rel.as_str(), true)?;
    stage_path(repo, new_rel.as_str(), false)?;
    create_commit(repo, message)
}

/// The entry `name` inserted into the store at `root` is recorded with the message
/// "Added password <name>".
pub proof fn inserted_entry_message(root: Seq<char>, name: Seq<char>)
    ensures
        relative_path(root, crate::entry::entry_path(root, name)) == Some(name + gpg_ext()),
        added_password_message(name + gpg_ext()) == "Added password "@ + name,
{
    crate::paths::entry_found_under_root(root, name);
}

} // verus!
