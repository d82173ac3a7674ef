use pass4thewin::ledger::{self, LedgerError};
use tempfile::tempdir;

fn write_file(path: &std::path::Path, contents: &str) {
    fs_extra::file::write_all(path, contents).expect("Couldn't create file");
}

#[test]
fn init_repo() {
    let tmp_dir = tempdir().unwrap();
    let repo = ledger::init_repo(tmp_dir.path().to_str().unwrap()).unwrap();
    println!("created git repo {}", repo.path().display());
    assert_eq!(ledger::get_head_commit(&repo).is_ok(), true);
}

#[test]
fn add_file() {
    let tmp_dir = tempdir().unwrap();
    let repo = ledger::init_repo(tmp_dir.path().to_str().unwrap()).unwrap();
    println!("created git repo {}", repo.path().display());
    let file_path = tmp_dir.path().join("example.txt");
    write_file(&file_path, "example file\n");
    println!("created file {}", file_path.display());
    assert_eq!(repo.index().unwrap().is_empty(), true);
    ledger::add_file(&repo, "example.txt").unwrap();
    assert_eq!(repo.index().unwrap().is_empty(), false);
    println!("added file to index {}", file_path.display());
}

#[test]
fn commit_staging() {
    let tmp_dir = tempdir().unwrap();
    let repo = ledger::init_repo(tmp_dir.path().to_str().unwrap()).unwrap();
    println!("created git repo {}", repo.path().display());
    let file_path = tmp_dir.path().join("example.txt");
    write_file(&file_path, "example file\n");
    println!("created file {}", file_path.display());
    ledger::add_file(&repo, "example.txt").unwrap();
    println!("added file to index {}", file_path.display());
    let commit = ledger::create_commit(&repo, "test commit").unwrap();
    println!("commit has been created");
    let head_commit = ledger::get_head_commit(&repo).unwrap().id();
    assert_eq!(commit, head_commit);
}

#[test]
fn initialize_then_record_gives_linear_history() {
    let tmp_dir = tempdir().unwrap();
    let root = tmp_dir.path().to_str().unwrap().to_string();
    let repo = ledger::init_repo(&root).unwrap();
    let first = ledger::get_head_commit(&repo).unwrap();
    assert_eq!(first.parent_count(), 0);
    assert_eq!(first.message(), Some("Initial commit"));
    assert_eq!(first.tree().unwrap().len(), 0);
    let first_id = first.id();

    let file_path = tmp_dir.path().join("example.txt");
    write_file(&file_path, "example file\n");
    let second = ledger::record_mutation(&repo, &root, file_path.to_str().unwrap(), "record it", false).unwrap();
    let head = ledger::get_head_commit(&repo).unwrap();
    assert_eq!(head.id(), second);
    assert_eq!(head.parent_count(), 1);
    assert_eq!(head.parent_id(0).unwrap(), first_id);
    assert_eq!(head.message(), Some("record it"));
    let parent_tree = head.parent(0).unwrap().tree().unwrap();
    let diff = repo.diff_tree_to_tree(Some(&parent_tree), Some(&head.tree().unwrap()), None).unwrap();
    let paths: Vec<String> = diff
        .deltas()
        .map(|d| d.new_file().path().unwrap().to_str().unwrap().to_string())
        .collect();
    assert_eq!(paths, vec!["example.txt".to_string()]);

    let mut walk = repo.revwalk().unwrap();
    walk.push_head().unwrap();
    assert_eq!(walk.count(), 2);
}

#[test]
fn record_outside_store_is_refused() {
    let tmp_dir = tempdir().unwrap();
    let root = tmp_dir.path().join("store");
    fs_extra::dir::create(&root, false).unwrap();
    let repo = ledger::init_repo(root.to_str().unwrap()).unwrap();
    let other = tmp_dir.path().join("other.txt");
    write_file(&other, "x");
    let r = ledger::record_mutation(&repo, root.to_str().unwrap(), other.to_str().unwrap(), "m", false);
    assert!(matches!(r, Err(LedgerError::PathOutsideRepo)));
    let mut walk = repo.revwalk().unwrap();
    walk.push_head().unwrap();
    assert_eq!(walk.count(), 1);
}

#[test]
fn added_file_message_names_relative_path() {
    let tmp_dir = tempdir().unwrap();
    let root = tmp_dir.path().to_str().unwrap().to_string();
    let repo = ledger::init_repo(&root).unwrap();
    let id_path = tmp_dir.path().join(".gpg-id");
    write_file(&id_path, "0xABCD\n");
    ledger::add_commit_file(&repo, &root, id_path.to_str().unwrap()).unwrap();
    let head = ledger::get_head_commit(&repo).unwrap();
    assert_eq!(head.message(), Some("Added file .gpg-id"));
}

#[test]
fn move_is_one_commit_over_both_paths() {
    let tmp_dir = tempdir().unwrap();
    let root = tmp_dir.path().to_str().unwrap().to_string();
    let repo = ledger::init_repo(&root).unwrap();
    let old = tmp_dir.path().join("a.gpg");
    write_file(&old, "secret");
    ledger::record_mutation(&repo, &root, old.to_str().unwrap(), "add a", false).unwrap();
    let new = tmp_dir.path().join("b.gpg");
    fs_extra::file::move_file(&old, &new, &fs_extra::file::CopyOptions::new()).unwrap();
    ledger::commit_move(&repo, &root, old.to_str().unwrap(), new.to_str().unwrap(), "Moved a to b").unwrap();
    let head = ledger::get_head_commit(&repo).unwrap();
    assert_eq!(head.message(), Some("Moved a to b"));
    let tree = head.tree().unwrap();
    assert!(tree.get_name("b.gpg").is_some());
    assert!(tree.get_name("a.gpg").is_none());
    assert_eq!(head.parent_count(), 1);
}

#[test]
fn relative_path_of_store_file() {
    assert_eq!(ledger::get_relative_path("/s", "/s/f/p.gpg").unwrap(), "f/p.gpg");
    assert_eq!(ledger::get_relative_path("/s", "/x/p.gpg"), None);
    assert!(ledger::open_repo("/nonexistent/store/path").is_none());
}

#[test]
fn repo_paths_use_forward_slashes() {
    assert_eq!(ledger::to_repo_path("fol1\\fol2/p.gpg"), "fol1/fol2/p.gpg");
    assert_eq!(ledger::to_repo_path("plain.gpg"), "plain.gpg");
}

#[test]
fn removal_is_unstaged_and_committed() {
    let tmp_dir = tempdir().unwrap();
    let root = tmp_dir.path().to_str().unwrap().to_string();
    let repo = ledger::init_repo(&root).unwrap();
    let file = tmp_dir.path().join("gone.gpg");
    write_file(&file, "x");
    ledger::record_mutation(&repo, &root, file.to_str().unwrap(), "add", false).unwrap();
    assert!(repo.index().unwrap().get_path(std::path::Path::new("gone.gpg"), 0).is_some());
    fs_extra::file::remove(&file).unwrap();
    ledger::record_mutation(&repo, &root, file.to_str().unwrap(), "Removed gone from password store", true).unwrap();
    assert!(repo.index().unwrap().get_path(std::path::Path::new("gone.gpg"), 0).is_none());
    let head = ledger::get_head_commit(&repo).unwrap();
    assert_eq!(head.message(), Some("Removed gone from password store"));
    assert!(head.tree().unwrap().get_name("gone.gpg").is_none());
}
