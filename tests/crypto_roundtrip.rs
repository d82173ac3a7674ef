use pass4thewin::decrypt::{prepare_key, Action, DecryptError, Event};
use pass4thewin::encrypt::EncryptError;
use pass4thewin::entry::Password;
use pass4thewin::keyring::KeyRing;
use pass4thewin::ledger;
use pass4thewin::paths::ancestors_below;
use pass4thewin::store::{move_destination, move_step, removable_count, MoveStep};
use sequoia_openpgp::cert::CertBuilder;
use sequoia_openpgp::crypto::SessionKey;
use sequoia_openpgp::packet::{PKESK, SKESK};
use sequoia_openpgp::parse::stream::{
    DecryptionHelper, DecryptorBuilder, MessageStructure, VerificationHelper,
};
use sequoia_openpgp::parse::Parse;
use sequoia_openpgp::policy::StandardPolicy;
use sequoia_openpgp::types::{KeyFlags, SymmetricAlgorithm};
use sequoia_openpgp::{Cert, Fingerprint, KeyHandle};
use std::io::Write;
use std::path::Path;
use tempfile::tempdir;

fn make_cert(passphrase: Option<&str>) -> Cert {
    CertBuilder::new()
        .add_userid("test <test@example.org>")
        .add_subkey(
            KeyFlags::empty().set_transport_encryption().set_storage_encryption(),
            None,
            None,
        )
        .set_password(passphrase.map(|p| p.into()))
        .generate()
        .unwrap()
        .0
}

struct Helper {
    ring: KeyRing,
    passphrase: Option<String>,
    fingerprint: Fingerprint,
}

impl VerificationHelper for Helper {
    fn get_certs(&mut self, _ids: &[KeyHandle]) -> sequoia_openpgp::Result<Vec<Cert>> {
        Ok(Vec::new())
    }

    fn check(&mut self, _structure: MessageStructure) -> sequoia_openpgp::Result<()> {
        Ok(())
    }
}

impl DecryptionHelper for Helper {
    fn decrypt<D>(
        &mut self,
        pkesks: &[PKESK],
        _skesks: &[SKESK],
        sym_algo: Option<SymmetricAlgorithm>,
        mut decrypt: D,
    ) -> sequoia_openpgp::Result<Option<Fingerprint>>
    where
        D: FnMut(SymmetricAlgorithm, &SessionKey) -> bool,
    {
        let pkesk = &pkesks[0];
        let (mut machine, mut action) =
            prepare_key(&mut self.ring, pkesk.recipient().as_bytes(), self.passphrase.as_deref());
        loop {
            action = match action {
                Action::RecoverSessionKey(i) => {
                    let key = self.ring.keys.keys[i].clone();
                    let ok = key
                        .into_keypair()
                        .ok()
                        .and_then(|mut pair| pkesk.decrypt(&mut pair, sym_algo))
                        .map(|(algo, sk)| decrypt(algo, &sk))
                        .unwrap_or(false);
                    machine.step(Event::SessionKey(ok))
                }
                Action::TrySuppliedPassphrase(i) => {
                    let p = self.passphrase.clone().unwrap();
                    let ok = self.ring.unlock(i, &p);
                    machine.step(Event::UnlockAttempt(ok))
                }
                Action::PromptPassphrase(_) | Action::RetryPrompt(_) => {
                    panic!("no passphrase prompt is expected here")
                }
                Action::DecryptPayload => return Ok(Some(self.fingerprint.clone())),
                Action::Fail(e) => return Err(anyhow::Error::msg(format!("{:?}", e))),
                Action::Finish | Action::Ignore => return Ok(None),
            }
        }
    }
}

fn decrypt_file(path: &str, cert: &Cert, passphrase: Option<&str>) -> anyhow::Result<String> {
    let policy = StandardPolicy::new();
    let helper = Helper {
        ring: KeyRing::from_certificate(cert),
        passphrase: passphrase.map(|p| p.to_string()),
        fingerprint: cert.fingerprint(),
    };
    let mut decryptor = DecryptorBuilder::from_file(path)?.with_policy(&policy, None, helper)?;
    let mut out: Vec<u8> = Vec::new();
    std::io::copy(&mut decryptor, &mut out)?;
    Ok(String::from_utf8(out)?)
}

fn store_entry(password: &Password, cert: &Cert) {
    let path = password.get_filepath().unwrap();
    let parent = Path::new(path).parent().unwrap();
    fs_extra::dir::create_all(parent, false).unwrap();
    let bytes = password.encrypt_with_cert(cert).unwrap();
    let mut file = tempfile::NamedTempFile::new_in(parent).unwrap();
    file.write_all(&bytes).unwrap();
    file.persist(path).unwrap();
}

fn new_store(tmp: &Path) -> String {
    let store = tmp.join(".password-store");
    fs_extra::dir::create_all(&store, false).unwrap();
    store.to_str().unwrap().to_string()
}

fn git_operation(store: &str, password: &Password, name: &str) {
    let repo = git2::Repository::open(store).unwrap();
    ledger::add_commit_password(&repo, store, password).unwrap();
    let commit = ledger::get_head_commit(&repo).unwrap();
    assert_eq!(commit.message().unwrap(), format!("Added password {}", name));
}

#[test]
fn insert_single_line() {
    let tmp_dir = tempdir().unwrap();
    let cert = make_cert(None);
    let password_contents = "my_super_secure_password";
    let password_name = "folder/password";
    let store = new_store(tmp_dir.path());
    ledger::init_repo(&store).unwrap();
    let mut password = Password::from_single_line(password_contents);
    password.set_filepath(&store, password_name);
    assert_eq!(password.file_exists(), false);
    store_entry(&password, &cert);
    assert_eq!(password.file_exists(), true);
    assert!(Path::new(&store).join("folder/password.gpg").is_file());
    git_operation(&store, &password, password_name);
    let plain = decrypt_file(password.get_filepath().unwrap(), &cert, None).unwrap();
    assert_eq!(plain, password_contents);
}

#[test]
fn insert_multi_line() {
    let tmp_dir = tempdir().unwrap();
    let cert = make_cert(None);
    let password_contents = vec!["multi\n".to_string(), "line\n".to_string(), "password\n".to_string()];
    let password_name = "folder/password";
    let store = new_store(tmp_dir.path());
    ledger::init_repo(&store).unwrap();
    let mut password = Password::from_multi_line(&password_contents);
    password.set_filepath(&store, password_name);
    assert_eq!(password.file_exists(), false);
    store_entry(&password, &cert);
    assert_eq!(password.file_exists(), true);
    git_operation(&store, &password, password_name);
}

#[test]
fn full_password() {
    let tmp_dir = tempdir().unwrap();
    let cert = make_cert(Some("password"));
    let password_contents = "my_super_secure_password";
    let store = new_store(tmp_dir.path());
    let mut password = Password::from_single_line(password_contents);
    password.set_filepath(&store, "password");
    store_entry(&password, &cert);
    password.clean_password();
    let plain = decrypt_file(password.get_filepath().unwrap(), &cert, Some("password")).unwrap();
    password.open_decrypt(&plain).unwrap();
    assert_eq!(password.to_string().unwrap(), password_contents);
}

#[test]
fn specific_line() {
    let tmp_dir = tempdir().unwrap();
    let cert = make_cert(Some("password"));
    let password_contents = vec!["multi\n".to_string(), "line\n".to_string(), "password\n".to_string()];
    let store = new_store(tmp_dir.path());
    let mut password = Password::from_multi_line(&password_contents);
    password.set_filepath(&store, "password");
    store_entry(&password, &cert);
    password.clean_password();
    let plain = decrypt_file(password.get_filepath().unwrap(), &cert, Some("password")).unwrap();
    password.open_decrypt(&plain).unwrap();
    assert_eq!(password.line(2).unwrap(), password_contents.get(1).unwrap());
}

#[test]
fn round_trip_keeps_serialization() {
    let tmp_dir = tempdir().unwrap();
    let cert = make_cert(None);
    let store = new_store(tmp_dir.path());
    for (k, text) in ["one line", "a\nb\n", "first\nsecond"].iter().enumerate() {
        let mut password = Password::default();
        password.multi_line_input(text);
        password.set_filepath(&store, &format!("entry{}", k));
        let before = password.to_string().unwrap();
        store_entry(&password, &cert);
        let plain = decrypt_file(password.get_filepath().unwrap(), &cert, None).unwrap();
        let mut loaded = Password::default();
        loaded.set_filepath(&store, &format!("entry{}", k));
        loaded.open_decrypt(&plain).unwrap();
        assert_eq!(loaded.to_string().unwrap(), before);
    }
}

#[test]
fn foreign_key_gives_no_matching_key() {
    let tmp_dir = tempdir().unwrap();
    let owner = make_cert(None);
    let stranger = make_cert(None);
    let store = new_store(tmp_dir.path());
    let mut password = Password::from_single_line("secret");
    password.set_filepath(&store, "p");
    store_entry(&password, &owner);
    let err = decrypt_file(password.get_filepath().unwrap(), &stranger, None).unwrap_err();
    assert!(format!("{:?}", err).contains("NoMatchingKey"));
}

#[test]
fn wrong_supplied_passphrase_is_invalid() {
    let tmp_dir = tempdir().unwrap();
    let cert = make_cert(Some("password"));
    let store = new_store(tmp_dir.path());
    let mut password = Password::from_single_line("secret");
    password.set_filepath(&store, "p");
    store_entry(&password, &cert);
    let err = decrypt_file(password.get_filepath().unwrap(), &cert, Some("nope")).unwrap_err();
    assert!(format!("{:?}", err).contains("InvalidPassphrase"));
}

#[test]
fn key_ring_unlock_changes_lock_state() {
    let cert = make_cert(Some("password"));
    let mut ring = KeyRing::from_certificate(&cert);
    assert_eq!(ring.key_count(), 1);
    assert!(ring.is_locked(0));
    assert!(!ring.unlock(0, "wrong"));
    assert!(ring.is_locked(0));
    assert!(ring.unlock(0, "password"));
    assert!(!ring.is_locked(0));
    assert!(!ring.unlock(0, "password"));
    assert_eq!(ring.find_by_recipient(&[0u8; 8]), None);
}

#[test]
fn certificate_without_encryption_key_is_refused() {
    let cert = CertBuilder::new().add_userid("signer").generate().unwrap().0;
    let password = Password::from_single_line("secret");
    assert!(matches!(password.encrypt_with_cert(&cert), Err(EncryptError::RecipientKeyMissing)));
    let empty = Password::default();
    assert!(matches!(empty.encrypt_with_cert(&cert), Err(EncryptError::EmptyEntry)));
}

#[test]
fn remove_file() {
    let tmp_dir = tempdir().unwrap();
    let cert = make_cert(None);
    let store = new_store(tmp_dir.path());
    let mut password = Password::from_single_line("my_super_secure_password");
    password.set_filepath(&store, "fol1/fol2/password");
    store_entry(&password, &cert);
    assert_eq!(password.file_exists(), true);

    let file = password.get_filepath().unwrap().to_string();
    let dirs = ancestors_below(&store, &file).unwrap();
    let counts: Vec<usize> = dirs.iter().map(|d| Path::new(d).read_dir().unwrap().count()).collect();
    let n = removable_count(&counts);
    assert_eq!(n, 2);
    fs_extra::file::remove(&file).unwrap();
    for d in dirs.iter().take(n) {
        fs_extra::dir::remove(d).unwrap();
    }
    assert_eq!(Path::new(&file).exists(), false);
    assert!(!Path::new(&store).join("fol1/fol2").exists());
    assert!(!Path::new(&store).join("fol1").exists());
    assert!(Path::new(&store).exists());
}

#[test]
fn prepare_key_matches_before_unlocking() {
    let cert = make_cert(Some("password"));
    let mut ring = KeyRing::from_certificate(&cert);
    let (_, action) = prepare_key(&mut ring, &[0u8; 8], Some("password"));
    assert_eq!(action, Action::Fail(DecryptError::NoMatchingKey));
    assert!(ring.is_locked(0));
    let id = sequoia_openpgp::KeyID::from(ring.keys.keys[0].fingerprint()).as_bytes().to_vec();
    let (_, action) = prepare_key(&mut ring, &id, None);
    assert_eq!(action, Action::PromptPassphrase(0));
    let (_, action) = prepare_key(&mut ring, &id, Some("wrong"));
    assert_eq!(action, Action::Fail(DecryptError::InvalidPassphrase));
    let (_, action) = prepare_key(&mut ring, &id, Some("password"));
    assert_eq!(action, Action::RecoverSessionKey(0));
    assert!(!ring.is_locked(0));
}

fn move_action(old: &str, new: &str, force: bool) {
    let dest = Path::new(new);
    match move_step(dest.exists(), dest.is_dir(), force, None) {
        MoveStep::MoveInto => {
            fs_extra::move_items(&[old], new, &fs_extra::dir::CopyOptions::new()).unwrap();
        }
        step => panic!("unexpected move step {:?}", step),
    }
}

#[test]
fn move_file_to_folder() {
    let tmp_dir = tempdir().unwrap();
    let cert = make_cert(None);
    let password_contents = "my_super_secure_password";
    let password_name = "password";
    let store = new_store(tmp_dir.path());
    let mut password = Password::from_single_line(password_contents);
    password.set_filepath(&store, password_name);
    store_entry(&password, &cert);
    assert_eq!(password.file_exists(), true);

    let folder = "folder";
    let folder_path = move_destination(&store, folder);
    fs_extra::dir::create(&folder_path, false).unwrap();
    let old = Path::new(&store).join(format!("{}.gpg", password_name));
    move_action(old.to_str().unwrap(), &folder_path, true);
    let moved = Path::new(&folder_path).join(format!("{}.gpg", password_name));
    assert_eq!(old.exists(), false);
    assert_eq!(moved.exists(), true);
}

#[test]
fn move_folder_to_folder() {
    let tmp_dir = tempdir().unwrap();
    let cert = make_cert(None);
    let password_contents = "my_super_secure_password";
    let password_name = "folder/password";
    let store = new_store(tmp_dir.path());
    let mut password = Password::from_single_line(password_contents);
    password.set_filepath(&store, password_name);
    store_entry(&password, &cert);
    assert_eq!(password.file_exists(), true);

    let folder = "new_folder";
    let folder_path = move_destination(&store, folder);
    fs_extra::dir::create(&folder_path, false).unwrap();
    let old = Path::new(&store).join("folder");
    move_action(old.to_str().unwrap(), &folder_path, true);
    let moved = Path::new(&folder_path).join(format!("{}.gpg", password_name));
    assert_eq!(old.exists(), false);
    assert_eq!(moved.is_file(), true);
}

#[test]
fn refused_move_into_folder_changes_nothing() {
    let tmp_dir = tempdir().unwrap();
    let cert = make_cert(None);
    let store = new_store(tmp_dir.path());
    let repo = ledger::init_repo(&store).unwrap();
    let mut password = Password::from_single_line("my_super_secure_password");
    password.set_filepath(&store, "password");
    store_entry(&password, &cert);
    ledger::add_commit_password(&repo, &store, &password).unwrap();
    let head = ledger::get_head_commit(&repo).unwrap().id();

    let folder_path = move_destination(&store, "folder");
    fs_extra::dir::create(&folder_path, false).unwrap();
    let dest = Path::new(&folder_path);
    assert_eq!(move_step(dest.exists(), dest.is_dir(), false, None), MoveStep::Ask);
    assert_eq!(move_step(dest.exists(), dest.is_dir(), false, Some(false)), MoveStep::Cancel);
    // canceled: nothing is moved and nothing is committed
    assert!(password.file_exists());
    assert!(!dest.join("password.gpg").exists());
    assert_eq!(ledger::get_head_commit(&repo).unwrap().id(), head);
}
