//! The secret keys of a certificate that can decrypt stored entries.
use vstd::prelude::*;
use sequoia_openpgp::packet::key::{SecretParts, UnspecifiedRole};
use sequoia_openpgp::packet::Key;
use sequoia_openpgp::Cert;

verus! {

#[verifier::external_type_specification]
#[verifier::external_body]
pub struct ExCert(Cert);

/// The secret keys taken from one certificate, held for the key ring.
#[verifier::external_body]
pub struct SecretKeys {
    pub keys: Vec<Key<SecretParts, UnspecifiedRole>>,
}

/// The recipient identifier of each key, in order.
pub uninterp spec fn key_ids(k: SecretKeys) -> Seq<Seq<u8>>;

/// Whether the secret material of each key is still protected by a passphrase, in order.
pub uninterp spec fn key_locks(k: SecretKeys) -> Seq<bool>;

/// Relies on sequoia's key amalgamation filter (`Cert::keys` under the standard policy,
/// restricted to live, unrevoked transport and storage encryption keys that carry secret
/// material): the keys of `cert` that may decrypt an entry, each with one identifier and one
/// lock state.
#[verifier::external_body]
fn storage_secret_keys(cert: &Cert) -> (r: SecretKeys)
    ensures
        key_ids(r).len() == key_locks(r).len(),
{
    let policy = sequoia_openpgp::policy::StandardPolicy::new();
    let keys = cert.keys().with_policy(&policy, None).for_transport_encryption()
        .for_storage_encryption().secret().alive().revoked(false)
        .map(|ka| ka.key().clone()).collect();
    SecretKeys { keys }
}

/// Relies on `Vec::len`: the number of keys held.
#[verifier::external_body]
fn key_count_of(k: &SecretKeys) -> (r: usize)
    ensures
        r == key_ids(*k).len(),
{
    k.keys.len()
}

/// Relies on `KeyID::from(Fingerprint)` and `KeyID::as_bytes`: the identifier under which an
/// encrypted message names key `i` as its recipient.
#[verifier::external_body]
fn key_id_at(k: &SecretKeys, i: usize) -> (r: Vec<u8>)
    requires
        i < key_ids(*k).len(),
    ensures
        r@ == key_ids(*k)[i as int],
{
    sequoia_openpgp::KeyID::from(k.keys[i].fingerprint()).as_bytes().to_vec()
}

/// Relies on `SecretKeyMaterial::is_encrypted`: whether key `i` is still protected by a
/// passphrase.
#[verifier::external_body]
fn key_locked_at(k: &SecretKeys, i: usize) -> (r: bool)
    requires
        i < key_ids(*k).len(),
    ensures
        r == key_locks(*k)[i as int],
{
    k.keys[i].secret().is_encrypted()
}

/// Relies on `SecretKeyMaterial::decrypt_in_place`: it succeeds only on protected material,
/// which it then replaces by the unprotected form; on failure it leaves the material as it was.
#[verifier::external_body]
fn unlock_key_at(k: &mut SecretKeys, i: usize, passphrase: &str) -> (r: bool)
    requires
        i < key_ids(*old(k)).len(),
        key_ids(*old(k)).len() == key_locks(*old(k)).len(),
    ensures
        key_ids(*final(k)) == key_ids(*old(k)),
        key_locks(*final(k)) == if r {
            key_locks(*old(k)).update(i as int, false)
        } else {
            key_locks(*old(k))
        },
        r ==> key_locks(*old(k))[i as int],
{
    let key = &mut k.keys[i];
    let algo = key.pk_algo();
    let pass = sequoia_openpgp::crypto::Password::from(passphrase);
    key.secret_mut().decrypt_in_place(algo, &pass).is_ok()
}

/// The decryption keys of one certificate, each with its identifier and whether it is locked.
pub struct KeyRing {
    pub keys: SecretKeys,
}

impl KeyRing {
    /// The key identifiers, in order.
    pub open spec fn ids(&self) -> Seq<Seq<u8>> {
        key_ids(self.keys)
    }

    /// Whether each key still needs a passphrase.
    pub open spec fn locked(&self) -> Seq<bool> {
        key_locks(self.keys)
    }

    /// Every key has its identifier and its lock state.
    pub open spec fn well_formed(&self) -> bool {
        self.ids().len() == self.locked().len()
    }

    /// The number of keys.
    pub open spec fn len(&self) -> nat {
        self.ids().len()
    }

    /// The keys of `cert` fit to decrypt stored entries.
    pub fn from_certificate(cert: &Cert) -> (r: KeyRing)
        ensures
            r.well_formed(),
    {
        KeyRing { keys: storage_secret_keys(cert) }
    }

    /// The number of keys.
    pub fn key_count(&self) -> (r: usize)
        ensures
            r == self.len(),
    {
        key_count_of(&self.keys)
    }

    /// The first key whose identifier is `recipient`, if any.
    pub fn find_by_recipient(&self, recipient: &[u8]) -> (r: Option<usize>)
        ensures
            match r {
                Some(i) => i < self.len() && self.ids()[i as int] == recipient@ && forall|j: int|
                    0 <= j < i ==> self.ids()[j] != recipient@,
                None => forall|j: int| 0 <= j < self.len() ==> self.ids()[j] != recipient@,
            },
    {
        let n = key_count_of(&self.keys);
        let mut i: usize = 0;
        while i < n
            invariant
                n == self.len(),
                i <= n,
                forall|j: int| 0 <= j < i ==> self.ids()[j] != recipient@,
            decreases n - i,
        {
            let id = key_id_at(&self.keys, i);
            if bytes_equal(id.as_slice(), recipient) {
                return Some(i);
            }
            i = i + 1;
        }
        None
    }

    /// Whether key `i` still needs a passphrase.
    pub fn is_locked(&self, i: usize) -> (r: bool)
        requires
            i < self.len(),
        ensures
            r == self.locked()[i as int],
    {
        key_locked_at(&self.keys, i)
    }

    /// Tries to unlock key `i` with `passphrase`. On success the key is unlocked; a failure
    /// leaves every key as it was, to be tried again with another passphrase.
    pub fn unlock(&mut self, i: usize, passphrase: &str) -> (r: bool)
        requires
            old(self).well_formed(),
            i < old(self).len(),
        ensures
            final(self).well_formed(),
            final(self).ids() == old(self).ids(),
            r ==> final(self).locked() == old(self).locked().update(i as int, false),
            !r ==> final(self).locked() == old(self).locked(),
            r ==> old(self).locked()[i as int],
    {
        unlock_key_at(&mut self.keys, i, passphrase)
    }
}

/// Whether two byte strings are equal.
pub fn bytes_equal(a: &[u8], b: &[u8]) -> (r: bool)
    ensures
        r == (a@ == b@),
{
    if a.len() != b.len() {
        return false;
    }
    let mut i: usize = 0;
    while i < a.len()
        invariant
            a@.len() == b@.len(),
            i <= a@.len(),
            forall|j: int| 0 <= j < i ==> a@[j] == b@[j],
        decreases a@.len() - i,
    {
        if a[i] != b[i] {
            return false;
        }
        i = i + 1;
    }
    assert(a@ =~= b@);
    true
}

} // verus!
