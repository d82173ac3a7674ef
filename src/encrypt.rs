//! Sealing an entry's text into an OpenPGP message for the keys of one certificate.
use vstd::prelude::*;
use sequoia_openpgp::Cert;
use sequoia_openpgp::serialize::stream::{Encryptor, LiteralWriter, Message};
use std::io::Write;
use crate::entry::{Password, serialization};

verus! {

#[verifier::external_type_specification]
#[verifier::external_body]
pub struct ExAnyhowError(anyhow::Error);

/// Why an entry could not be encrypted.
#[derive(Debug)]
pub enum EncryptError {
    /// The entry has no line.
    EmptyEntry,
    /// The certificate has no live, unrevoked key for storage and transport encryption.
    RecipientKeyMissing,
    /// The OpenPGP serializer failed.
    Openpgp(anyhow::Error),
}

/// Relies on sequoia's key amalgamation filter (`Cert::keys` under the standard policy,
/// transport and storage encryption keys with secret material, alive and not revoked): how
/// many keys of `cert` an entry is encrypted to.
#[verifier::external_body]
fn recipient_count(cert: &Cert) -> usize {
    let policy = sequoia_openpgp::policy::StandardPolicy::new();
    cert.keys().with_policy(&policy, None).for_transport_encryption().for_storage_encryption()
        .secret().alive().revoked(false).count()
}

/// Relies on sequoia's streaming serializer (`Message::new`, `Encryptor::for_recipients`,
/// `LiteralWriter`, `finalize`): one OpenPGP message holding `plaintext`, encrypted to the
/// same keys of `cert` that `recipient_count` counts.
#[verifier::external_body]
fn seal(plaintext: &str, cert: &Cert) -> Result<Vec<u8>, anyhow::Error> {
    let policy = sequoia_openpgp::policy::StandardPolicy::new();
    let recipients = cert.keys().with_policy(&policy, None).for_transport_encryption()
        .for_storage_encryption().secret().alive().revoked(false);
    let mut out: Vec<u8> = Vec::new();
    let message = Encryptor::for_recipients(Message::new(&mut out), recipients).build()?;
    let mut message = LiteralWriter::new(message).build()?;
    message.write_all(plaintext.as_bytes())?;
    message.finalize()?;
    Ok(out)
}

/// Whether a message can be addressed to `count` keys: `RecipientKeyMissing` when there is
/// none.
pub fn recipients_check(count: usize) -> (r: Result<(), EncryptError>)
    ensures
        r is Err <==> count == 0,
        r is Err ==> r->Err_0 is RecipientKeyMissing,
{
    if count == 0 {
        Err(EncryptError::RecipientKeyMissing)
    } else {
        Ok(())
    }
}

/// `plaintext` encrypted to every usable encryption key of `cert`; `RecipientKeyMissing`,
/// before anything is encrypted, when `recipients_check` finds none.
pub fn encrypt(plaintext: &str, cert: &Cert) -> (r: Result<Vec<u8>, EncryptError>)
    ensures
        r is Err ==> (r->Err_0 is RecipientKeyMissing || r->Err_0 is Openpgp),
{
    recipients_check(recipient_count(cert))?;
    match seal(plaintext, cert) {
        Ok(bytes) => Ok(bytes),
        Err(e) => Err(EncryptError::Openpgp(e)),
    }
}

impl Password {
    /// The entry's text encrypted to `cert`: `EmptyEntry`, before anything is encrypted, when
    /// the entry has no line.
    pub fn encrypt_with_cert(&self, cert: &Cert) -> (r: Result<Vec<u8>, EncryptError>)
        ensures
            serialization(self.content()) is None <==> (r is Err && r->Err_0 is EmptyEntry),
    {
        let text = match self.to_string() {
            Ok(t) => t,
            Err(_) => return Err(EncryptError::EmptyEntry),
        };
        encrypt(text.as_str(), cert)
    }
}

} // verus!
