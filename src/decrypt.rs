//! The decisions of decrypting a container: which key, whether and how to unlock it, and when
//! to give up. The caller performs each action and reports what came of it.
use vstd::prelude::*;
use crate::keyring::KeyRing;

verus! {

/// Why a container could not be decrypted.
#[derive(Clone, Copy, Debug, PartialEq, Eq, Structural)]
pub enum DecryptError {
    /// No key of the key ring is the container's recipient.
    NoMatchingKey,
    /// The passphrase given up front does not unlock the key.
    InvalidPassphrase,
    /// The unlocked key did not yield the session key.
    SessionKeyRecoveryFailed,
    /// The user gave up on the passphrase prompt.
    Canceled,
}

/// Where a decryption stands.
#[derive(Clone, Copy, Debug, PartialEq, Eq, Structural)]
pub enum Stage {
    /// Nothing looked at yet.
    Start,
    /// The key at this index is locked and a passphrase is awaited for it.
    PassphraseLoop(usize),
    /// The key at this index is usable; the session key is to be recovered with it.
    KeyUnlocked(usize),
    /// The session key is known; the payload is to be decrypted.
    SessionKeyRecovered,
    /// The plaintext has been written out.
    PlaintextEmitted,
    /// Decryption failed for good.
    Aborted(DecryptError),
}

/// What the caller found out since the last step.
#[derive(Clone, Copy, Debug, PartialEq, Eq, Structural)]
pub enum Event {
    /// The key ring was asked for the recipient: the matching key and whether it is locked.
    KeyLookup(Option<usize>, bool),
    /// An unlock attempt with a passphrase succeeded or not.
    UnlockAttempt(bool),
    /// The user canceled the passphrase prompt.
    Cancel,
    /// Recovering the session key succeeded or not.
    SessionKey(bool),
    /// The payload has been decrypted and written out.
    PayloadWritten,
}

/// What the caller is to do next.
#[derive(Clone, Copy, Debug, PartialEq, Eq, Structural)]
pub enum Action {
    /// Recover the session key with the key at this index.
    RecoverSessionKey(usize),
    /// Unlock the key at this index with the passphrase given up front.
    TrySuppliedPassphrase(usize),
    /// Ask the user for a passphrase for the key at this index and try it.
    PromptPassphrase(usize),
    /// Warn that the passphrase was wrong, then ask again for the key at this index.
    RetryPrompt(usize),
    /// Decrypt the payload with the recovered session key.
    DecryptPayload,
    /// Stop: decryption succeeded.
    Finish,
    /// Stop: decryption failed.
    Fail(DecryptError),
    /// Nothing to do: the event does not apply at this stage.
    Ignore,
}

/// A decryption in progress.
#[derive(Clone, Copy, Debug, PartialEq, Eq, Structural)]
pub struct Decryption {
    pub stage: Stage,
    /// Whether a passphrase was given up front, so that none may be asked for.
    pub passphrase_supplied: bool,
}

/// The next stage and action after `e` at `d`.
pub open spec fn next(d: Decryption, e: Event) -> (Decryption, Action) {
    let same = (d, Action::Ignore);
    let to = |s: Stage| Decryption { stage: s, ..d };
    match d.stage {
        Stage::Start => match e {
            Event::KeyLookup(None, _) => (
                to(Stage::Aborted(DecryptError::NoMatchingKey)),
                Action::Fail(DecryptError::NoMatchingKey),
            ),
            Event::KeyLookup(Some(i), locked) => if !locked {
                (to(Stage::KeyUnlocked(i)), Action::RecoverSessionKey(i))
            } else if d.passphrase_supplied {
                (to(Stage::PassphraseLoop(i)), Action::TrySuppliedPassphrase(i))
            } else {
                (to(Stage::PassphraseLoop(i)), Action::PromptPassphrase(i))
            },
            _ => same,
        },
        Stage::PassphraseLoop(i) => match e {
            Event::UnlockAttempt(true) => (to(Stage::KeyUnlocked(i)), Action::RecoverSessionKey(i)),
            Event::UnlockAttempt(false) => if d.passphrase_supplied {
                (
                    to(Stage::Aborted(DecryptError::InvalidPassphrase)),
                    Action::Fail(DecryptError::InvalidPassphrase),
                )
            } else {
                (d, Action::RetryPrompt(i))
            },
            Event::Cancel => (
                to(Stage::Aborted(DecryptError::Canceled)),
                Action::Fail(DecryptError::Canceled),
            ),
            _ => same,
        },
        Stage::KeyUnlocked(_) => match e {
            Event::SessionKey(true) => (to(Stage::SessionKeyRecovered), Action::DecryptPayload),
            Event::SessionKey(false) => (
                to(Stage::Aborted(DecryptError::SessionKeyRecoveryFailed)),
                Action::Fail(DecryptError::SessionKeyRecoveryFailed),
            ),
            _ => same,
        },
        Stage::SessionKeyRecovered => match e {
            Event::PayloadWritten => (to(Stage::PlaintextEmitted), Action::Finish),
            _ => same,
        },
        Stage::PlaintextEmitted => same,
        Stage::Aborted(_) => same,
    }
}

/// Whether an action asks the user for a passphrase.
pub open spec fn prompts(a: Action) -> bool {
    a is PromptPassphrase || a is RetryPrompt
}

impl Decryption {
    /// A decryption about to start; `passphrase_supplied` says whether a passphrase was given
    /// up front.
    pub fn new(passphrase_supplied: bool) -> (r: Decryption)
        ensures
            r.stage == Stage::Start,
            r.passphrase_supplied == passphrase_supplied,
    {
        Decryption { stage: Stage::Start, passphrase_supplied }
    }

    /// Takes in what the caller found out and says what to do next.
    pub fn step(&mut self, e: Event) -> (a: Action)
        ensures
            (*final(self), a) == next(*old(self), e),
    {
        let d = *self;
        match d.stage {
            Stage::Start => match e {
                Event::KeyLookup(None, _) => {
                    self.stage = Stage::Aborted(DecryptError::NoMatchingKey);
                    Action::Fail(DecryptError::NoMatchingKey)
                },
                Event::KeyLookup(Some(i), locked) => {
                    if !locked {
                        self.stage = Stage::KeyUnlocked(i);
                        Action::RecoverSessionKey(i)
                    } else if d.passphrase_supplied {
                        self.stage = Stage::PassphraseLoop(i);
                        Action::TrySuppliedPassphrase(i)
                    } else {
                        self.stage = Stage::PassphraseLoop(i);
                        Action::PromptPassphrase(i)
                    }
                },
                _ => Action::Ignore,
            },
            Stage::PassphraseLoop(i) => match e {
                Event::UnlockAttempt(true) => {
                    self.stage = Stage::KeyUnlocked(i);
                    Action::RecoverSessionKey(i)
                },
                Event::UnlockAttempt(false) => {
                    if d.passphrase_supplied {
                        self.stage = Stage::Aborted(DecryptError::InvalidPassphrase);
                        Action::Fail(DecryptError::InvalidPassphrase)
                    } else {
                        Action::RetryPrompt(i)
                    }
                },
                Event::Cancel => {
                    self.stage = Stage::Aborted(DecryptError::Canceled);
                    Action::Fail(DecryptError::Canceled)
                },
                _ => Action::Ignore,
            },
            Stage::KeyUnlocked(_) => match e {
                Event::SessionKey(true) => {
                    self.stage = Stage::SessionKeyRecovered;
                    Action::DecryptPayload
                },
                Event::SessionKey(false) => {
                    self.stage = Stage::Aborted(DecryptError::SessionKeyRecoveryFailed);
                    Action::Fail(DecryptError::SessionKeyRecoveryFailed)
                },
                _ => Action::Ignore,
            },
            Stage::SessionKeyRecovered => match e {
                Event::PayloadWritten => {
                    self.stage = Stage::PlaintextEmitted;
                    Action::Finish
                },
                _ => Action::Ignore,
            },
            Stage::PlaintextEmitted => Action::Ignore,
            Stage::Aborted(_) => Action::Ignore,
        }
    }
}

/// The first key of `ids` named `recipient`.
pub open spec fn first_match(ids: Seq<Seq<u8>>, recipient: Seq<u8>) -> Option<int> {
    if exists|i: int| 0 <= i < ids.len() && ids[i] == recipient {
        Some(choose|i: int| 0 <= i < ids.len() && ids[i] == recipient && forall|j: int| 0 <= j < i ==> ids[j] != recipient)
    } else {
        None
    }
}

/// Starts decrypting a container addressed to `recipient`: finds the key, and unlocks it with
/// `passphrase` when one is given. The returned action is what remains to do: recover the
/// session key, ask the user for a passphrase, or fail. No key is touched and no passphrase
/// asked for unless a key matches.
pub fn prepare_key(ring: &mut KeyRing, recipient: &[u8], passphrase: Option<&str>) -> (r: (Decryption, Action))
    requires
        old(ring).well_formed(),
    ensures
        final(ring).well_formed(),
        final(ring).ids() == old(ring).ids(),
        r.0.passphrase_supplied == (passphrase is Some),
        match first_match(old(ring).ids(), recipient@) {
            None => r.1 == Action::Fail(DecryptError::NoMatchingKey) && final(ring).locked() == old(ring).locked(),
            Some(i) => if !old(ring).locked()[i] {
                r.1 == Action::RecoverSessionKey(i as usize) && final(ring).locked() == old(ring).locked()
            } else if passphrase is None {
                r.1 == Action::PromptPassphrase(i as usize) && final(ring).locked() == old(ring).locked()
            } else {
                (r.1 == Action::RecoverSessionKey(i as usize) && final(ring).locked() == old(ring).locked().update(i, false))
                || (r.1 == Action::Fail(DecryptError::InvalidPassphrase) && final(ring).locked() == old(ring).locked())
            },
        },
        r.1 is RecoverSessionKey ==> r.0.stage == Stage::KeyUnlocked(r.1->RecoverSessionKey_0),
        r.1 is PromptPassphrase ==> r.0.stage == Stage::PassphraseLoop(r.1->PromptPassphrase_0),
        r.1 is Fail ==> r.0.stage == Stage::Aborted(r.1->Fail_0),
{
    let mut machine = Decryption::new(passphrase.is_some());
    let found = ring.find_by_recipient(recipient);
    proof {
        let ids = ring.ids();
        match found {
            Some(i) => {
                assert(exists|k: int| 0 <= k < ids.len() && ids[k] == recipient@);
                let c = first_match(ids, recipient@)->0;
                assert(c == i as int) by {
                    if c < i {
                    } else if c > i {
                    }
                }
            },
            None => {},
        }
    }
    let locked = match found {
        Some(i) => ring.is_locked(i),
        None => false,
    };
    let action = machine.step(Event::KeyLookup(found, locked));
    match (action, passphrase) {
        (Action::TrySuppliedPassphrase(i), Some(p)) => {
            let ok = ring.unlock(i, p);
            let next = machine.step(Event::UnlockAttempt(ok));
            (machine, next)
        },
        _ => (machine, action),
    }
}

/// A container whose recipient matches no key fails with `NoMatchingKey`, and from then on
/// no event leads to a passphrase prompt or to any other action.
pub proof fn no_matching_key_never_prompts(supplied: bool, locked: bool, later: Seq<Event>)
    ensures
        ({
            let (d, a) = next(Decryption { stage: Stage::Start, passphrase_supplied: supplied }, Event::KeyLookup(None, locked));
            &&& a == Action::Fail(DecryptError::NoMatchingKey)
            &&& d.stage == Stage::Aborted(DecryptError::NoMatchingKey)
            &&& forall|k: int| 0 <= k < later.len() ==> next(d, #[trigger] later[k]) == (d, Action::Ignore)
        }),
{
}

/// A passphrase given up front is tried once: if it fails, decryption stops with
/// `InvalidPassphrase` and no prompt is made.
pub proof fn supplied_passphrase_tried_once(i: usize)
    ensures
        ({
            let d0 = Decryption { stage: Stage::Start, passphrase_supplied: true };
            let (d1, a1) = next(d0, Event::KeyLookup(Some(i), true));
            let (d2, a2) = next(d1, Event::UnlockAttempt(false));
            &&& a1 == Action::TrySuppliedPassphrase(i)
            &&& a2 == Action::Fail(DecryptError::InvalidPassphrase)
            &&& d2.stage == Stage::Aborted(DecryptError::InvalidPassphrase)
        }),
{
}

/// Without a passphrase given up front, a wrong passphrase never ends the decryption: the
/// prompt comes again, at the same stage.
pub proof fn interactive_retry_unbounded(i: usize)
    ensures
        ({
            let d = Decryption { stage: Stage::PassphraseLoop(i), passphrase_supplied: false };
            next(d, Event::UnlockAttempt(false)) == (d, Action::RetryPrompt(i))
        }),
{
}

/// A failure to recover the session key after unlocking is final: no new prompt follows.
pub proof fn recovery_failure_is_final(i: usize, supplied: bool)
    ensures
        ({
            let d = Decryption { stage: Stage::KeyUnlocked(i), passphrase_supplied: supplied };
            let (d2, a) = next(d, Event::SessionKey(false));
            &&& a == Action::Fail(DecryptError::SessionKeyRecoveryFailed)
            &&& !prompts(a)
            &&& d2.stage == Stage::Aborted(DecryptError::SessionKeyRecoveryFailed)
        }),
{
}

} // verus!
