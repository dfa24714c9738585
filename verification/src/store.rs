//! The credential store: holder of zero-or-one administrator secret for the
//! life of the process, together with the validation protocol that decides
//! whether a candidate secret is committed to it.

use vstd::prelude::*;

verus! {

/// Holds at most one secret. The host embeds a value of this type behind a
/// mutual-exclusion lock, so every `set` and `get` is serialized; the
/// contracts here describe each serialized step.
pub struct CredentialStore {
    secret: Option<String>,
}

impl CredentialStore {
    /// The store's mathematical model: the held secret, if any.
    pub closed spec fn view(&self) -> Option<Seq<char>> {
        match self.secret {
            Some(s) => Some(s@),
            None => None,
        }
    }

    /// A fresh store holds no credential.
    pub fn new() -> (r: CredentialStore)
        ensures
            r@ is None,
    {
        CredentialStore { secret: None }
    }

    /// Replaces whatever credential was held, if any, by `secret`.
    pub fn set(&mut self, secret: String)
        ensures
            final(self)@ == Some(secret@),
    {
        self.secret = Some(secret);
    }

    /// Returns a copy of the held credential without consuming it.
    pub fn get(&self) -> (r: Option<String>)
        ensures
            match r {
                Some(s) => self@ == Some(s@),
                None => self@ is None,
            },
    {
        match &self.secret {
            Some(s) => Some(s.clone()),
            None => None,
        }
    }

    /// Whether a credential is currently held.
    pub fn is_set(&self) -> (r: bool)
        ensures
            r == self@ is Some,
    {
        match &self.secret {
            Some(_) => true,
            None => false,
        }
    }
}

/// What the host's privilege-escalation tool reported when it was fed a
/// candidate secret through its non-terminal input channel: the secret
/// authorized escalation, it did not, or the tool could not be spawned at
/// all (the carried text is the spawn error, verbatim).
pub enum EscalationOutcome {
    Accepted,
    Rejected,
    SpawnFailed(String),
}

/// What a validation step leaves in the store: the candidate exactly when
/// escalation accepted it, the prior contents otherwise.
pub open spec fn committed(
    store: Option<Seq<char>>,
    candidate: Seq<char>,
    accepted: bool,
) -> Option<Seq<char>> {
    if accepted {
        Some(candidate)
    } else {
        store
    }
}

impl CredentialStore {
    /// Validation protocol: commit `candidate` iff escalation with it
    /// succeeded. `Ok(true)` means the secret was accepted and is now held;
    /// `Ok(false)` means it was wrong and the store is untouched; `Err`
    /// means the escalation mechanism itself is broken (spawn failure,
    /// reported verbatim) and the store is untouched.
    pub fn apply_validation(&mut self, candidate: String, outcome: EscalationOutcome) -> (r: Result<
        bool,
        String,
    >)
        ensures
            final(self)@ == committed(old(self)@, candidate@, outcome is Accepted),
            match outcome {
                EscalationOutcome::Accepted => r == Ok::<bool, String>(true),
                EscalationOutcome::Rejected => r == Ok::<bool, String>(false),
                EscalationOutcome::SpawnFailed(e) => r matches Err(m) && m@ == e@,
            },
    {
        match outcome {
            EscalationOutcome::Accepted => {
                self.set(candidate);
                Ok(true)
            },
            EscalationOutcome::Rejected => Ok(false),
            EscalationOutcome::SpawnFailed(e) => Err(e),
        }
    }
}

/// Serialization law for concurrent validation: when two validation steps
/// are applied one after the other (the store's lock admits no other
/// interleaving), the store ends up holding exactly one whole candidate —
/// the last accepted one — or its prior contents; never a mixture of the
/// two secrets.
pub proof fn lemma_serialized_commits(
    store: Option<Seq<char>>,
    a: Seq<char>,
    b: Seq<char>,
    ok_a: bool,
    ok_b: bool,
)
    ensures
        ({
            let after = committed(committed(store, a, ok_a), b, ok_b);
            &&& ok_b ==> after == Some(b)
            &&& !ok_b && ok_a ==> after == Some(a)
            &&& !ok_b && !ok_a ==> after == store
        }),
{
}

} // verus!
