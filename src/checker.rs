//! Deciding whether a claimed signature is authentic for a claimed message
//! under one public key.

use vstd::prelude::*;

use crate::keys::{is_signature_of, KeyMaterial, PublicKey};
use crate::primitives::{ed25519_accepts, ed25519_verify, PUBLIC_KEY_LEN, SIGNATURE_LEN};

verus! {

/// Why a message was not accepted as authentic. Both variants mean "not
/// authentic"; they differ in whether the inputs were well formed.
#[derive(Clone, Copy, Debug, PartialEq, Eq)]
pub enum VerificationError {
    /// Well-formed inputs, but the signature was not made by the matching
    /// private key over exactly these message bytes.
    Mismatch,
    /// The public key or the signature has the wrong length.
    MalformedInput,
}

/// The public key and the signature have the lengths of Ed25519.
pub open spec fn well_formed(public_key: Seq<u8>, signature: Seq<u8>) -> bool {
    public_key.len() == PUBLIC_KEY_LEN && signature.len() == SIGNATURE_LEN
}

/// The outcome of a check, given whether the Ed25519 primitive accepted
/// the inputs. Malformed inputs are reported as such whatever the primitive
/// said.
pub open spec fn verdict(public_key: Seq<u8>, signature: Seq<u8>, accepted: bool) -> Result<
    (),
    VerificationError,
> {
    if !well_formed(public_key, signature) {
        Err(VerificationError::MalformedInput)
    } else if accepted {
        Ok(())
    } else {
        Err(VerificationError::Mismatch)
    }
}

/// The outcome of checking `signature` over `message` under `public_key`.
pub open spec fn verify_outcome(public_key: Seq<u8>, message: Seq<u8>, signature: Seq<u8>) -> Result<
    (),
    VerificationError,
> {
    verdict(public_key, signature, ed25519_accepts(public_key, message, signature))
}

/// Turns the primitive's answer into the checker's outcome.
pub fn decide(public_key: &[u8], signature: &[u8], accepted: bool) -> (r: Result<
    (),
    VerificationError,
>)
    ensures
        r == verdict(public_key@, signature@, accepted),
{
    if public_key.len() != PUBLIC_KEY_LEN || signature.len() != SIGNATURE_LEN {
        Err(VerificationError::MalformedInput)
    } else if accepted {
        Ok(())
    } else {
        Err(VerificationError::Mismatch)
    }
}

/// A verifier bound to one public key. It holds no other state, so every
/// check is independent of the ones before it.
#[derive(Clone, Debug)]
pub struct AuthenticityChecker {
    key: PublicKey,
}

impl View for AuthenticityChecker {
    type V = Seq<u8>;

    closed spec fn view(&self) -> Seq<u8> {
        self.key@
    }
}

impl AuthenticityChecker {
    /// Binds a checker to `key`.
    pub fn from_public_key(key: PublicKey) -> (r: AuthenticityChecker)
        ensures
            r@ == key@,
    {
        AuthenticityChecker { key }
    }

    /// Accepts exactly when `signature` is a well-formed Ed25519 signature
    /// of the exact bytes of `message` under the bound key. The comparison is
    /// left to the primitive; no byte of the inputs is compared here.
    pub fn verify(&self, message: &[u8], signature: &[u8]) -> (r: Result<(), VerificationError>)
        ensures
            r == verify_outcome(self@, message@, signature@),
    {
        let public_key = self.key.as_bytes();
        let accepted = if public_key.len() == PUBLIC_KEY_LEN && signature.len() == SIGNATURE_LEN {
            ed25519_verify(public_key, message, signature).is_ok()
        } else {
            false
        };
        decide(public_key, signature, accepted)
    }
}

/// Round trip: a signature that key material produced for a message is
/// accepted for that message by a checker bound to its public key.
pub proof fn lemma_sign_then_verify(key: KeyMaterial, message: Seq<u8>, signature: Seq<u8>)
    requires
        key@.len() == PUBLIC_KEY_LEN,
        is_signature_of(key@, message, signature),
    ensures
        verify_outcome(key@, message, signature) == Ok::<(), VerificationError>(()),
{
}

/// Checking is a function of the key, the message and the signature alone:
/// two checks on the same inputs give the same outcome.
pub proof fn lemma_verify_repeatable(
    public_key: Seq<u8>,
    message: Seq<u8>,
    signature: Seq<u8>,
    first: Result<(), VerificationError>,
    second: Result<(), VerificationError>,
)
    requires
        first == verify_outcome(public_key, message, signature),
        second == verify_outcome(public_key, message, signature),
    ensures
        first == second,
{
}

} // verus!
