//! The Ed25519 primitives of aws-lc-rs that the library relies on. Each item
//! here is believed as stated; everything built on them is verified.

use vstd::prelude::*;

use aws_lc_rs::error::{KeyRejected, Unspecified};
use aws_lc_rs::rand::SystemRandom;
use aws_lc_rs::signature::{self, Ed25519KeyPair, UnparsedPublicKey};

verus! {

/// Length in bytes of a raw Ed25519 public key.
pub const PUBLIC_KEY_LEN: usize = 32;

/// Length in bytes of an Ed25519 signature.
pub const SIGNATURE_LEN: usize = 64;

#[verifier::external_type_specification]
#[verifier::external_body]
pub struct ExUnspecified(Unspecified);

#[verifier::external_type_specification]
#[verifier::external_body]
pub struct ExKeyRejected(KeyRejected);

#[verifier::external_type_specification]
#[verifier::external_body]
pub struct ExSystemRandom(SystemRandom);

#[verifier::external_type_specification]
#[verifier::external_body]
pub struct ExEd25519KeyPair(Ed25519KeyPair);

/// Whether Ed25519 verification accepts `signature` over `message` under the
/// raw public key `public_key`. This is a function of the three byte strings.
pub uninterp spec fn ed25519_accepts(
    public_key: Seq<u8>,
    message: Seq<u8>,
    signature: Seq<u8>,
) -> bool;

/// The raw public key of the Ed25519 key pair that the PKCS#8 document
/// `pkcs8` encodes: a function of the document.
pub uninterp spec fn ed25519_public_key_of(pkcs8: Seq<u8>) -> Seq<u8>;

/// The Ed25519 signature of `message` under the key pair that the PKCS#8
/// document `pkcs8` encodes. Ed25519 signing is deterministic, so this is a
/// function of the two byte strings.
pub uninterp spec fn ed25519_signature_of(pkcs8: Seq<u8>, message: Seq<u8>) -> Seq<u8>;

/// Relies on `SystemRandom::new`: a handle on the operating system's secure
/// random source. It holds no state and cannot fail.
pub assume_specification[ SystemRandom::new ]() -> SystemRandom;

/// Relies on `Ed25519KeyPair::generate_pkcs8`: a fresh key pair encoded as a
/// PKCS#8 document, or `Unspecified` when generation fails. Nothing is
/// promised of the bytes, which are random.
#[verifier::external_body]
pub(crate) fn generate_pkcs8(rng: &SystemRandom) -> (r: Result<Vec<u8>, Unspecified>) {
    Ed25519KeyPair::generate_pkcs8(rng).map(|doc| doc.as_ref().to_vec())
}

/// Relies on `UnparsedPublicKey::verify` with the `ED25519` algorithm: `Ok`
/// exactly when the signature is valid for the message under the key.
#[verifier::external_body]
pub(crate) fn ed25519_verify(
    public_key: &[u8],
    message: &[u8],
    signature: &[u8],
) -> (r: Result<(), Unspecified>)
    ensures
        r is Ok <==> ed25519_accepts(public_key@, message@, signature@),
{
    UnparsedPublicKey::new(&signature::ED25519, public_key).verify(message, signature)
}

} // verus!
