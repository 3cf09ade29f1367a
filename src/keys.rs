//! Key material and the byte strings it exchanges: public keys and
//! signatures.

use vstd::prelude::*;

use aws_lc_rs::rand::SystemRandom;
use aws_lc_rs::signature::Ed25519KeyPair;

use aws_lc_rs::error::KeyRejected;
use aws_lc_rs::signature::KeyPair;

use crate::primitives::{
    ed25519_accepts, ed25519_public_key_of, ed25519_signature_of, generate_pkcs8, PUBLIC_KEY_LEN,
    SIGNATURE_LEN,
};

verus! {

/// The exportable half of a key pair: the raw public key bytes, as sent to
/// the parties that verify.
#[derive(Clone, Debug)]
pub struct PublicKey {
    bytes: Vec<u8>,
}

impl View for PublicKey {
    type V = Seq<u8>;

    closed spec fn view(&self) -> Seq<u8> {
        self.bytes@
    }
}

impl PublicKey {
    /// Wraps public key bytes received from another party. Nothing is
    /// checked here: a key of the wrong length is reported when it is used.
    pub fn from_bytes(bytes: Vec<u8>) -> (r: PublicKey)
        ensures
            r@ == bytes@,
    {
        PublicKey { bytes }
    }

    /// The key's bytes, for transport.
    pub fn as_bytes(&self) -> (r: &[u8])
        ensures
            r@ == self@,
    {
        self.bytes.as_slice()
    }
}

/// The bytes of a signature, as produced by `KeyMaterial::sign` or as
/// received from another party.
#[derive(Clone, Debug)]
pub struct Signature {
    bytes: Vec<u8>,
}

impl View for Signature {
    type V = Seq<u8>;

    closed spec fn view(&self) -> Seq<u8> {
        self.bytes@
    }
}

impl Signature {
    /// Wraps signature bytes received from another party.
    pub fn from_bytes(bytes: Vec<u8>) -> (r: Signature)
        ensures
            r@ == bytes@,
    {
        Signature { bytes }
    }

    /// The signature's bytes, for transport or verification.
    pub fn as_bytes(&self) -> (r: &[u8])
        ensures
            r@ == self@,
    {
        self.bytes.as_slice()
    }
}

/// `signature` is a valid Ed25519 signature of `message` under
/// `public_key`: it has the signature length and the primitive accepts it.
pub open spec fn is_signature_of(public_key: Seq<u8>, message: Seq<u8>, signature: Seq<u8>) -> bool {
    &&& signature.len() == SIGNATURE_LEN
    &&& ed25519_accepts(public_key, message, signature)
}

/// Key generation failed: the random source or the algorithm's setup
/// reported an error. No key material is produced.
#[derive(Clone, Copy, Debug, PartialEq, Eq)]
pub struct GenerationError;

/// A generated Ed25519 key pair. The private half never leaves it; its
/// view is the public key, held beside the pair it was taken from. Only
/// `key_material_from_pkcs8` builds one.
pub struct KeyMaterial {
    pair: Ed25519KeyPair,
    public_key: PublicKey,
    document: Ghost<Seq<u8>>,
}

impl View for KeyMaterial {
    type V = Seq<u8>;

    closed spec fn view(&self) -> Seq<u8> {
        self.public_key@
    }
}

impl KeyMaterial {
    #[verifier::type_invariant]
    spec fn inv(&self) -> bool {
        self.public_key@.len() == PUBLIC_KEY_LEN
    }

    /// The PKCS#8 document that the key pair was parsed from. It fixes both
    /// the public key and every signature.
    pub closed spec fn document(&self) -> Seq<u8> {
        self.document@
    }

    /// Generates a fresh key pair from the system's secure random source,
    /// by way of a PKCS#8 document. Fails with `GenerationError` when
    /// generation or parsing of the document fails; there is no fallback.
    pub fn generate() -> (r: Result<KeyMaterial, GenerationError>)
        ensures
            r matches Ok(k) ==> k@.len() == PUBLIC_KEY_LEN && k@ == ed25519_public_key_of(
                k.document(),
            ),
    {
        let rng = SystemRandom::new();
        let pkcs8 = match generate_pkcs8(&rng) {
            Ok(doc) => doc,
            Err(_) => return Err(GenerationError),
        };
        match key_material_from_pkcs8(pkcs8.as_slice()) {
            Ok(key) => Ok(key),
            Err(_) => Err(GenerationError),
        }
    }

    /// The public half, which any party may use to verify.
    pub fn public_key(&self) -> (r: PublicKey)
        ensures
            r@ == self@,
            r@.len() == PUBLIC_KEY_LEN,
    {
        proof {
            use_type_invariant(self);
        }
        let bytes = self.public_key.bytes.clone();
        assert(bytes@ =~= self.public_key.bytes@);
        PublicKey { bytes }
    }

    /// Signs the raw bytes of `message`, with no transformation of them.
    /// The result verifies against `message` under `self.public_key()`,
    /// and is the same on every call with the same message.
    pub fn sign(&self, message: &[u8]) -> (r: Signature)
        ensures
            is_signature_of(self@, message@, r@),
            r@ == ed25519_signature_of(self.document(), message@),
    {
        let bytes = sign_with(self, message);
        Signature { bytes }
    }
}

/// Relies on `Ed25519KeyPair::from_pkcs8`, which parses a PKCS#8 document
/// into a key pair or rejects it, and on that pair's `KeyPair::public_key`,
/// the raw public key derived from the private key (an array of
/// `PUBLIC_KEY_LEN` bytes). The key material holds the pair beside that key.
#[verifier::external_body]
fn key_material_from_pkcs8(pkcs8: &[u8]) -> (r: Result<KeyMaterial, KeyRejected>)
    ensures
        r matches Ok(k) ==> k@.len() == PUBLIC_KEY_LEN && k@ == ed25519_public_key_of(pkcs8@)
            && k.document() == pkcs8@,
{
    let pair = Ed25519KeyPair::from_pkcs8(pkcs8)?;
    let bytes = pair.public_key().as_ref().to_vec();
    Ok(KeyMaterial { pair, public_key: PublicKey { bytes }, document: Ghost(pkcs8@) })
}

/// Relies on `Ed25519KeyPair::sign`: the Ed25519 signature of `message`,
/// `SIGNATURE_LEN` bytes long. Ed25519 signing is deterministic, so it is
/// fixed by the key's document and the message, and verification accepts it
/// under the pair's own public key, which `key_material_from_pkcs8` stored
/// as `key@`.
#[verifier::external_body]
fn sign_with(key: &KeyMaterial, message: &[u8]) -> (r: Vec<u8>)
    ensures
        r@.len() == SIGNATURE_LEN,
        r@ == ed25519_signature_of(key.document(), message@),
        ed25519_accepts(key@, message@, r@),
{
    key.pair.sign(message).as_ref().to_vec()
}

} // verus!
