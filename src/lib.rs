//! Ed25519 message-authenticity checking: key material that signs raw
//! bytes, and a checker that accepts a message only with a signature made
//! over exactly those bytes by the matching private key.

mod primitives;

pub mod checker;
pub mod keys;

pub use checker::{decide, AuthenticityChecker, VerificationError};
pub use keys::{GenerationError, KeyMaterial, PublicKey, Signature};
pub use primitives::{PUBLIC_KEY_LEN, SIGNATURE_LEN};
