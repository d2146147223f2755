//! The signing identity: an Ed25519 seed and its verification key.

use ed25519_dalek::SigningKey;
use rand::rngs::OsRng;
use vstd::prelude::*;

verus! {

/// Bytes of a private signing seed.
pub const SEED_LEN: usize = 32;

/// Bytes of a public verification key.
pub const PUBLIC_KEY_LEN: usize = 32;

/// The Ed25519 verification key that belongs to the signing seed `seed`.
pub uninterp spec fn ed25519_public_key(seed: Seq<u8>) -> Seq<u8>;

/// Trusted: `SigningKey::generate` of `ed25519_dalek` with `rand::rngs::OsRng`,
/// read back with `SigningKey::to_bytes`.
///
/// Nothing is claimed of the seed: every value of the array is a possible
/// outcome. The generator panics where the operating system gives it no
/// entropy, which this library treats as fatal.
#[verifier::external_body]
fn random_seed() -> (seed: [u8; 32]) {
    SigningKey::generate(&mut OsRng).to_bytes()
}

/// Trusted: `SigningKey::from_bytes` of `ed25519_dalek`, read with
/// `SigningKey::verifying_key` and `VerifyingKey::to_bytes`.
///
/// Claims that the verification key is a function of the seed alone.
#[verifier::external_body]
fn verifying_key_bytes(seed: &[u8; 32]) -> (public_key: [u8; 32])
    ensures
        public_key@ == ed25519_public_key(seed@),
{
    SigningKey::from_bytes(seed).verifying_key().to_bytes()
}

/// A signing keypair. The public half is always the verification key of
/// the private seed.
pub struct SigningIdentity {
    seed: [u8; 32],
    public_key: [u8; 32],
}

impl SigningIdentity {
    /// The private signing seed.
    pub closed spec fn spec_seed(&self) -> Seq<u8> {
        self.seed@
    }

    /// The public verification key.
    pub closed spec fn spec_public_key(&self) -> Seq<u8> {
        self.public_key@
    }

    /// The two halves belong together, and each is 32 bytes long. This holds
    /// of every identity.
    #[verifier::type_invariant]
    pub open spec fn well_formed(&self) -> bool {
        &&& self.spec_seed().len() == SEED_LEN
        &&& self.spec_public_key().len() == PUBLIC_KEY_LEN
        &&& self.spec_public_key() == ed25519_public_key(self.spec_seed())
    }

    /// The identity that belongs to a given seed.
    pub fn from_seed(seed: [u8; 32]) -> (identity: SigningIdentity)
        ensures
            identity.well_formed(),
            identity.spec_seed() == seed@,
    {
        let public_key = verifying_key_bytes(&seed);
        SigningIdentity { seed, public_key }
    }

    /// A fresh identity, its seed drawn from the operating system's random
    /// source.
    pub fn generate() -> (identity: SigningIdentity)
        ensures
            identity.well_formed(),
    {
        SigningIdentity::from_seed(random_seed())
    }

    /// The private signing seed.
    pub fn seed(&self) -> (seed: &[u8; 32])
        ensures
            seed@ == self.spec_seed(),
    {
        &self.seed
    }

    /// The public verification key.
    pub fn public_key(&self) -> (public_key: &[u8; 32])
        ensures
            public_key@ == self.spec_public_key(),
    {
        &self.public_key
    }
}

} // verus!
