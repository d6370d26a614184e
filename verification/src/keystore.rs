//! The authority keystore: signing-key custody for a registry instance.
//!
//! The reference keying scheme derives the authority's key pair reproducibly
//! from the registry owner's account identifier, and resolves every account's
//! verification key to that same authority key. This is a deliberate
//! placeholder strategy (the "secret" is derivable from a public identifier);
//! the interface is identity-in, key-out, so a real key-management backend can
//! replace the derivation without touching the registry facade.

use vstd::prelude::*;
use crate::account::AccountId;

verus! {

/// The public key of the key pair that the signature scheme derives from a
/// 32-byte seed. The derivation is a pure function of the seed bytes.
pub uninterp spec fn authority_public_key(seed: Seq<u8>) -> Seq<u8>;

/// Whether the signature scheme accepts `signature` as a signature over
/// `message` by the holder of `public_key`. The decision is a pure function
/// of the three byte sequences.
pub uninterp spec fn signature_accepted(
    public_key: Seq<u8>,
    message: Seq<u8>,
    signature: Seq<u8>,
) -> bool;

/// A signature over a document's content bytes, produced by the authority
/// keystore at insertion time.
#[derive(Clone, Copy)]
pub struct Signature {
    bytes: [u8; 64],
}

impl View for Signature {
    type V = Seq<u8>;

    closed spec fn view(&self) -> Seq<u8> {
        self.bytes@
    }
}

impl Signature {
    /// The raw signature bytes.
    pub fn bytes(&self) -> (r: &[u8; 64])
        ensures
            r@ == self@,
    {
        &self.bytes
    }
}

/// Errors escalated by the registry. Key-material resolution failure is the
/// only hard failure: continuing without a signer key would corrupt the
/// binding between stored content and stored signature.
pub enum RegistryError {
    KeyDerivation,
}

/// Relies on schnorrkel's `MiniSecretKey::from_bytes` (any 32-byte slice is
/// accepted), `expand_to_keypair` (deterministic expansion of the seed), and
/// `Keypair::sign_simple`: every signature it produces is accepted by
/// `PublicKey::verify_simple` under the same context bytes, the derived
/// public key, and the signed message.
#[verifier::external_body]
fn sr_sign(seed: &[u8; 32], message: &Vec<u8>) -> (sig: [u8; 64])
    ensures
        signature_accepted(authority_public_key(seed@), message@, sig@),
{
    let mini = schnorrkel::MiniSecretKey::from_bytes(seed).unwrap();
    let keypair = mini.expand_to_keypair(schnorrkel::ExpansionMode::Ed25519);
    keypair.sign_simple(b"document-registry", message).to_bytes()
}

/// Relies on schnorrkel's `MiniSecretKey::from_bytes` and
/// `expand_to_keypair`: the public half of the key pair is a deterministic
/// function of the 32-byte seed.
#[verifier::external_body]
fn sr_public(seed: &[u8; 32]) -> (pk: [u8; 32])
    ensures
        pk@ == authority_public_key(seed@),
{
    let mini = schnorrkel::MiniSecretKey::from_bytes(seed).unwrap();
    mini.expand_to_keypair(schnorrkel::ExpansionMode::Ed25519).public.to_bytes()
}

/// Relies on schnorrkel's `PublicKey::from_bytes`, `Signature::from_bytes`
/// and `PublicKey::verify_simple`: verification is a deterministic function
/// of the key, message and signature bytes. Bytes that parse as no valid key
/// or signature are rejected, so the result is total over all inputs.
#[verifier::external_body]
fn sr_verify(public_key: &[u8; 32], message: &Vec<u8>, sig: &[u8; 64]) -> (r: bool)
    ensures
        r == signature_accepted(public_key@, message@, sig@),
{
    match (
        schnorrkel::PublicKey::from_bytes(public_key),
        schnorrkel::Signature::from_bytes(sig),
    ) {
        (Ok(pk), Ok(s)) => pk.verify_simple(b"document-registry", message, &s).is_ok(),
        _ => false,
    }
}

/// The verification key that the keystore resolves for `account` in a
/// registry owned by `owner`. The placeholder strategy vouches for every
/// account with the authority's own key; a per-account backend would replace
/// this single definition.
pub open spec fn resolved_public_key(owner: Seq<u8>, account: Seq<u8>) -> Seq<u8> {
    authority_public_key(owner)
}

/// Signs `message` with the key material derived for `owner`. Fails with
/// `KeyDerivationError` only when no key material is resolvable; the
/// reference derivation accepts every 32-byte identifier, so success is owed
/// on all inputs.
pub fn sign_message(owner: &AccountId, message: &Vec<u8>) -> (r: Result<
    Signature,
    RegistryError,
>)
    ensures
        r matches Ok(sig) && signature_accepted(authority_public_key(owner@), message@, sig@),
{
    let sig = sr_sign(owner.bytes(), message);
    Ok(Signature { bytes: sig })
}

/// Resolves the verification key for `account` in a registry owned by
/// `owner`.
pub fn public_key_of(owner: &AccountId, account: &AccountId) -> (pk: [u8; 32])
    ensures
        pk@ == resolved_public_key(owner@, account@),
{
    sr_public(owner.bytes())
}

/// Checks `sig` against `message` under `public_key`. A mismatch is a normal
/// outcome, reported as `false`, never as an error.
pub fn check_signature(public_key: &[u8; 32], message: &Vec<u8>, sig: &Signature) -> (r: bool)
    ensures
        r == signature_accepted(public_key@, message@, sig@),
{
    sr_verify(public_key, message, &sig.bytes)
}

} // verus!
