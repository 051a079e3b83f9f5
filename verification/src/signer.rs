//! Detached Ed25519 signatures over byte messages, with keys given as PEM
//! text. A [`Signer`] and a [`Verifier`] are built once, from key material
//! that has been checked, and are read-only afterwards.

use vstd::prelude::*;
use crate::error::{Error, ErrorView};

verus! {

/// Whether `pem` is a PKCS#8 private key that `SigningKey::from_pkcs8_pem`
/// accepts.
pub uninterp spec fn signing_key_valid(pem: Seq<char>) -> bool;

/// The signature that the private key in `pem` gives to `msg`. Ed25519 uses
/// no randomness, so key and message decide it.
pub uninterp spec fn ed25519_signature(pem: Seq<char>, msg: Seq<u8>) -> Seq<u8>;

/// Whether `pem` is a public key that `VerifyingKey::from_public_key_pem`
/// accepts.
pub uninterp spec fn verifying_key_valid(pem: Seq<char>) -> bool;

/// Whether strict verification under the public key in `pem` accepts the 64
/// bytes `sig` as a signature of `msg`.
pub uninterp spec fn ed25519_verifies(pem: Seq<char>, msg: Seq<u8>, sig: Seq<u8>) -> bool;

/// Whether `sig` passes as a signature of `msg` under the public key in
/// `pem`: the key is usable, the signature has its 64 bytes, and strict
/// verification accepts it. Nothing shorter, longer or partly matching passes.
pub open spec fn signature_accepted(pem: Seq<char>, msg: Seq<u8>, sig: Seq<u8>) -> bool {
    &&& verifying_key_valid(pem)
    &&& sig.len() == 64
    &&& ed25519_verifies(pem, msg, sig)
}

/// Whether the two PEM texts hold the two halves of one key pair: whatever
/// the private key signs, the public key accepts.
pub open spec fn key_pair(signing_pem: Seq<char>, verifying_pem: Seq<char>) -> bool {
    forall|msg: Seq<u8>|
        signature_accepted(verifying_pem, msg, #[trigger] ed25519_signature(signing_pem, msg))
}

/// Tries `SigningKey::from_pkcs8_pem` on the text and says whether it took it.
#[verifier::external_body]
fn parses_signing_key(pem: &str) -> (ok: bool)
    ensures
        ok == signing_key_valid(pem@),
{
    <ed25519_dalek::SigningKey as ed25519_dalek::pkcs8::DecodePrivateKey>::from_pkcs8_pem(pem).is_ok()
}

/// Parses the key as above and signs `msg` with `SigningKey::sign`, which
/// returns the 64 bytes of the signature. Where the key does not parse,
/// the parser's message comes back instead.
#[verifier::external_body]
fn sign_with_pem(pem: &str, msg: &[u8]) -> (sig: Result<Vec<u8>, String>)
    ensures
        sig is Ok <==> signing_key_valid(pem@),
        sig matches Ok(s) ==> s@ == ed25519_signature(pem@, msg@) && s@.len() == 64,
{
    match <ed25519_dalek::SigningKey as ed25519_dalek::pkcs8::DecodePrivateKey>::from_pkcs8_pem(pem) {
        Ok(key) => Ok(ed25519_dalek::Signer::sign(&key, msg).to_vec()),
        Err(err) => Err(err.to_string()),
    }
}

/// Tries `VerifyingKey::from_public_key_pem` on the text and says whether it
/// took it.
#[verifier::external_body]
fn parses_verifying_key(pem: &str) -> (ok: bool)
    ensures
        ok == verifying_key_valid(pem@),
{
    <ed25519_dalek::VerifyingKey as ed25519_dalek::pkcs8::DecodePublicKey>::from_public_key_pem(pem).is_ok()
}

/// Parses the key as above, reads `sig` with `Signature::try_from`, which
/// takes exactly 64 bytes, and checks it with `VerifyingKey::verify_strict`.
/// Any of the three failing gives `false`.
#[verifier::external_body]
fn verify_with_pem(pem: &str, msg: &[u8], sig: &[u8]) -> (ok: bool)
    ensures
        ok == (verifying_key_valid(pem@) && sig@.len() == 64 && ed25519_verifies(
            pem@,
            msg@,
            sig@,
        )),
{
    match <ed25519_dalek::VerifyingKey as ed25519_dalek::pkcs8::DecodePublicKey>::from_public_key_pem(pem) {
        Ok(key) => match ed25519_dalek::Signature::try_from(sig) {
            Ok(signature) => key.verify_strict(msg, &signature).is_ok(),
            Err(_) => false,
        },
        Err(_) => false,
    }
}

/// Signs messages with one private key.
pub struct Signer {
    pem: String,
}

impl View for Signer {
    type V = Seq<char>;

    /// The PEM text of the private key.
    closed spec fn view(&self) -> Seq<char> {
        self.pem@
    }
}

impl Signer {
    #[verifier::type_invariant]
    spec fn key_is_valid(self) -> bool {
        signing_key_valid(self.pem@)
    }

    /// A signer for the private key in `pem`, or an internal error if the
    /// text is not a usable key.
    pub fn new(pem: String) -> (made: Result<Signer, Error>)
        ensures
            made is Ok <==> signing_key_valid(pem@),
            made matches Ok(signer) ==> signer@ == pem@,
            made matches Err(e) ==> e@ == (ErrorView::Internal {
                message: "invalid signing key pem"@,
            }),
    {
        if parses_signing_key(pem.as_str()) {
            Ok(Signer { pem })
        } else {
            Err(Error::internal("invalid signing key pem".to_owned()))
        }
    }

    /// The signature of `msg`: 64 bytes, decided by the key and the message.
    /// A signer's key was checked when it was made, so this never fails.
    pub fn sign(&self, msg: &[u8]) -> (signed: Result<Vec<u8>, Error>)
        ensures
            signed matches Ok(sig) && sig@ == ed25519_signature(self@, msg@) && sig@.len() == 64,
    {
        proof {
            use_type_invariant(self);
        }
        match sign_with_pem(self.pem.as_str(), msg) {
            Ok(sig) => Ok(sig),
            Err(text) => Err(Error::internal(text)),
        }
    }
}

/// Checks signatures against one public key.
pub struct Verifier {
    pem: String,
}

impl View for Verifier {
    type V = Seq<char>;

    /// The PEM text of the public key.
    closed spec fn view(&self) -> Seq<char> {
        self.pem@
    }
}

impl Verifier {
    #[verifier::type_invariant]
    spec fn key_is_valid(self) -> bool {
        verifying_key_valid(self.pem@)
    }

    /// A verifier for the public key in `pem`, or an internal error if the
    /// text is not a usable key.
    pub fn new(pem: String) -> (made: Result<Verifier, Error>)
        ensures
            made is Ok <==> verifying_key_valid(pem@),
            made matches Ok(verifier) ==> verifier@ == pem@,
            made matches Err(e) ==> e@ == (ErrorView::Internal {
                message: "invalid public key pem"@,
            }),
    {
        if parses_verifying_key(pem.as_str()) {
            Ok(Verifier { pem })
        } else {
            Err(Error::internal("invalid public key pem".to_owned()))
        }
    }

    /// `Ok` exactly when `sig` is a signature of `msg` under this key; any
    /// other signature is a bad one and gives the same internal error.
    pub fn verify(&self, msg: &[u8], sig: &[u8]) -> (checked: Result<(), Error>)
        ensures
            checked is Ok <==> signature_accepted(self@, msg@, sig@),
            checked matches Err(e) ==> e@ == (ErrorView::Internal { message: "signature error"@ }),
    {
        if verify_with_pem(self.pem.as_str(), msg, sig) {
            Ok(())
        } else {
            Err(Error::internal("signature error".to_owned()))
        }
    }
}

} // verus!
