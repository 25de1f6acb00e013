//! Ed25519 commit signatures.

use vstd::prelude::*;
use crate::bytes::{array32, same_bytes};
use crate::crypto::key_id::{derive_key_id, key_id_of};
use crate::crypto::primitives::{
    draw_random, ed25519_accept, ed25519_accepts, ed25519_public, ed25519_public_of, ed25519_sign,
    ed25519_signature, ed25519_verifies, ed25519_verify, is_draw, wipe_buffer, wipe_key,
};
use crate::crypto::secret::SecretBytes;
use crate::error::{answers, broken, corrupt, invalid, MirageError, Refusal};

verus! {

/// How a commit is signed.
#[derive(Debug, Clone, Copy, PartialEq, Eq, Structural)]
pub enum SignatureAlgorithm {
    Ed25519,
    InMemoryTest,
}

/// A signature with the identity of the key that made it.
#[derive(Debug, Clone)]
pub struct SignatureEnvelope {
    pub algorithm: SignatureAlgorithm,
    pub key_id: [u8; 16],
    pub signature: Vec<u8>,
}

/// Holds the secret signing key of a repository.
pub struct RepositorySigner {
    secret: [u8; 32],
}

impl View for RepositorySigner {
    type V = Seq<u8>;

    closed spec fn view(&self) -> Seq<u8> {
        self.secret@
    }
}

/// Holds a public key that a signature can be checked against. Only a valid key
/// gets in.
#[derive(Clone, Copy)]
pub struct RepositoryVerifier {
    public: [u8; 32],
}

impl View for RepositoryVerifier {
    type V = Seq<u8>;

    closed spec fn view(&self) -> Seq<u8> {
        self.public@
    }
}

/// Why a signature on `body` is not accepted under `public`, if it is not.
pub open spec fn signature_refusal(
    public: Seq<u8>,
    body: Seq<u8>,
    algorithm: SignatureAlgorithm,
    key_id: Seq<u8>,
    signature: Seq<u8>,
) -> Refusal {
    if algorithm != SignatureAlgorithm::Ed25519 || key_id != key_id_of(public) {
        corrupt("commit signer is not trusted"@)
    } else if signature.len() != 64 {
        corrupt("invalid Ed25519 signature"@)
    } else if !ed25519_verifies(public, body, signature) {
        corrupt("commit signature verification failed"@)
    } else {
        None
    }
}

impl Drop for RepositorySigner {
    /// Wipes the secret: none is left in memory that is given back.
    fn drop(&mut self)
        ensures
            final(self)@ == Seq::new(32, |i: int| 0u8),
        opens_invariants none
        no_unwind
    {
        wipe_key(&mut self.secret);
    }
}

impl RepositorySigner {
    /// A signer whose secret is the 32 bytes of one draw of the operating system's
    /// randomness. It fails exactly where that draw does.
    pub fn generate() -> (signer: Result<RepositorySigner, MirageError>)
        ensures
            exists|draw: Result<Vec<u8>, getrandom::Error>|
                #[trigger] is_draw(32, draw) && match draw {
                    Ok(random) => random@.len() == 32 && signer is Ok && signer->Ok_0@ == random@,
                    Err(_) => answers(signer, broken("OS randomness unavailable"@)),
                },
    {
        let draw = draw_random(32);
        let ghost seen = draw;
        let signer = match draw {
            Ok(random) => {
                let mut random = random;
                let signer = RepositorySigner { secret: array32(random.as_slice(), 0) };
                wipe_buffer(&mut random);
                Ok(signer)
            },
            Err(_) => Err(MirageError::internal_invariant("OS randomness unavailable")),
        };
        proof {
            if let Ok(random) = seen {
                assert(random@.subrange(0, 32) == random@);
            }
            assert(is_draw(32, seen));
        }
        signer
    }

    pub fn from_secret(secret: &[u8]) -> (signer: Result<RepositorySigner, MirageError>)
        ensures
            answers(
                signer,
                if secret@.len() != 32 {
                    invalid("Ed25519 secret must be 32 bytes"@)
                } else {
                    None
                },
            ),
            signer matches Ok(signer) ==> signer@ == secret@,
    {
        if secret.len() != 32 {
            return Err(MirageError::invalid_argument("Ed25519 secret must be 32 bytes"));
        }
        let signer = RepositorySigner { secret: array32(secret, 0) };
        assert(signer@ == secret@);
        Ok(signer)
    }

    /// A copy of the secret, which is wiped when it goes out of scope.
    pub fn secret_bytes(&self) -> (bytes: SecretBytes)
        ensures
            bytes@ == self@,
    {
        SecretBytes::new(self.secret)
    }

    pub fn public_verifier(&self) -> (verifier: RepositoryVerifier)
        ensures
            verifier@ == ed25519_public(self@),
            ed25519_accepts(verifier@),
    {
        RepositoryVerifier { public: ed25519_public_of(&self.secret) }
    }

    pub fn algorithm(&self) -> (algorithm: SignatureAlgorithm)
        ensures
            algorithm == SignatureAlgorithm::Ed25519,
    {
        SignatureAlgorithm::Ed25519
    }

    pub fn key_id(&self) -> (id: [u8; 16])
        ensures
            id@ == key_id_of(ed25519_public(self@)),
    {
        let public: [u8; 32] = ed25519_public_of(&self.secret);
        derive_key_id(&public)
    }

    /// Signs a commit body. The signature is accepted by the signer's own
    /// verifier under the signer's key identity.
    pub fn sign(&self, body: &[u8]) -> (signature: Result<Vec<u8>, MirageError>)
        ensures
            signature is Ok,
            signature->Ok_0@ == ed25519_signature(self@, body@),
            signature->Ok_0@.len() == 64,
            signature_refusal(
                ed25519_public(self@),
                body@,
                SignatureAlgorithm::Ed25519,
                key_id_of(ed25519_public(self@)),
                signature->Ok_0@,
            ) is None,
    {
        let signature: [u8; 64] = self.sign_array(body);
        let mut out: Vec<u8> = Vec::new();
        crate::bytes::push_all(&mut out, &signature);
        assert(out@ == signature@);
        Ok(out)
    }

    /// Signs a body and gives the signature as a fixed-size array.
    pub fn sign_array(&self, body: &[u8]) -> (signature: [u8; 64])
        ensures
            signature@ == ed25519_signature(self@, body@),
            ed25519_verifies(ed25519_public(self@), body@, signature@),
    {
        ed25519_sign(&self.secret, body)
    }
}

impl RepositoryVerifier {
    #[verifier::type_invariant]
    closed spec fn well_formed(self) -> bool {
        ed25519_accepts(self.public@)
    }

    pub fn from_public_key(bytes: [u8; 32]) -> (verifier: Result<RepositoryVerifier, MirageError>)
        ensures
            answers(
                verifier,
                if ed25519_accepts(bytes@) {
                    None
                } else {
                    invalid("invalid Ed25519 public key"@)
                },
            ),
            verifier matches Ok(verifier) ==> verifier@ == bytes@,
    {
        match ed25519_accept(&bytes) {
            Ok(public) => Ok(RepositoryVerifier { public }),
            Err(_) => Err(MirageError::invalid_argument("invalid Ed25519 public key")),
        }
    }

    pub fn public_key(&self) -> (bytes: [u8; 32])
        ensures
            bytes@ == self@,
            ed25519_accepts(bytes@),
    {
        proof {
            use_type_invariant(self);
        }
        self.public
    }

    /// Checks a commit signature.
    pub fn verify(&self, body: &[u8], envelope: &SignatureEnvelope) -> (verdict: Result<
        (),
        MirageError,
    >)
        ensures
            answers(
                verdict,
                signature_refusal(
                    self@,
                    body@,
                    envelope.algorithm,
                    envelope.key_id@,
                    envelope.signature@,
                ),
            ),
    {
        let own_id: [u8; 16] = derive_key_id(&self.public);
        if envelope.algorithm != SignatureAlgorithm::Ed25519 || !same_bytes(
            &envelope.key_id,
            &own_id,
        ) {
            return Err(MirageError::integrity_mismatch("commit signer is not trusted"));
        }
        if envelope.signature.len() != 64 {
            return Err(MirageError::integrity_mismatch("invalid Ed25519 signature"));
        }
        let signature: [u8; 64] = array64(envelope.signature.as_slice());
        match ed25519_verify(&self.public, body, &signature) {
            Ok(_) => Ok(()),
            Err(_) => Err(MirageError::integrity_mismatch("commit signature verification failed")),
        }
    }
}

/// The 64 bytes of a slice of that length.
fn array64(bytes: &[u8]) -> (array: [u8; 64])
    requires
        bytes@.len() == 64,
    ensures
        array@ == bytes@,
{
    let mut array: [u8; 64] = [0u8; 64];
    for i in 0..64usize
        invariant
            bytes@.len() == 64,
            forall|j: int| 0 <= j < i ==> array@[j] == bytes@[j],
    {
        array[i] = bytes[i];
    }
    assert(array@ == bytes@);
    array
}

} // verus!
