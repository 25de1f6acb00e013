//! Records of protected signing keys.

use vstd::prelude::*;
use crate::bytes::{
    array32, copy_range, law_le32_round_trip, le32, le32_at, push_all, push_le32, read_le32,
    same_bytes,
};
use crate::crypto::primitives::{ed25519_accepts, ed25519_public};
use crate::crypto::signing::{RepositorySigner, RepositoryVerifier};
use crate::error::{answers, conflict, corrupt, invalid, MirageError, Refusal};
use crate::text::{ascii, push_ascii};

verus! {

/// A parsed key record: the public key and the protected secret.
#[derive(Debug)]
pub struct SignerRecord {
    pub public: [u8; 32],
    pub protected: Vec<u8>,
}

/// The first eight bytes of a key record.
pub open spec fn key_magic() -> Seq<u8> {
    ascii("MKEYv001"@)
}

/// A key record.
pub open spec fn key_record(public: Seq<u8>, protected: Seq<u8>) -> Seq<u8> {
    key_magic() + public + le32(protected.len() as u32) + protected
}

/// Why a key record cannot be read, if it cannot.
pub open spec fn key_record_refusal(bytes: Seq<u8>) -> Refusal {
    if bytes.len() < 44 || bytes.subrange(0, 8) != key_magic() {
        corrupt("key record header is invalid"@)
    } else if le32_at(bytes, 40) != bytes.len() - 44 {
        corrupt("key record length is invalid"@)
    } else {
        None
    }
}

/// Why a key record gives no trust root, if it gives none.
pub open spec fn trust_root_refusal(bytes: Seq<u8>) -> Refusal {
    if bytes.len() < 40 || bytes.subrange(0, 8) != key_magic() {
        corrupt("key trust record is invalid"@)
    } else if !ed25519_accepts(bytes.subrange(8, 40)) {
        invalid("invalid Ed25519 public key"@)
    } else {
        None
    }
}

proof fn lemma_key_magic_length()
    ensures
        key_magic().len() == 8,
{
    reveal_strlit("MKEYv001");
}

/// Builds the record of a protected key.
pub fn encode_signer_record(public: &[u8; 32], protected: &[u8]) -> (record: Result<
    Vec<u8>,
    MirageError,
>)
    ensures
        answers(
            record,
            if protected@.len() > u32::MAX {
                invalid("protected key is oversized"@)
            } else {
                None
            },
        ),
        record matches Ok(bytes) ==> bytes@ == key_record(public@, protected@),
{
    if protected.len() as u64 > u32::MAX as u64 {
        return Err(MirageError::invalid_argument("protected key is oversized"));
    }
    let mut record: Vec<u8> = Vec::new();
    push_ascii(&mut record, "MKEYv001");
    push_all(&mut record, public);
    push_le32(&mut record, protected.len() as u32);
    push_all(&mut record, protected);
    assert(record@ == key_record(public@, protected@));
    Ok(record)
}

fn starts_as_record(bytes: &[u8]) -> (yes: bool)
    requires
        bytes@.len() >= 8,
    ensures
        yes == (bytes@.subrange(0, 8) == key_magic()),
{
    let mut magic: Vec<u8> = Vec::new();
    push_ascii(&mut magic, "MKEYv001");
    assert(magic@ == key_magic());
    same_bytes(copy_range(bytes, 0, 8).as_slice(), magic.as_slice())
}

/// Reads the record of a protected key.
pub fn parse_signer_record(bytes: &[u8]) -> (record: Result<SignerRecord, MirageError>)
    ensures
        answers(record, key_record_refusal(bytes@)),
        record matches Ok(record) ==> {
            &&& record.public@ == bytes@.subrange(8, 40)
            &&& record.protected@ == bytes@.subrange(44, bytes@.len() as int)
        },
{
    if bytes.len() < 44 {
        return Err(MirageError::integrity_mismatch("key record header is invalid"));
    }
    if !starts_as_record(bytes) {
        return Err(MirageError::integrity_mismatch("key record header is invalid"));
    }
    let length: u32 = read_le32(bytes, 40);
    if length as u64 != (bytes.len() - 44) as u64 {
        return Err(MirageError::integrity_mismatch("key record length is invalid"));
    }
    Ok(SignerRecord { public: array32(bytes, 8), protected: copy_range(bytes, 44, bytes.len()) })
}

/// Restores the signer of a record from its unprotected secret.
pub fn restore_signer(record: &SignerRecord, secret: &[u8]) -> (signer: Result<
    RepositorySigner,
    MirageError,
>)
    ensures
        answers(
            signer,
            if secret@.len() != 32 {
                invalid("Ed25519 secret must be 32 bytes"@)
            } else if ed25519_public(secret@) != record.public@ {
                corrupt("protected key does not match trust record"@)
            } else {
                None
            },
        ),
        signer matches Ok(signer) ==> signer@ == secret@,
{
    let signer = RepositorySigner::from_secret(secret)?;
    let public: [u8; 32] = signer.public_verifier().public_key();
    if !same_bytes(&public, &record.public) {
        return Err(MirageError::integrity_mismatch("protected key does not match trust record"));
    }
    Ok(signer)
}

/// Reads the public key of a record.
pub fn parse_trust_root(bytes: &[u8]) -> (root: Result<RepositoryVerifier, MirageError>)
    ensures
        answers(root, trust_root_refusal(bytes@)),
        root matches Ok(root) ==> root@ == bytes@.subrange(8, 40),
{
    if bytes.len() < 40 {
        return Err(MirageError::integrity_mismatch("key trust record is invalid"));
    }
    if !starts_as_record(bytes) {
        return Err(MirageError::integrity_mismatch("key trust record is invalid"));
    }
    RepositoryVerifier::from_public_key(array32(bytes, 8))
}

/// Reading a record gives back what was written, and the trust root of the
/// record is its public key.
pub proof fn law_key_record_round_trip(public: Seq<u8>, protected: Seq<u8>)
    requires
        public.len() == 32,
        protected.len() <= u32::MAX,
    ensures
        key_record_refusal(key_record(public, protected)) is None,
        key_record(public, protected).subrange(8, 40) == public,
        key_record(public, protected).subrange(
            44,
            key_record(public, protected).len() as int,
        ) == protected,
        ed25519_accepts(public) ==> trust_root_refusal(key_record(public, protected)) is None,
{
    lemma_key_magic_length();
    let record = key_record(public, protected);
    assert(record.subrange(0, 8) == key_magic());
    assert(record.subrange(8, 40) == public);
    assert(record.subrange(40, 44) == le32(protected.len() as u32));
    law_le32_round_trip(record, 40, protected.len() as u32);
    assert(record.subrange(44, record.len() as int) == protected);
}

/// A record that was cut short is refused.
pub proof fn law_truncated_key_record_is_refused(bytes: Seq<u8>, length: int)
    requires
        key_record_refusal(bytes) is None,
        0 <= length < bytes.len(),
    ensures
        key_record_refusal(bytes.take(length)) is Some,
{
    let cut = bytes.take(length);
    if length >= 44 {
        assert(le32_at(cut, 40) == le32_at(bytes, 40));
    }
}

/// Refuses to replace a record that is there already.
pub fn require_vacant(exists: bool) -> (verdict: Result<(), MirageError>)
    ensures
        answers(
            verdict,
            if exists {
                conflict("key record already exists"@)
            } else {
                None
            },
        ),
{
    if exists {
        return Err(MirageError::repository_conflict("key record already exists"));
    }
    Ok(())
}

} // verus!
