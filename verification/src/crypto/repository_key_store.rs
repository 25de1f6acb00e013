//! Records of protected repository content keys.

use vstd::prelude::*;
use crate::bytes::{
    array16, array32, copy_range, law_le32_round_trip, le32, le32_at, push_all, push_le32,
    read_le32, same_bytes,
};
use crate::crypto::aead::RepositoryKey;
use crate::crypto::primitives::{blake3_digest, blake3_of};
use crate::error::{answers, conflict, corrupt, invalid, MirageError, Refusal};
use crate::ids::RepositoryId;
use crate::text::{ascii, push_ascii};

verus! {

pub const HEADER_LENGTH: usize = 28;

/// The first eight bytes of a repository key record.
pub open spec fn repository_key_magic() -> Seq<u8> {
    ascii("MREPOK01"@)
}

/// A repository key record.
pub open spec fn repository_key_record(repository_id: Seq<u8>, protected: Seq<u8>) -> Seq<u8> {
    repository_key_magic() + repository_id + le32(protected.len() as u32) + protected
}

/// The context that binds a protected key to its repository.
pub open spec fn entropy_of(repository_id: Seq<u8>) -> Seq<u8> {
    blake3_digest(ascii("MirageSSD repository content key v1"@)) + repository_id
}

/// Why the identity of a record cannot be read, if it cannot.
pub open spec fn record_header_refusal(bytes: Seq<u8>) -> Refusal {
    if bytes.len() < HEADER_LENGTH || bytes.subrange(0, 8) != repository_key_magic() {
        corrupt("repository key record header is invalid"@)
    } else {
        None
    }
}

/// Why a record cannot be read for a repository, if it cannot.
pub open spec fn repository_key_refusal(bytes: Seq<u8>, expected: Seq<u8>) -> Refusal {
    if record_header_refusal(bytes) is Some {
        record_header_refusal(bytes)
    } else if bytes.subrange(8, 24) != expected {
        corrupt("repository key record belongs to a different repository"@)
    } else if le32_at(bytes, 24) != bytes.len() - HEADER_LENGTH {
        corrupt("repository key record length is invalid"@)
    } else {
        None
    }
}

proof fn lemma_magic_length()
    ensures
        repository_key_magic().len() == 8,
{
    reveal_strlit("MREPOK01");
}

/// Builds the record of a protected content key.
pub fn encode_repository_key(repository_id: RepositoryId, protected: &[u8]) -> (record: Result<
    Vec<u8>,
    MirageError,
>)
    ensures
        answers(
            record,
            if protected@.len() > u32::MAX {
                invalid("protected repository key is oversized"@)
            } else {
                None
            },
        ),
        record matches Ok(bytes) ==> bytes@ == repository_key_record(repository_id@, protected@),
{
    if protected.len() as u64 > u32::MAX as u64 {
        return Err(MirageError::invalid_argument("protected repository key is oversized"));
    }
    let mut record: Vec<u8> = Vec::new();
    push_ascii(&mut record, "MREPOK01");
    push_all(&mut record, repository_id.as_bytes());
    push_le32(&mut record, protected.len() as u32);
    push_all(&mut record, protected);
    assert(record@ == repository_key_record(repository_id@, protected@));
    Ok(record)
}

/// Reads which repository a record belongs to.
pub fn inspect_repository_key(bytes: &[u8]) -> (id: Result<RepositoryId, MirageError>)
    ensures
        answers(id, record_header_refusal(bytes@)),
        id matches Ok(id) ==> id@ == bytes@.subrange(8, 24),
{
    if bytes.len() < HEADER_LENGTH {
        return Err(MirageError::integrity_mismatch("repository key record header is invalid"));
    }
    let mut magic: Vec<u8> = Vec::new();
    push_ascii(&mut magic, "MREPOK01");
    assert(magic@ == repository_key_magic());
    if !same_bytes(copy_range(bytes, 0, 8).as_slice(), magic.as_slice()) {
        return Err(MirageError::integrity_mismatch("repository key record header is invalid"));
    }
    Ok(RepositoryId::from_bytes(array16(bytes, 8)))
}

/// Reads the protected key of a record that must belong to a repository.
pub fn parse_repository_key(bytes: &[u8], expected: RepositoryId) -> (protected: Result<
    Vec<u8>,
    MirageError,
>)
    ensures
        answers(protected, repository_key_refusal(bytes@, expected@)),
        protected matches Ok(protected) ==> protected@ == bytes@.subrange(28, bytes@.len() as int),
{
    let repository_id = inspect_repository_key(bytes)?;
    if !repository_id.same(&expected) {
        return Err(
            MirageError::integrity_mismatch(
                "repository key record belongs to a different repository",
            ),
        );
    }
    let length: u32 = read_le32(bytes, 24);
    if length as u64 != (bytes.len() - HEADER_LENGTH) as u64 {
        return Err(MirageError::integrity_mismatch("repository key record length is invalid"));
    }
    Ok(copy_range(bytes, HEADER_LENGTH, bytes.len()))
}

/// Makes a content key of an unprotected secret.
pub fn restore_repository_key(secret: &[u8]) -> (key: Result<RepositoryKey, MirageError>)
    ensures
        answers(
            key,
            if secret@.len() != 32 {
                corrupt("repository key length is invalid"@)
            } else {
                None
            },
        ),
        key matches Ok(key) ==> key@ == secret@,
{
    if secret.len() != 32 {
        return Err(MirageError::integrity_mismatch("repository key length is invalid"));
    }
    let raw: [u8; 32] = array32(secret, 0);
    assert(raw@ == secret@);
    Ok(RepositoryKey::from_bytes(raw))
}

/// The context that binds a protected key to its repository.
pub fn entropy(repository_id: RepositoryId) -> (value: Vec<u8>)
    ensures
        value@ == entropy_of(repository_id@),
        value@.len() == 48,
{
    let mut label: Vec<u8> = Vec::new();
    push_ascii(&mut label, "MirageSSD repository content key v1");
    assert(label@ == ascii("MirageSSD repository content key v1"@));
    let digest: [u8; 32] = blake3_of(label.as_slice());
    let mut value: Vec<u8> = Vec::new();
    push_all(&mut value, &digest);
    push_all(&mut value, repository_id.as_bytes());
    assert(value@ == entropy_of(repository_id@));
    value
}

/// Reading a record gives back what was written, and only for its own
/// repository.
pub proof fn law_repository_key_round_trip(
    repository_id: Seq<u8>,
    protected: Seq<u8>,
    other: Seq<u8>,
)
    requires
        repository_id.len() == 16,
        protected.len() <= u32::MAX,
    ensures
        record_header_refusal(repository_key_record(repository_id, protected)) is None,
        repository_key_record(repository_id, protected).subrange(8, 24) == repository_id,
        repository_key_refusal(repository_key_record(repository_id, protected), repository_id)
            is None,
        repository_key_record(repository_id, protected).subrange(
            28,
            repository_key_record(repository_id, protected).len() as int,
        ) == protected,
        other != repository_id ==> repository_key_refusal(
            repository_key_record(repository_id, protected),
            other,
        ) is Some,
{
    lemma_magic_length();
    let record = repository_key_record(repository_id, protected);
    assert(record.subrange(0, 8) == repository_key_magic());
    assert(record.subrange(8, 24) == repository_id);
    assert(record.subrange(24, 28) == le32(protected.len() as u32));
    law_le32_round_trip(record, 24, protected.len() as u32);
    assert(record.subrange(28, record.len() as int) == protected);
}

/// Two repositories never share a context.
pub proof fn law_entropy_is_repository_bound(one: Seq<u8>, other: Seq<u8>)
    requires
        entropy_of(one) == entropy_of(other),
    ensures
        one == other,
{
    let length = blake3_digest(ascii("MirageSSD repository content key v1"@)).len() as int;
    assert(entropy_of(one).skip(length) == one);
    assert(entropy_of(other).skip(length) == other);
}

/// Refuses to replace a record that is there already.
pub fn require_vacant(exists: bool) -> (verdict: Result<(), MirageError>)
    ensures
        answers(
            verdict,
            if exists {
                conflict("repository key record already exists"@)
            } else {
                None
            },
        ),
{
    if exists {
        return Err(MirageError::repository_conflict("repository key record already exists"));
    }
    Ok(())
}

} // verus!
