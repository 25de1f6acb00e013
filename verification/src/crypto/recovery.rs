//! Portable recovery material: protected signer records, signed key
//! transitions and recovery envelopes.
//!
//! A recovery envelope moves the secrets needed to read an encrypted
//! repository onto another machine: the repository content key and,
//! optionally, the commit signer secret. Everything but the sealed payload is
//! plaintext metadata; the payload is encrypted under a key derived from a
//! user-held recovery secret. The whole header is authenticated, so a tampered
//! or mismatched envelope fails rather than recovering the wrong key.
//!
//! Recovering the content key restores read access to repository bytes. It
//! does not confer authority to resume the old writer lineage.

use vstd::prelude::*;
use crate::bytes::{
    array16, array24, array32, copy_range, le16, le16_at, le32, le32_at, le64, push_all, push_le16,
    push_le32, push_le64, read_le16, read_le32, same_bytes, law_le16_round_trip,
    law_le32_round_trip, law_le64_is_injective,
};
use crate::crypto::aead::RepositoryKey;
use crate::crypto::key_id::key_id_of;
use crate::crypto::primitives::{
    argon2_default, argon2_default_derived, argon2id, argon2id_derived, draw_random,
    ed25519_accepts, ed25519_public, ed25519_signature, ed25519_verifies, is_draw, xchacha_open,
    xchacha_opened, xchacha_seal, xchacha_sealed,
};
use crate::crypto::secret::{SecretBuffer, SecretBytes};
use crate::crypto::signing::{
    signature_refusal, RepositorySigner, RepositoryVerifier, SignatureAlgorithm, SignatureEnvelope,
};
use crate::error::{answers, broken, corrupt, invalid, unsupported, MirageError, Refusal};
use crate::ids::RepositoryId;
use crate::text::{ascii, push_ascii};

verus! {

pub const ENVELOPE_VERSION: u16 = 1;

pub const KDF_ARGON2ID: u8 = 1;

pub const ENVELOPE_HEADER_LENGTH: usize = 116;

pub const MAX_ENVELOPE_LENGTH: usize = 4096;

pub const MIN_SECRET_LENGTH: usize = 12;

pub const MAX_SECRET_LENGTH: usize = 4096;

// ---------------------------------------------------------------------------
// Signer records
// ---------------------------------------------------------------------------

/// The first eight bytes of a signer record.
pub open spec fn signer_magic() -> Seq<u8> {
    ascii("MREKv001"@)
}

/// A signer record: the public key in the clear, and the secret sealed under a
/// key derived from the recovery secret.
pub open spec fn signer_record(
    signer: Seq<u8>,
    recovery_secret: Seq<u8>,
    salt: Seq<u8>,
    nonce: Seq<u8>,
) -> Seq<u8> {
    signer_magic() + ed25519_public(signer) + salt + nonce + xchacha_sealed(
        argon2_default_derived(recovery_secret, salt),
        nonce,
        signer,
        ed25519_public(signer),
    )
}

/// What the sealed part of a signer record decrypts to.
pub open spec fn signer_record_secret(bytes: Seq<u8>, recovery_secret: Seq<u8>) -> Option<Seq<u8>> {
    xchacha_opened(
        argon2_default_derived(recovery_secret, bytes.subrange(40, 56)),
        bytes.subrange(56, 80),
        bytes.subrange(80, 128),
        bytes.subrange(8, 40),
    )
}

/// Why a signer record does not give its signer back, if it does not.
pub open spec fn signer_record_refusal(bytes: Seq<u8>, recovery_secret: Seq<u8>) -> Refusal {
    if bytes.len() != 128 || bytes.subrange(0, 8) != signer_magic() {
        corrupt("recovery key record is invalid"@)
    } else if recovery_secret.len() > 0xffff_ffff {
        broken("recovery key derivation failed"@)
    } else {
        match signer_record_secret(bytes, recovery_secret) {
            None => corrupt("recovery secret or key record is invalid"@),
            Some(secret) => if ed25519_public(secret) != bytes.subrange(8, 40) {
                corrupt("recovered key does not match trust root"@)
            } else {
                None
            },
        }
    }
}

proof fn lemma_signer_magic_length()
    ensures
        signer_magic().len() == 8,
{
    reveal_strlit("MREKv001");
}

/// Builds a signer record under a given salt and nonce.
pub fn seal_signer(
    signer: &RepositorySigner,
    recovery_secret: &[u8],
    salt: &[u8; 16],
    nonce: &[u8; 24],
) -> (record: Result<Vec<u8>, MirageError>)
    ensures
        answers(
            record,
            if recovery_secret@.len() < MIN_SECRET_LENGTH {
                invalid("recovery secret must contain at least 12 bytes"@)
            } else if recovery_secret@.len() > 0xffff_ffff {
                broken("recovery key derivation failed"@)
            } else {
                None
            },
        ),
        record matches Ok(bytes) ==> {
            &&& bytes@ == signer_record(signer@, recovery_secret@, salt@, nonce@)
            &&& bytes@.len() == 128
            &&& signer_record_refusal(bytes@, recovery_secret@) is None
            &&& signer_record_secret(bytes@, recovery_secret@) == Some(signer@)
        },
{
    if recovery_secret.len() < MIN_SECRET_LENGTH {
        return Err(
            MirageError::invalid_argument("recovery secret must contain at least 12 bytes"),
        );
    }
    let public: [u8; 32] = signer.public_verifier().public_key();
    let key = match argon2_default(recovery_secret, salt) {
        Ok(key) => SecretBytes::new(key),
        Err(_) => {
            return Err(MirageError::internal_invariant("recovery key derivation failed"));
        },
    };
    let secret = signer.secret_bytes();
    let sealed = xchacha_seal(key.as_bytes(), nonce, secret.as_bytes(), &public);
    let ciphertext = match sealed {
        Ok(ciphertext) => ciphertext,
        Err(_) => {
            return Err(MirageError::internal_invariant("recovery export encryption failed"));
        },
    };
    let mut out: Vec<u8> = Vec::new();
    push_ascii(&mut out, "MREKv001");
    push_all(&mut out, &public);
    push_all(&mut out, salt);
    push_all(&mut out, nonce);
    push_all(&mut out, ciphertext.as_slice());
    proof {
        lemma_signer_magic_length();
        assert(out@ == signer_record(signer@, recovery_secret@, salt@, nonce@));
        assert(out@.subrange(0, 8) == signer_magic());
        assert(out@.subrange(8, 40) == public@);
        assert(out@.subrange(40, 56) == salt@);
        assert(out@.subrange(56, 80) == nonce@);
        assert(out@.subrange(80, 128) == ciphertext@);
    }
    Ok(out)
}

/// What the export of a signer comes to, given what the draw of its salt came
/// back with. Without a salt there is none; otherwise the nonce is drawn, and
/// without a nonce there is none either.
pub open spec fn signer_export(
    record: Result<Vec<u8>, MirageError>,
    secret: Seq<u8>,
    recovery_secret: Seq<u8>,
    salt: Result<Vec<u8>, getrandom::Error>,
) -> bool {
    match salt {
        Err(_) => answers(record, broken("OS randomness unavailable"@)),
        Ok(salt) => exists|nonce: Result<Vec<u8>, getrandom::Error>|
            #[trigger] is_draw(24, nonce) && match nonce {
                Err(_) => answers(record, broken("OS randomness unavailable"@)),
                Ok(nonce) => if recovery_secret.len() > 0xffff_ffff {
                    answers(record, broken("recovery key derivation failed"@))
                } else {
                    record is Ok && record->Ok_0@ == signer_record(
                        secret,
                        recovery_secret,
                        salt@,
                        nonce@,
                    )
                },
            },
    }
}

/// Exports a signer under a recovery secret, with a salt of the 16 bytes of one
/// draw of the operating system's randomness and a nonce of the 24 of another.
/// `import_signer` with the same secret gives the signer back.
pub fn export_signer(signer: &RepositorySigner, recovery_secret: &[u8]) -> (record: Result<
    Vec<u8>,
    MirageError,
>)
    ensures
        if recovery_secret@.len() < MIN_SECRET_LENGTH {
            answers(record, invalid("recovery secret must contain at least 12 bytes"@))
        } else {
            exists|salt: Result<Vec<u8>, getrandom::Error>| #[trigger]
                is_draw(16, salt) && signer_export(record, signer@, recovery_secret@, salt)
        },
        record matches Ok(bytes) ==> {
            &&& bytes@.len() == 128
            &&& signer_record_refusal(bytes@, recovery_secret@) is None
            &&& signer_record_secret(bytes@, recovery_secret@) == Some(signer@)
        },
{
    if recovery_secret.len() < MIN_SECRET_LENGTH {
        return Err(
            MirageError::invalid_argument("recovery secret must contain at least 12 bytes"),
        );
    }
    let drawn_salt = draw_random(16);
    let ghost salt_draw = drawn_salt;
    assert(is_draw(16, salt_draw));
    let salt: [u8; 16] = match &drawn_salt {
        Ok(random) => array16(random.as_slice(), 0),
        Err(_) => {
            return Err(MirageError::internal_invariant("OS randomness unavailable"));
        },
    };
    let drawn_nonce = draw_random(24);
    let ghost nonce_draw = drawn_nonce;
    assert(is_draw(24, nonce_draw));
    let nonce: [u8; 24] = match &drawn_nonce {
        Ok(random) => array24(random.as_slice(), 0),
        Err(_) => {
            return Err(MirageError::internal_invariant("OS randomness unavailable"));
        },
    };
    proof {
        assert(salt@ == salt_draw->Ok_0@);
        assert(nonce@ == nonce_draw->Ok_0@);
    }
    seal_signer(signer, recovery_secret, &salt, &nonce)
}

/// Restores a signer from its record.
pub fn import_signer(bytes: &[u8], recovery_secret: &[u8]) -> (signer: Result<
    RepositorySigner,
    MirageError,
>)
    ensures
        answers(signer, signer_record_refusal(bytes@, recovery_secret@)),
        signer matches Ok(signer) ==> Some(signer@) == signer_record_secret(
            bytes@,
            recovery_secret@,
        ),
{
    let mut magic: Vec<u8> = Vec::new();
    push_ascii(&mut magic, "MREKv001");
    assert(magic@ == signer_magic());
    if bytes.len() != 128 {
        return Err(MirageError::integrity_mismatch("recovery key record is invalid"));
    }
    if !same_bytes(copy_range(bytes, 0, 8).as_slice(), magic.as_slice()) {
        return Err(MirageError::integrity_mismatch("recovery key record is invalid"));
    }
    let public: [u8; 32] = array32(bytes, 8);
    let salt: [u8; 16] = array16(bytes, 40);
    let nonce: [u8; 24] = array24(bytes, 56);
    let sealed = copy_range(bytes, 80, 128);
    let key = match argon2_default(recovery_secret, &salt) {
        Ok(key) => SecretBytes::new(key),
        Err(_) => {
            return Err(MirageError::internal_invariant("recovery key derivation failed"));
        },
    };
    let secret = match xchacha_open(key.as_bytes(), &nonce, sealed.as_slice(), &public) {
        Ok(secret) => SecretBuffer::new(secret),
        Err(_) => {
            return Err(
                MirageError::integrity_mismatch("recovery secret or key record is invalid"),
            );
        },
    };
    let signer = RepositorySigner::from_secret(secret.as_slice())?;
    let own_public: [u8; 32] = signer.public_verifier().public_key();
    if !same_bytes(&own_public, &public) {
        return Err(MirageError::integrity_mismatch("recovered key does not match trust root"));
    }
    Ok(signer)
}

// ---------------------------------------------------------------------------
// Key transitions
// ---------------------------------------------------------------------------

/// A statement, signed by the previous key, that a new key takes over.
#[derive(Debug, Clone, PartialEq, Eq)]
pub struct KeyTransition {
    pub sequence: u64,
    pub previous_key_id: [u8; 16],
    pub new_public_key: [u8; 32],
    pub signature: [u8; 64],
}

/// The bytes that the previous key signs.
pub open spec fn transition_text(sequence: u64, previous_key_id: Seq<u8>, new_public_key: Seq<u8>) -> Seq<
    u8,
> {
    ascii("MirageSSD key transition v1\0"@) + le64(sequence) + previous_key_id + new_public_key
}

/// Why a transition is not accepted from the holder of `old_public`, if it is
/// not.
pub open spec fn transition_refusal(
    sequence: u64,
    previous_key_id: Seq<u8>,
    new_public_key: Seq<u8>,
    signature: Seq<u8>,
    old_public: Seq<u8>,
) -> Refusal {
    match signature_refusal(
        old_public,
        transition_text(sequence, previous_key_id, new_public_key),
        SignatureAlgorithm::Ed25519,
        previous_key_id,
        signature,
    ) {
        Some(refusal) => Some(refusal),
        None => if ed25519_accepts(new_public_key) {
            None
        } else {
            invalid("invalid Ed25519 public key"@)
        },
    }
}

/// Whether a transition hands the signing authority of the secret `old` over to
/// the public key `new`: it names both, and is signed by `old`.
pub open spec fn hands_over(
    transition: KeyTransition,
    sequence: u64,
    old: Seq<u8>,
    new: Seq<u8>,
) -> bool {
    let text = transition_text(sequence, key_id_of(ed25519_public(old)), new);
    &&& transition.sequence == sequence
    &&& transition.previous_key_id@ == key_id_of(ed25519_public(old))
    &&& transition.new_public_key@ == new
    &&& transition.signature@ == ed25519_signature(old, text)
    &&& ed25519_verifies(ed25519_public(old), text, transition.signature@)
    &&& ed25519_accepts(new)
}

/// Why a transition is not accepted from the holder of `old_public`, if it is
/// not.
pub open spec fn refusal_of(transition: KeyTransition, old_public: Seq<u8>) -> Refusal {
    transition_refusal(
        transition.sequence,
        transition.previous_key_id@,
        transition.new_public_key@,
        transition.signature@,
        old_public,
    )
}

/// The bytes that the previous key signs.
pub fn transition_body(sequence: u64, old: [u8; 16], new: [u8; 32]) -> (body: Vec<u8>)
    ensures
        body@ == transition_text(sequence, old@, new@),
{
    let mut body: Vec<u8> = Vec::new();
    push_ascii(&mut body, "MirageSSD key transition v1\0");
    push_le64(&mut body, sequence);
    push_all(&mut body, &old);
    push_all(&mut body, &new);
    body
}

impl KeyTransition {
    /// Hands the signing authority of `old` over to `new`. `verify` with the
    /// verifier of `old` accepts every transition that is created and gives the
    /// verifier of the new key.
    pub fn create(sequence: u64, old: &RepositorySigner, new: &RepositoryVerifier) -> (transition:
        Result<KeyTransition, MirageError>)
        ensures
            transition is Ok,
            hands_over(transition->Ok_0, sequence, old@, new@),
            refusal_of(transition->Ok_0, ed25519_public(old@)) is None,
    {
        let previous_key_id: [u8; 16] = old.key_id();
        let new_public_key: [u8; 32] = new.public_key();
        let body = transition_body(sequence, previous_key_id, new_public_key);
        let signature: [u8; 64] = old.sign_array(body.as_slice());
        Ok(KeyTransition { sequence, previous_key_id, new_public_key, signature })
    }

    /// Checks the transition against the previous key and gives the verifier of
    /// the new key.
    pub fn verify(&self, old: &RepositoryVerifier) -> (verifier: Result<
        RepositoryVerifier,
        MirageError,
    >)
        ensures
            answers(verifier, refusal_of(*self, old@)),
            verifier matches Ok(verifier) ==> verifier@ == self.new_public_key@,
    {
        let mut signature: Vec<u8> = Vec::new();
        push_all(&mut signature, &self.signature);
        assert(signature@ == self.signature@);
        let envelope = SignatureEnvelope {
            algorithm: SignatureAlgorithm::Ed25519,
            key_id: self.previous_key_id,
            signature,
        };
        let body = transition_body(self.sequence, self.previous_key_id, self.new_public_key);
        match old.verify(body.as_slice(), &envelope) {
            Err(error) => Err(error),
            Ok(_) => RepositoryVerifier::from_public_key(self.new_public_key),
        }
    }
}

// ---------------------------------------------------------------------------
// Recovery envelopes
// ---------------------------------------------------------------------------

/// KDF parameters recorded in the envelope so later versions can strengthen
/// them without breaking existing envelopes.
#[derive(Debug, Clone, Copy, PartialEq, Eq, Structural)]
pub struct KdfParameters {
    pub memory_kib: u32,
    pub iterations: u32,
    pub lanes: u8,
}

/// The parameters of a new envelope: 64 MiB, three passes, one lane.
pub open spec fn default_kdf() -> KdfParameters {
    KdfParameters { memory_kib: 65536, iterations: 3, lanes: 1 }
}

impl Default for KdfParameters {
    fn default() -> (parameters: KdfParameters)
        ensures
            parameters == default_kdf(),
    {
        KdfParameters { memory_kib: 65536, iterations: 3, lanes: 1 }
    }
}

/// What an envelope can restore. `Complete` means content decryption plus
/// optional signing authority; `SignerOnly` covers trust history but cannot
/// recover encrypted content.
#[derive(Debug, Clone, Copy, PartialEq, Eq, Structural)]
pub enum EnvelopeKind {
    Complete,
    SignerOnly,
    Empty,
}

/// Public metadata of a recovery envelope, readable without the secret.
#[derive(Debug, Clone, PartialEq, Eq)]
pub struct EnvelopeInspection {
    pub repository_id: RepositoryId,
    pub kind: EnvelopeKind,
    pub has_content_key: bool,
    pub has_signer: bool,
    pub legacy_signer_only: bool,
}

/// A decrypted recovery envelope. Callers decide which parts to install;
/// presence of the signer does not authorize this machine to write.
pub struct RecoveryPayload {
    pub repository_id: RepositoryId,
    pub content_key: Option<RepositoryKey>,
    pub signer: Option<RepositorySigner>,
}

/// The first eight bytes of a recovery envelope.
pub open spec fn envelope_magic() -> Seq<u8> {
    ascii("MRECV001"@)
}

/// The flag word: 1 for a content key, 2 for a signer, 3 for both.
pub open spec fn envelope_flags(has_content_key: bool, has_signer: bool) -> u16 {
    ((if has_content_key {
        1int
    } else {
        0
    }) + (if has_signer {
        2int
    } else {
        0
    })) as u16
}

pub open spec fn flags_have_content_key(flags: u16) -> bool {
    flags == 1 || flags == 3
}

pub open spec fn flags_have_signer(flags: u16) -> bool {
    flags == 2 || flags == 3
}

/// The secrets of an optional part, as payload bytes.
pub open spec fn part_bytes(part: Option<Seq<u8>>) -> Seq<u8> {
    match part {
        Some(bytes) => bytes,
        None => Seq::empty(),
    }
}

/// The plaintext header of an envelope, field by field.
pub open spec fn header_text(
    repository_id: Seq<u8>,
    flags: u16,
    signer_public: Seq<u8>,
    kdf: KdfParameters,
    salt: Seq<u8>,
    nonce: Seq<u8>,
    payload_length: u32,
) -> Seq<u8> {
    envelope_magic() + le16(ENVELOPE_VERSION) + le16(flags) + seq![KDF_ARGON2ID] + le32(
        kdf.memory_kib,
    ) + le32(kdf.iterations) + seq![kdf.lanes, 0u8, 0u8] + repository_id + signer_public + salt
        + nonce + le32(payload_length)
}

/// The public key that an envelope records: that of the signer, or zeros.
pub open spec fn recorded_public(signer: Option<Seq<u8>>) -> Seq<u8> {
    match signer {
        Some(secret) => ed25519_public(secret),
        None => Seq::new(32, |i: int| 0u8),
    }
}

/// The plaintext header of an envelope with the given parts.
pub open spec fn envelope_header(
    repository_id: Seq<u8>,
    content_key: Option<Seq<u8>>,
    signer: Option<Seq<u8>>,
    kdf: KdfParameters,
    salt: Seq<u8>,
    nonce: Seq<u8>,
) -> Seq<u8> {
    header_text(
        repository_id,
        envelope_flags(content_key is Some, signer is Some),
        recorded_public(signer),
        kdf,
        salt,
        nonce,
        (part_bytes(content_key) + part_bytes(signer)).len() as u32,
    )
}

/// The key that seals the payload of an envelope.
pub open spec fn envelope_key(recovery_secret: Seq<u8>, salt: Seq<u8>, kdf: KdfParameters) -> Seq<
    u8,
> {
    argon2id_derived(recovery_secret, salt, kdf.memory_kib, kdf.iterations, kdf.lanes as u32)
}

/// A whole envelope: the header, and the payload sealed with the header as
/// associated data.
pub open spec fn envelope_bytes(
    repository_id: Seq<u8>,
    content_key: Option<Seq<u8>>,
    signer: Option<Seq<u8>>,
    recovery_secret: Seq<u8>,
    salt: Seq<u8>,
    nonce: Seq<u8>,
) -> Seq<u8> {
    let header = envelope_header(repository_id, content_key, signer, default_kdf(), salt, nonce);
    header + xchacha_sealed(
        envelope_key(recovery_secret, salt, default_kdf()),
        nonce,
        part_bytes(content_key) + part_bytes(signer),
        header,
    )
}

/// Whether the bytes start as a signer record does.
pub open spec fn is_signer_record(bytes: Seq<u8>) -> bool {
    bytes.len() >= 8 && bytes.subrange(0, 8) == signer_magic()
}

/// Why the metadata of an envelope cannot be read, if it cannot.
pub open spec fn inspection_refusal(bytes: Seq<u8>) -> Refusal {
    if is_signer_record(bytes) {
        None
    } else if bytes.len() < ENVELOPE_HEADER_LENGTH + 16 || bytes.len() > MAX_ENVELOPE_LENGTH {
        corrupt("recovery envelope length is invalid"@)
    } else if bytes.subrange(0, 8) != envelope_magic() {
        corrupt("recovery envelope is not a recognized format"@)
    } else if le16_at(bytes, 8) != ENVELOPE_VERSION {
        unsupported("unsupported recovery envelope version"@)
    } else if !(1 <= le16_at(bytes, 10) <= 3) {
        corrupt("recovery envelope flags are invalid"@)
    } else {
        None
    }
}

/// The KDF parameters that an envelope records.
pub open spec fn recorded_kdf(bytes: Seq<u8>) -> KdfParameters {
    KdfParameters {
        memory_kib: le32_at(bytes, 13),
        iterations: le32_at(bytes, 17),
        lanes: bytes[21],
    }
}

/// Why a key is not derived with these parameters, if it is not.
pub open spec fn kdf_refusal(recovery_secret: Seq<u8>, kdf: KdfParameters) -> Refusal {
    if !(1 <= kdf.memory_kib <= 4194304 && 1 <= kdf.iterations <= 64 && 1 <= kdf.lanes <= 8) {
        invalid("recovery envelope KDF parameters are outside safe bounds"@)
    } else if kdf.memory_kib < 8 * kdf.lanes {
        invalid("recovery envelope KDF is invalid"@)
    } else if recovery_secret.len() > 0xffff_ffff {
        broken("recovery key derivation failed"@)
    } else {
        None
    }
}

/// What the sealed part of an envelope decrypts to.
pub open spec fn envelope_plaintext(bytes: Seq<u8>, recovery_secret: Seq<u8>) -> Option<Seq<u8>> {
    xchacha_opened(
        envelope_key(recovery_secret, bytes.subrange(72, 88), recorded_kdf(bytes)),
        bytes.subrange(88, 112),
        bytes.subrange(116, bytes.len() as int),
        bytes.subrange(0, 116),
    )
}

/// How many payload bytes the flags call for.
pub open spec fn payload_length(flags: u16) -> int {
    if flags == 3 {
        64
    } else {
        32
    }
}

/// The content key within a decrypted payload.
pub open spec fn payload_content_key(flags: u16, plaintext: Seq<u8>) -> Option<Seq<u8>> {
    if flags_have_content_key(flags) {
        Some(plaintext.subrange(0, 32))
    } else {
        None
    }
}

/// The signer secret within a decrypted payload.
pub open spec fn payload_signer(flags: u16, plaintext: Seq<u8>) -> Option<Seq<u8>> {
    if flags_have_signer(flags) {
        Some(plaintext.subrange(payload_length(flags) - 32, payload_length(flags)))
    } else {
        None
    }
}

/// Why an envelope does not open, if it does not.
pub open spec fn opening_refusal(
    bytes: Seq<u8>,
    recovery_secret: Seq<u8>,
    expected_repository: Option<Seq<u8>>,
) -> Refusal {
    let flags = le16_at(bytes, 10);
    match inspection_refusal(bytes) {
        Some(refusal) => Some(refusal),
        None => if is_signer_record(bytes) {
            unsupported(
                "legacy recovery record contains signing authority only; it cannot recover encrypted content"@,
            )
        } else if expected_repository is Some && expected_repository->Some_0 != bytes.subrange(
            24,
            40,
        ) {
            corrupt("recovery envelope belongs to a different repository"@)
        } else if bytes[12] != KDF_ARGON2ID {
            unsupported("unsupported recovery envelope KDF"@)
        } else if le32_at(bytes, 112) != payload_length(flags) || bytes.len()
            != ENVELOPE_HEADER_LENGTH + payload_length(flags) + 16 {
            corrupt("recovery envelope payload length is inconsistent"@)
        } else {
            match kdf_refusal(recovery_secret, recorded_kdf(bytes)) {
                Some(refusal) => Some(refusal),
                None => match envelope_plaintext(bytes, recovery_secret) {
                    None => corrupt("recovery secret or envelope integrity check failed"@),
                    Some(plaintext) => if flags_have_signer(flags) && ed25519_public(
                        payload_signer(flags, plaintext)->Some_0,
                    ) != bytes.subrange(40, 72) {
                        corrupt("recovered signer does not match the envelope trust root"@)
                    } else {
                        None
                    },
                },
            }
        },
    }
}

/// The envelope opens under the secret and holds exactly these parts.
pub open spec fn opens_to(
    bytes: Seq<u8>,
    recovery_secret: Seq<u8>,
    repository_id: Seq<u8>,
    content_key: Option<Seq<u8>>,
    signer: Option<Seq<u8>>,
) -> bool {
    &&& opening_refusal(bytes, recovery_secret, Some(repository_id)) is None
    &&& opening_refusal(bytes, recovery_secret, None) is None
    &&& envelope_plaintext(bytes, recovery_secret) is Some
    &&& bytes.subrange(24, 40) == repository_id
    &&& payload_content_key(
        le16_at(bytes, 10),
        envelope_plaintext(bytes, recovery_secret)->Some_0,
    ) == content_key
    &&& payload_signer(le16_at(bytes, 10), envelope_plaintext(bytes, recovery_secret)->Some_0)
        == signer
}

/// An optional key as bytes.
pub open spec fn key_view(key: Option<&RepositoryKey>) -> Option<Seq<u8>> {
    match key {
        Some(key) => Some(key@),
        None => None,
    }
}

/// An optional signer as bytes.
pub open spec fn signer_view(signer: Option<&RepositorySigner>) -> Option<Seq<u8>> {
    match signer {
        Some(signer) => Some(signer@),
        None => None,
    }
}

/// Why an envelope is not exported, if it is not.
pub open spec fn export_refusal(
    content_key: Option<Seq<u8>>,
    signer: Option<Seq<u8>>,
    recovery_secret: Seq<u8>,
) -> Refusal {
    if !(MIN_SECRET_LENGTH <= recovery_secret.len() <= MAX_SECRET_LENGTH) {
        invalid("recovery secret length is outside the allowed bounds"@)
    } else if content_key is None && signer is None {
        invalid("a recovery envelope requires at least the content key or signing authority"@)
    } else {
        None
    }
}

proof fn lemma_magic_lengths()
    ensures
        signer_magic().len() == 8,
        envelope_magic().len() == 8,
        signer_magic() != envelope_magic(),
{
    reveal_strlit("MREKv001");
    reveal_strlit("MRECV001");
    assert(signer_magic()[3] == 75u8);
    assert(envelope_magic()[3] == 67u8);
}

/// Where each field of an envelope stands.
proof fn lemma_header_fields(
    bytes: Seq<u8>,
    repository_id: Seq<u8>,
    content_key: Option<Seq<u8>>,
    signer: Option<Seq<u8>>,
    kdf: KdfParameters,
    salt: Seq<u8>,
    nonce: Seq<u8>,
    sealed: Seq<u8>,
)
    requires
        repository_id.len() == 16,
        content_key is Some ==> content_key->Some_0.len() == 32,
        signer is Some ==> signer->Some_0.len() == 32,
        signer is Some ==> ed25519_public(signer->Some_0).len() == 32,
        salt.len() == 16,
        nonce.len() == 24,
        bytes == envelope_header(repository_id, content_key, signer, kdf, salt, nonce) + sealed,
    ensures
        envelope_header(repository_id, content_key, signer, kdf, salt, nonce).len() == 116,
        bytes.subrange(0, 8) == envelope_magic(),
        le16_at(bytes, 8) == ENVELOPE_VERSION,
        le16_at(bytes, 10) == envelope_flags(content_key is Some, signer is Some),
        bytes[12] == KDF_ARGON2ID,
        recorded_kdf(bytes) == kdf,
        bytes.subrange(24, 40) == repository_id,
        signer is Some ==> bytes.subrange(40, 72) == ed25519_public(signer->Some_0),
        bytes.subrange(72, 88) == salt,
        bytes.subrange(88, 112) == nonce,
        le32_at(bytes, 112) == (part_bytes(content_key) + part_bytes(signer)).len(),
        bytes.subrange(0, 116) == envelope_header(
            repository_id,
            content_key,
            signer,
            kdf,
            salt,
            nonce,
        ),
        bytes.subrange(116, bytes.len() as int) == sealed,
{
    lemma_magic_lengths();
    let header = envelope_header(repository_id, content_key, signer, kdf, salt, nonce);
    let flags = envelope_flags(content_key is Some, signer is Some);
    let length = (part_bytes(content_key) + part_bytes(signer)).len() as u32;
    assert(header.len() == 116);
    assert(bytes.subrange(0, 8) == envelope_magic());
    assert(bytes.subrange(8, 10) == le16(ENVELOPE_VERSION));
    law_le16_round_trip(bytes, 8, ENVELOPE_VERSION);
    assert(bytes.subrange(10, 12) == le16(flags));
    law_le16_round_trip(bytes, 10, flags);
    assert(bytes.subrange(13, 17) == le32(kdf.memory_kib));
    law_le32_round_trip(bytes, 13, kdf.memory_kib);
    assert(bytes.subrange(17, 21) == le32(kdf.iterations));
    law_le32_round_trip(bytes, 17, kdf.iterations);
    assert(bytes[21] == kdf.lanes);
    assert(bytes.subrange(24, 40) == repository_id);
    if signer is Some {
        assert(bytes.subrange(40, 72) == ed25519_public(signer->Some_0));
    }
    assert(bytes.subrange(72, 88) == salt);
    assert(bytes.subrange(88, 112) == nonce);
    assert(bytes.subrange(112, 116) == le32(length));
    law_le32_round_trip(bytes, 112, length);
    assert(bytes.subrange(0, 116) == header);
    assert(bytes.subrange(116, bytes.len() as int) == sealed);
}

/// Derives the key that seals an envelope.
fn derive_envelope_key(recovery_secret: &[u8], salt: &[u8; 16], params: KdfParameters) -> (key:
    Result<SecretBytes, MirageError>)
    ensures
        answers(key, kdf_refusal(recovery_secret@, params)),
        key matches Ok(key) ==> key@ == envelope_key(recovery_secret@, salt@, params),
{
    if params.memory_kib == 0 || params.memory_kib > 4 * 1024 * 1024 || params.iterations == 0
        || params.iterations > 64 || params.lanes == 0 || params.lanes > 8 {
        return Err(
            MirageError::invalid_argument(
                "recovery envelope KDF parameters are outside safe bounds",
            ),
        );
    }
    if params.memory_kib < 8 * params.lanes as u32 {
        return Err(MirageError::invalid_argument("recovery envelope KDF is invalid"));
    }
    match argon2id(
        recovery_secret,
        salt,
        params.memory_kib,
        params.iterations,
        params.lanes as u32,
    ) {
        Ok(key) => Ok(SecretBytes::new(key)),
        Err(_) => Err(MirageError::internal_invariant("recovery key derivation failed")),
    }
}

/// Writes the plaintext header of an envelope.
fn build_header(
    repository_id: RepositoryId,
    flags: u16,
    signer_public: &[u8; 32],
    kdf: KdfParameters,
    salt: &[u8; 16],
    nonce: &[u8; 24],
    payload_length: u32,
) -> (header: Vec<u8>)
    ensures
        header@ == header_text(
            repository_id@,
            flags,
            signer_public@,
            kdf,
            salt@,
            nonce@,
            payload_length,
        ),
{
    let mut header: Vec<u8> = Vec::new();
    push_ascii(&mut header, "MRECV001");
    assert(header@ == envelope_magic());
    push_le16(&mut header, ENVELOPE_VERSION);
    push_le16(&mut header, flags);
    header.push(KDF_ARGON2ID);
    push_le32(&mut header, kdf.memory_kib);
    push_le32(&mut header, kdf.iterations);
    header.push(kdf.lanes);
    header.push(0);
    header.push(0);
    push_all(&mut header, repository_id.as_bytes());
    push_all(&mut header, signer_public);
    push_all(&mut header, salt);
    push_all(&mut header, nonce);
    push_le32(&mut header, payload_length);
    header
}

/// Builds an envelope under a given salt and nonce.
#[verifier::spinoff_prover]
pub fn seal_envelope(
    repository_id: RepositoryId,
    content_key: Option<&RepositoryKey>,
    signer: Option<&RepositorySigner>,
    recovery_secret: &[u8],
    salt: &[u8; 16],
    nonce: &[u8; 24],
) -> (envelope: Result<Vec<u8>, MirageError>)
    ensures
        answers(
            envelope,
            export_refusal(key_view(content_key), signer_view(signer), recovery_secret@),
        ),
        envelope matches Ok(bytes) ==> {
            &&& bytes@ == envelope_bytes(
                repository_id@,
                key_view(content_key),
                signer_view(signer),
                recovery_secret@,
                salt@,
                nonce@,
            )
            &&& inspection_refusal(bytes@) is None
            &&& !is_signer_record(bytes@)
            &&& opens_to(
                bytes@,
                recovery_secret@,
                repository_id@,
                key_view(content_key),
                signer_view(signer),
            )
        },
{
    if recovery_secret.len() < MIN_SECRET_LENGTH || recovery_secret.len() > MAX_SECRET_LENGTH {
        return Err(
            MirageError::invalid_argument("recovery secret length is outside the allowed bounds"),
        );
    }
    if content_key.is_none() && signer.is_none() {
        return Err(
            MirageError::invalid_argument(
                "a recovery envelope requires at least the content key or signing authority",
            ),
        );
    }
    let mut flags: u16 = 0;
    let mut payload = SecretBuffer::with_capacity(64);
    if let Some(key) = content_key {
        flags = 1;
        payload.append(key.secret_bytes().as_bytes());
    }
    let mut signer_public: [u8; 32] = [0u8; 32];
    if let Some(signer) = signer {
        flags = flags + 2;
        payload.append(signer.secret_bytes().as_bytes());
        signer_public = signer.public_verifier().public_key();
    }
    assert(payload@ == part_bytes(key_view(content_key)) + part_bytes(signer_view(signer)));
    assert(signer_public@ == recorded_public(signer_view(signer)));
    let params = KdfParameters::default();
    let header = build_header(
        repository_id,
        flags,
        &signer_public,
        params,
        salt,
        nonce,
        payload.as_slice().len() as u32,
    );
    assert(header@ == envelope_header(
        repository_id@,
        key_view(content_key),
        signer_view(signer),
        default_kdf(),
        salt@,
        nonce@,
    ));
    let key = derive_envelope_key(recovery_secret, salt, params)?;
    let ghost message = payload@;
    let sealed = xchacha_seal(key.as_bytes(), nonce, payload.as_slice(), header.as_slice());
    let ciphertext = match sealed {
        Ok(ciphertext) => ciphertext,
        Err(_) => {
            return Err(MirageError::internal_invariant("recovery envelope encryption failed"));
        },
    };
    let mut out = header;
    push_all(&mut out, ciphertext.as_slice());
    proof {
        lemma_magic_lengths();
        lemma_header_fields(
            out@,
            repository_id@,
            key_view(content_key),
            signer_view(signer),
            default_kdf(),
            salt@,
            nonce@,
            ciphertext@,
        );
        assert(envelope_plaintext(out@, recovery_secret@) == Some(message));
        if content_key is Some {
            assert(message.subrange(0, 32) == content_key->Some_0@);
        }
        if signer is Some {
            let flags = le16_at(out@, 10);
            assert(message.subrange(payload_length(flags) - 32, payload_length(flags))
                == signer->Some_0@);
        }
    }
    Ok(out)
}

/// What the export of an envelope comes to, given what the draw of its salt came
/// back with. Without a salt there is none; otherwise the nonce is drawn, and
/// without a nonce there is none either.
pub open spec fn envelope_export(
    envelope: Result<Vec<u8>, MirageError>,
    repository_id: Seq<u8>,
    content_key: Option<Seq<u8>>,
    signer: Option<Seq<u8>>,
    recovery_secret: Seq<u8>,
    salt: Result<Vec<u8>, getrandom::Error>,
) -> bool {
    match salt {
        Err(_) => answers(envelope, broken("OS randomness unavailable"@)),
        Ok(salt) => exists|nonce: Result<Vec<u8>, getrandom::Error>|
            #[trigger] is_draw(24, nonce) && match nonce {
                Err(_) => answers(envelope, broken("OS randomness unavailable"@)),
                Ok(nonce) => envelope is Ok && envelope->Ok_0@ == envelope_bytes(
                    repository_id,
                    content_key,
                    signer,
                    recovery_secret,
                    salt@,
                    nonce@,
                ),
            },
    }
}

/// Whether an export of these parts under this secret can have come to this: the
/// refusal that they call for, or what two draws of the operating system's
/// randomness, 16 bytes for the salt and 24 for the nonce, lead to.
pub open spec fn is_envelope_export(
    envelope: Result<Vec<u8>, MirageError>,
    repository_id: Seq<u8>,
    content_key: Option<Seq<u8>>,
    signer: Option<Seq<u8>>,
    recovery_secret: Seq<u8>,
) -> bool {
    let refusal = export_refusal(content_key, signer, recovery_secret);
    if refusal is Some {
        answers(envelope, refusal)
    } else {
        exists|salt: Result<Vec<u8>, getrandom::Error>| #[trigger]
            is_draw(16, salt) && envelope_export(
                envelope,
                repository_id,
                content_key,
                signer,
                recovery_secret,
                salt,
            )
    }
}

/// Exports a versioned recovery envelope with a fresh salt and nonce. At least
/// one secret is required, so an export cannot produce an empty envelope that
/// looks successful. `open_envelope` with the same secret gives the parts back.
pub fn export_envelope(
    repository_id: RepositoryId,
    content_key: Option<&RepositoryKey>,
    signer: Option<&RepositorySigner>,
    recovery_secret: &[u8],
) -> (envelope: Result<Vec<u8>, MirageError>)
    ensures
        is_envelope_export(
            envelope,
            repository_id@,
            key_view(content_key),
            signer_view(signer),
            recovery_secret@,
        ),
        envelope matches Ok(bytes) ==> {
            &&& inspection_refusal(bytes@) is None
            &&& !is_signer_record(bytes@)
            &&& opens_to(
                bytes@,
                recovery_secret@,
                repository_id@,
                key_view(content_key),
                signer_view(signer),
            )
        },
{
    if recovery_secret.len() < MIN_SECRET_LENGTH || recovery_secret.len() > MAX_SECRET_LENGTH {
        return Err(
            MirageError::invalid_argument("recovery secret length is outside the allowed bounds"),
        );
    }
    if content_key.is_none() && signer.is_none() {
        return Err(
            MirageError::invalid_argument(
                "a recovery envelope requires at least the content key or signing authority",
            ),
        );
    }
    let drawn_salt = draw_random(16);
    let ghost salt_draw = drawn_salt;
    assert(is_draw(16, salt_draw));
    let salt: [u8; 16] = match &drawn_salt {
        Ok(random) => array16(random.as_slice(), 0),
        Err(_) => {
            return Err(MirageError::internal_invariant("OS randomness unavailable"));
        },
    };
    let drawn_nonce = draw_random(24);
    let ghost nonce_draw = drawn_nonce;
    assert(is_draw(24, nonce_draw));
    let nonce: [u8; 24] = match &drawn_nonce {
        Ok(random) => array24(random.as_slice(), 0),
        Err(_) => {
            return Err(MirageError::internal_invariant("OS randomness unavailable"));
        },
    };
    proof {
        assert(salt@ == salt_draw->Ok_0@);
        assert(nonce@ == nonce_draw->Ok_0@);
    }
    seal_envelope(repository_id, content_key, signer, recovery_secret, &salt, &nonce)
}

/// Reads an envelope's public metadata without the recovery secret. Signer
/// records are recognized and reported as signer-only.
pub fn inspect_envelope(bytes: &[u8]) -> (inspection: Result<EnvelopeInspection, MirageError>)
    ensures
        answers(inspection, inspection_refusal(bytes@)),
        inspection matches Ok(inspection) ==> if is_signer_record(bytes@) {
            &&& inspection.repository_id@ == Seq::new(16, |i: int| 0u8)
            &&& inspection.kind == EnvelopeKind::SignerOnly
            &&& !inspection.has_content_key
            &&& inspection.has_signer
            &&& inspection.legacy_signer_only
        } else {
            &&& inspection.repository_id@ == bytes@.subrange(24, 40)
            &&& inspection.kind == if inspection.has_content_key {
                EnvelopeKind::Complete
            } else {
                EnvelopeKind::SignerOnly
            }
            &&& inspection.has_content_key == flags_have_content_key(le16_at(bytes@, 10))
            &&& inspection.has_signer == flags_have_signer(le16_at(bytes@, 10))
            &&& !inspection.legacy_signer_only
        },
{
    let mut legacy_magic: Vec<u8> = Vec::new();
    push_ascii(&mut legacy_magic, "MREKv001");
    assert(legacy_magic@ == signer_magic());
    let mut magic: Vec<u8> = Vec::new();
    push_ascii(&mut magic, "MRECV001");
    assert(magic@ == envelope_magic());
    if bytes.len() >= 8 {
        if same_bytes(copy_range(bytes, 0, 8).as_slice(), legacy_magic.as_slice()) {
            let repository_id = RepositoryId::from_bytes([0u8; 16]);
            assert(repository_id@ == Seq::new(16, |i: int| 0u8));
            return Ok(
                EnvelopeInspection {
                    repository_id,
                    kind: EnvelopeKind::SignerOnly,
                    has_content_key: false,
                    has_signer: true,
                    legacy_signer_only: true,
                },
            );
        }
    }
    if bytes.len() < ENVELOPE_HEADER_LENGTH + 16 || bytes.len() > MAX_ENVELOPE_LENGTH {
        return Err(MirageError::integrity_mismatch("recovery envelope length is invalid"));
    }
    if !same_bytes(copy_range(bytes, 0, 8).as_slice(), magic.as_slice()) {
        return Err(MirageError::integrity_mismatch("recovery envelope is not a recognized format"));
    }
    if read_le16(bytes, 8) != ENVELOPE_VERSION {
        return Err(MirageError::unsupported_layout("unsupported recovery envelope version"));
    }
    let flags: u16 = read_le16(bytes, 10);
    if flags > 3 || flags == 0 {
        return Err(MirageError::integrity_mismatch("recovery envelope flags are invalid"));
    }
    let repository_id = RepositoryId::from_bytes(array16(bytes, 24));
    let has_content_key = flags == 1 || flags == 3;
    let has_signer = flags == 2 || flags == 3;
    let kind = if has_content_key {
        EnvelopeKind::Complete
    } else if has_signer {
        EnvelopeKind::SignerOnly
    } else {
        EnvelopeKind::Empty
    };
    Ok(
        EnvelopeInspection {
            repository_id,
            kind,
            has_content_key,
            has_signer,
            legacy_signer_only: false,
        },
    )
}

/// An optional identity as bytes.
pub open spec fn id_view(id: Option<RepositoryId>) -> Option<Seq<u8>> {
    match id {
        Some(id) => Some(id@),
        None => None,
    }
}

/// Opens a recovery envelope. A tampered envelope, a wrong secret, a wrong
/// repository and a signer record are refused. (A signer record remains
/// readable through `import_signer`.)
pub fn open_envelope(
    bytes: &[u8],
    recovery_secret: &[u8],
    expected_repository: Option<RepositoryId>,
) -> (payload: Result<RecoveryPayload, MirageError>)
    ensures
        answers(
            payload,
            opening_refusal(bytes@, recovery_secret@, id_view(expected_repository)),
        ),
        payload matches Ok(payload) ==> {
            let flags = le16_at(bytes@, 10);
            let plaintext = envelope_plaintext(bytes@, recovery_secret@)->Some_0;
            &&& payload.repository_id@ == bytes@.subrange(24, 40)
            &&& match payload.content_key {
                Some(key) => payload_content_key(flags, plaintext) == Some(key@),
                None => payload_content_key(flags, plaintext) is None,
            }
            &&& match payload.signer {
                Some(signer) => payload_signer(flags, plaintext) == Some(signer@),
                None => payload_signer(flags, plaintext) is None,
            }
        },
{
    let inspection = inspect_envelope(bytes)?;
    if inspection.legacy_signer_only {
        return Err(
            MirageError::unsupported_layout(
                "legacy recovery record contains signing authority only; it cannot recover encrypted content",
            ),
        );
    }
    if let Some(expected) = expected_repository {
        if !expected.same(&inspection.repository_id) {
            return Err(
                MirageError::integrity_mismatch(
                    "recovery envelope belongs to a different repository",
                ),
            );
        }
    }
    let flags: u16 = read_le16(bytes, 10);
    if bytes[12] != KDF_ARGON2ID {
        return Err(MirageError::unsupported_layout("unsupported recovery envelope KDF"));
    }
    let params = KdfParameters {
        memory_kib: read_le32(bytes, 13),
        iterations: read_le32(bytes, 17),
        lanes: bytes[21],
    };
    let signer_public: [u8; 32] = array32(bytes, 40);
    let salt: [u8; 16] = array16(bytes, 72);
    let nonce: [u8; 24] = array24(bytes, 88);
    let declared: u32 = read_le32(bytes, 112);
    let expected_payload: usize = if flags == 3 {
        64
    } else {
        32
    };
    if declared as u64 != expected_payload as u64 || bytes.len() != ENVELOPE_HEADER_LENGTH
        + expected_payload + 16 {
        return Err(
            MirageError::integrity_mismatch("recovery envelope payload length is inconsistent"),
        );
    }
    let key = derive_envelope_key(recovery_secret, &salt, params)?;
    let sealed = copy_range(bytes, ENVELOPE_HEADER_LENGTH, bytes.len());
    let header = copy_range(bytes, 0, ENVELOPE_HEADER_LENGTH);
    let opened = xchacha_open(key.as_bytes(), &nonce, sealed.as_slice(), header.as_slice());
    let plaintext = match opened {
        Ok(plaintext) => SecretBuffer::new(plaintext),
        Err(_) => {
            return Err(
                MirageError::integrity_mismatch(
                    "recovery secret or envelope integrity check failed",
                ),
            );
        },
    };
    let content_key = if flags == 1 || flags == 3 {
        Some(RepositoryKey::from_bytes(array32(plaintext.as_slice(), 0)))
    } else {
        None
    };
    let mut signer: Option<RepositorySigner> = None;
    if flags >= 2 {
        let raw = SecretBytes::new(array32(plaintext.as_slice(), expected_payload - 32));
        let restored = RepositorySigner::from_secret(raw.as_bytes())?;
        let own_public: [u8; 32] = restored.public_verifier().public_key();
        if !same_bytes(&own_public, &signer_public) {
            return Err(
                MirageError::integrity_mismatch(
                    "recovered signer does not match the envelope trust root",
                ),
            );
        }
        signer = Some(restored);
    }
    Ok(RecoveryPayload { repository_id: inspection.repository_id, content_key, signer })
}

/// An envelope bound to one repository does not open for another.
pub proof fn law_envelope_is_repository_bound(
    bytes: Seq<u8>,
    recovery_secret: Seq<u8>,
    repository: Seq<u8>,
    other: Seq<u8>,
)
    requires
        opening_refusal(bytes, recovery_secret, Some(repository)) is None,
        other != repository,
    ensures
        opening_refusal(bytes, recovery_secret, Some(other)) == corrupt(
            "recovery envelope belongs to a different repository"@,
        ),
{
}

/// Whatever the secret, a signer record is recognized as one and never opens
/// as an envelope.
pub proof fn law_signer_record_is_no_envelope(
    signer: Seq<u8>,
    recovery_secret: Seq<u8>,
    salt: Seq<u8>,
    nonce: Seq<u8>,
    secret: Seq<u8>,
    expected: Option<Seq<u8>>,
)
    ensures
        is_signer_record(signer_record(signer, recovery_secret, salt, nonce)),
        inspection_refusal(signer_record(signer, recovery_secret, salt, nonce)) is None,
        opening_refusal(signer_record(signer, recovery_secret, salt, nonce), secret, expected)
            == unsupported(
            "legacy recovery record contains signing authority only; it cannot recover encrypted content"@,
        ),
{
    lemma_signer_magic_length();
    let record = signer_record(signer, recovery_secret, salt, nonce);
    assert(record.subrange(0, 8) == signer_magic());
}

/// Every transition that is created is accepted under the public key of the
/// previous signer, and hands over to the new key.
pub proof fn law_created_transition_verifies(
    transition: KeyTransition,
    sequence: u64,
    old: Seq<u8>,
    new: Seq<u8>,
)
    requires
        hands_over(transition, sequence, old, new),
    ensures
        refusal_of(transition, ed25519_public(old)) is None,
        transition.new_public_key@ == new,
{
}

/// A transition that is accepted under one key is refused under every key of
/// another identity.
pub proof fn law_transition_is_bound_to_its_key(
    transition: KeyTransition,
    old_public: Seq<u8>,
    other_public: Seq<u8>,
)
    requires
        refusal_of(transition, old_public) is None,
        key_id_of(other_public) != key_id_of(old_public),
    ensures
        refusal_of(transition, other_public) == corrupt("commit signer is not trusted"@),
{
}

/// The bytes that a key signs for a transition tell its sequence, the previous key
/// identity and the new public key: two transitions with the same bytes are the
/// same in all three.
pub proof fn law_transition_text_is_injective(
    sequence: u64,
    previous_key_id: Seq<u8>,
    new_public_key: Seq<u8>,
    other_sequence: u64,
    other_key_id: Seq<u8>,
    other_public_key: Seq<u8>,
)
    requires
        previous_key_id.len() == 16,
        new_public_key.len() == 32,
        other_key_id.len() == 16,
        other_public_key.len() == 32,
        transition_text(sequence, previous_key_id, new_public_key) == transition_text(
            other_sequence,
            other_key_id,
            other_public_key,
        ),
    ensures
        sequence == other_sequence,
        previous_key_id == other_key_id,
        new_public_key == other_public_key,
{
    let head = ascii("MirageSSD key transition v1\0"@);
    let start = head.len() as int;
    let text = transition_text(sequence, previous_key_id, new_public_key);
    let other = transition_text(other_sequence, other_key_id, other_public_key);
    assert(text.subrange(start, start + 8) == le64(sequence));
    assert(other.subrange(start, start + 8) == le64(other_sequence));
    law_le64_is_injective(sequence, other_sequence);
    assert(text.subrange(start + 8, start + 24) == previous_key_id);
    assert(other.subrange(start + 8, start + 24) == other_key_id);
    assert(text.subrange(start + 24, start + 56) == new_public_key);
    assert(other.subrange(start + 24, start + 56) == other_public_key);
}

/// A transition whose sequence, previous key identity or new public key was changed
/// is accepted under the previous key only if that key's signatures are accepted on
/// a message that was not signed. Whether they ever are is up to the signature
/// scheme.
pub proof fn law_changed_transition_needs_another_signature(
    transition: KeyTransition,
    changed: KeyTransition,
    sequence: u64,
    old: Seq<u8>,
    new: Seq<u8>,
)
    requires
        hands_over(transition, sequence, old, new),
        changed.sequence != transition.sequence || changed.previous_key_id@
            != transition.previous_key_id@ || changed.new_public_key@
            != transition.new_public_key@,
        refusal_of(changed, ed25519_public(old)) is None,
    ensures
        ({
            let text = transition_text(
                changed.sequence,
                changed.previous_key_id@,
                changed.new_public_key@,
            );
            &&& text != transition_text(sequence, transition.previous_key_id@, new)
            &&& ed25519_verifies(ed25519_public(old), text, changed.signature@)
        }),
{
    let text = transition_text(
        changed.sequence,
        changed.previous_key_id@,
        changed.new_public_key@,
    );
    if text == transition_text(sequence, transition.previous_key_id@, new) {
        law_transition_text_is_injective(
            changed.sequence,
            changed.previous_key_id@,
            changed.new_public_key@,
            sequence,
            transition.previous_key_id@,
            new,
        );
    }
}

/// What is handed to the cipher to open an envelope: the key, the nonce, the
/// ciphertext and the associated data.
pub open spec fn decryption_of(bytes: Seq<u8>, recovery_secret: Seq<u8>) -> (
    Seq<u8>,
    Seq<u8>,
    Seq<u8>,
    Seq<u8>,
) {
    (
        envelope_key(recovery_secret, bytes.subrange(72, 88), recorded_kdf(bytes)),
        bytes.subrange(88, 112),
        bytes.subrange(116, bytes.len() as int),
        bytes.subrange(0, 116),
    )
}

/// An exported envelope is opened with exactly what it was sealed with.
pub proof fn law_export_is_opened_as_it_was_sealed(
    repository_id: Seq<u8>,
    content_key: Option<Seq<u8>>,
    signer: Option<Seq<u8>>,
    recovery_secret: Seq<u8>,
    salt: Seq<u8>,
    nonce: Seq<u8>,
)
    requires
        repository_id.len() == 16,
        content_key is Some ==> content_key->Some_0.len() == 32,
        signer is Some ==> signer->Some_0.len() == 32,
        signer is Some ==> ed25519_public(signer->Some_0).len() == 32,
        salt.len() == 16,
        nonce.len() == 24,
    ensures
        ({
            let bytes = envelope_bytes(
                repository_id,
                content_key,
                signer,
                recovery_secret,
                salt,
                nonce,
            );
            let header = envelope_header(
                repository_id,
                content_key,
                signer,
                default_kdf(),
                salt,
                nonce,
            );
            let key = envelope_key(recovery_secret, salt, default_kdf());
            decryption_of(bytes, recovery_secret) == (
                key,
                nonce,
                xchacha_sealed(key, nonce, part_bytes(content_key) + part_bytes(signer), header),
                header,
            )
        }),
{
    let bytes = envelope_bytes(repository_id, content_key, signer, recovery_secret, salt, nonce);
    let header = envelope_header(repository_id, content_key, signer, default_kdf(), salt, nonce);
    let sealed = xchacha_sealed(
        envelope_key(recovery_secret, salt, default_kdf()),
        nonce,
        part_bytes(content_key) + part_bytes(signer),
        header,
    );
    lemma_header_fields(
        bytes,
        repository_id,
        content_key,
        signer,
        default_kdf(),
        salt,
        nonce,
        sealed,
    );
}

/// An envelope that was changed in any way, be it by a single bit, opens only if
/// the cipher accepts something other than what was sealed. Whether it ever does is
/// up to the cipher.
pub proof fn law_changed_envelope_needs_another_decryption(
    bytes: Seq<u8>,
    changed: Seq<u8>,
    recovery_secret: Seq<u8>,
    secret: Seq<u8>,
    expected: Option<Seq<u8>>,
)
    requires
        opening_refusal(bytes, recovery_secret, expected) is None,
        opening_refusal(changed, secret, expected) is None,
        changed != bytes,
    ensures
        ({
            let (key, nonce, ciphertext, aad) = decryption_of(changed, secret);
            &&& xchacha_opened(key, nonce, ciphertext, aad) is Some
            &&& decryption_of(changed, secret) != decryption_of(bytes, recovery_secret)
        }),
{
    if decryption_of(changed, secret) == decryption_of(bytes, recovery_secret) {
        assert(bytes == bytes.subrange(0, 116) + bytes.subrange(116, bytes.len() as int));
        assert(changed == changed.subrange(0, 116) + changed.subrange(
            116,
            changed.len() as int,
        ));
    }
}

/// Whether another secret opens an envelope is up to the cipher alone: where it does
/// not accept the envelope under the key that the secret derives, the envelope is
/// refused as one whose secret or integrity failed, and nothing of it is given.
pub proof fn law_wrong_secret_is_refused_by_the_cipher(
    bytes: Seq<u8>,
    recovery_secret: Seq<u8>,
    secret: Seq<u8>,
    expected: Option<Seq<u8>>,
)
    requires
        opening_refusal(bytes, recovery_secret, expected) is None,
        secret.len() <= 0xffff_ffff,
    ensures
        ({
            let (key, nonce, ciphertext, aad) = decryption_of(bytes, secret);
            &&& opening_refusal(bytes, secret, expected) is None ==> xchacha_opened(
                key,
                nonce,
                ciphertext,
                aad,
            ) is Some
            &&& xchacha_opened(key, nonce, ciphertext, aad) is None ==> opening_refusal(
                bytes,
                secret,
                expected,
            ) == corrupt("recovery secret or envelope integrity check failed"@)
        }),
{
}

/// An envelope with bytes appended to it does not open.
pub proof fn law_appended_bytes_are_refused(
    bytes: Seq<u8>,
    extra: Seq<u8>,
    recovery_secret: Seq<u8>,
    expected: Option<Seq<u8>>,
)
    requires
        opening_refusal(bytes, recovery_secret, expected) is None,
        extra.len() > 0,
    ensures
        opening_refusal(bytes + extra, recovery_secret, expected) is Some,
{
    lemma_magic_lengths();
    let longer = bytes + extra;
    assert(longer.subrange(0, 8) == bytes.subrange(0, 8));
    assert(longer.subrange(24, 40) == bytes.subrange(24, 40));
}

/// A truncated envelope does not open.
pub proof fn law_truncated_envelope_is_refused(
    bytes: Seq<u8>,
    length: int,
    recovery_secret: Seq<u8>,
    expected: Option<Seq<u8>>,
)
    requires
        opening_refusal(bytes, recovery_secret, expected) is None,
        0 <= length < bytes.len(),
    ensures
        opening_refusal(bytes.take(length), recovery_secret, expected) is Some,
{
    lemma_magic_lengths();
    let cut = bytes.take(length);
    if length >= 132 {
        assert(cut.subrange(0, 8) == bytes.subrange(0, 8));
    } else if length >= 8 {
        assert(cut.subrange(0, 8) == bytes.subrange(0, 8));
    }
}

} // verus!
