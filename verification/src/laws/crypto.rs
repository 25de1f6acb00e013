//! Keys, signatures, records and recovery envelopes.

use vstd::prelude::*;
use crate::cli::recovery::{
    conclude_verification, expected_repository, import_report, legacy_report, read_secret,
    verified_record, ImportReport, VerifiedRecord, VerifyReport,
};
use crate::crypto::aead::RepositoryKey;
use crate::crypto::dpapi::{blob_length, check_answer, ProtectionScope};
use crate::crypto::durable_file::{require_parent, sibling_name, unique_sibling, SiblingStep};
use crate::crypto::file_acl::{
    restrict, restrict_directory_to_system_admins, running_as_local_system, AclPlan,
};
use crate::crypto::key_id::derive_key_id;
use crate::crypto::key_store::{
    encode_signer_record, parse_signer_record, parse_trust_root, restore_signer, SignerRecord,
};
use crate::crypto::primitives::{blake3_digest, ed25519_accepts, ed25519_public, sha256_digest};
use crate::crypto::recovery::{
    import_signer, inspect_envelope, open_envelope, seal_envelope, seal_signer, transition_body,
    EnvelopeInspection, EnvelopeKind, KeyTransition, RecoveryPayload,
};
use crate::crypto::repository_key_store::{
    encode_repository_key, entropy, inspect_repository_key, parse_repository_key,
    restore_repository_key,
};
use crate::crypto::secret::SecretBuffer;
use crate::crypto::signing::{
    RepositorySigner, RepositoryVerifier, SignatureAlgorithm, SignatureEnvelope,
};
use crate::error::{MirageError, MirageErrorKind};
use crate::ids::RepositoryId;
use crate::text::{begins_with, finishes_with, hex_text};

verus! {

/// A page that was sealed opens to itself, under the same key, nonce and associated data.
pub proof fn law_sealed_page_opens_to_itself(
    key: &RepositoryKey,
    nonce: &[u8; 24],
    plaintext: &[u8],
    aad: &[u8],
    sealed: Result<Vec<u8>, MirageError>,
    ciphertext: &[u8],
    opened: Result<Vec<u8>, MirageError>,
)
    requires
        plaintext@.len() < 64 * 0xffff_fffe,
        call_ensures(RepositoryKey::seal_with, (key, nonce, plaintext, aad), sealed),
        sealed is Ok ==> ciphertext@ == sealed->Ok_0@,
        call_ensures(RepositoryKey::open, (key, nonce, ciphertext, aad), opened),
    ensures
        sealed is Ok,
        sealed->Ok_0@.len() == plaintext@.len() + 16,
        opened is Ok,
        opened->Ok_0@ == plaintext@,
{
}

/// What a signer signs, its own verifier accepts under its own identity; another algorithm,
/// another identity or a signature of another length is refused.
pub proof fn law_signatures_verify(
    signer: &RepositorySigner,
    body: &[u8],
    signature: Result<Vec<u8>, MirageError>,
    verifier: RepositoryVerifier,
    id: [u8; 16],
    envelope: &SignatureEnvelope,
    verdict: Result<(), MirageError>,
)
    requires
        call_ensures(RepositorySigner::sign, (signer, body), signature),
        call_ensures(RepositorySigner::public_verifier, (signer,), verifier),
        call_ensures(RepositorySigner::key_id, (signer,), id),
        call_ensures(RepositoryVerifier::verify, (&verifier, body, envelope), verdict),
    ensures
        signature is Ok,
        signature->Ok_0@.len() == 64,
        envelope.algorithm == SignatureAlgorithm::Ed25519 && envelope.key_id@ == id@
            && envelope.signature@ == signature->Ok_0@ ==> verdict is Ok,
        envelope.algorithm != SignatureAlgorithm::Ed25519 ==> verdict is Err,
        envelope.key_id@ != id@ ==> verdict is Err,
        envelope.signature@.len() != 64 ==> verdict is Err,
{
}

/// The identity of a key is a part of its digest, the same for signer and verifier.
pub proof fn law_key_identity_is_of_the_public_key(
    signer: &RepositorySigner,
    id: [u8; 16],
    public: &[u8; 32],
    derived: [u8; 16],
)
    requires
        call_ensures(RepositorySigner::key_id, (signer,), id),
        call_ensures(derive_key_id, (public,), derived),
        public@ == ed25519_public(signer@),
    ensures
        id@ == derived@,
        derived@.len() == 16,
        begins_with_bytes(blake3_digest(public@), derived@),
{
    assert(blake3_digest(public@).subrange(0, 16) == derived@);
}

/// Whether some bytes begin with others.
pub open spec fn begins_with_bytes(bytes: Seq<u8>, head: Seq<u8>) -> bool {
    bytes.subrange(0, head.len() as int) == head
}

/// A secret that was taken is the secret that is held and handed out.
pub proof fn law_secrets_are_kept(
    bytes: [u8; 32],
    key: RepositoryKey,
    secret: &[u8],
    signer: Result<RepositorySigner, MirageError>,
    restored: Result<RepositoryKey, MirageError>,
)
    requires
        call_ensures(RepositoryKey::from_bytes, (bytes,), key),
        call_ensures(RepositorySigner::from_secret, (secret,), signer),
        call_ensures(restore_repository_key, (secret,), restored),
    ensures
        key@ == bytes@,
        signer is Ok <==> secret@.len() == 32,
        signer is Ok ==> signer->Ok_0@ == secret@,
        restored is Ok <==> secret@.len() == 32,
        restored is Ok ==> restored->Ok_0@ == secret@,
{
}

/// An envelope that was sealed opens, with the same secret and for the same repository, to the
/// key and the signer that went in, and is recognized as complete exactly if it holds a key.
pub proof fn law_envelope_gives_back_its_parts(
    repository_id: RepositoryId,
    content_key: Option<&RepositoryKey>,
    signer: Option<&RepositorySigner>,
    secret: &[u8],
    salt: &[u8; 16],
    nonce: &[u8; 24],
    envelope: Result<Vec<u8>, MirageError>,
    bytes: &[u8],
    payload: Result<RecoveryPayload, MirageError>,
    inspection: Result<EnvelopeInspection, MirageError>,
)
    requires
        call_ensures(
            seal_envelope,
            (repository_id, content_key, signer, secret, salt, nonce),
            envelope,
        ),
        envelope is Ok,
        bytes@ == envelope->Ok_0@,
        call_ensures(open_envelope, (bytes, secret, Some(repository_id)), payload),
        call_ensures(inspect_envelope, (bytes,), inspection),
    ensures
        payload is Ok,
        payload->Ok_0.repository_id@ == repository_id@,
        payload->Ok_0.content_key is Some <==> content_key is Some,
        content_key is Some ==> payload->Ok_0.content_key->Some_0@ == content_key->Some_0@,
        payload->Ok_0.signer is Some <==> signer is Some,
        signer is Some ==> payload->Ok_0.signer->Some_0@ == signer->Some_0@,
        inspection is Ok,
        inspection->Ok_0.repository_id@ == repository_id@,
        inspection->Ok_0.kind == EnvelopeKind::Complete <==> content_key is Some,
        inspection->Ok_0.has_content_key == (content_key is Some),
        inspection->Ok_0.has_signer == (signer is Some),
        !inspection->Ok_0.legacy_signer_only,
{
}

/// An envelope is made of anything but nothing, under a secret of 12 to 1024 bytes, and begins
/// with the bytes `MRECV001`.
pub proof fn law_envelopes_hold_something(
    repository_id: RepositoryId,
    content_key: Option<&RepositoryKey>,
    signer: Option<&RepositorySigner>,
    secret: &[u8],
    salt: &[u8; 16],
    nonce: &[u8; 24],
    envelope: Result<Vec<u8>, MirageError>,
)
    requires
        call_ensures(
            seal_envelope,
            (repository_id, content_key, signer, secret, salt, nonce),
            envelope,
        ),
    ensures
        content_key is None && signer is None ==> envelope is Err,
        secret@.len() < 12 ==> envelope is Err,
        12 <= secret@.len() <= 1024 && (content_key is Some || signer is Some) ==> envelope is Ok,
        envelope is Ok ==> {
            let bytes = envelope->Ok_0@;
            &&& bytes[0] == 77 && bytes[1] == 82 && bytes[2] == 69 && bytes[3] == 67
            &&& bytes[4] == 86 && bytes[5] == 48 && bytes[6] == 48 && bytes[7] == 49
        },
{
    if envelope is Ok {
        reveal_strlit("MRECV001");
        let bytes = envelope->Ok_0@;
        let magic = bytes.subrange(0, 8);
        assert(magic == crate::crypto::recovery::envelope_magic());
        assert(magic[0] == bytes[0] && magic[1] == bytes[1] && magic[2] == bytes[2] && magic[3]
            == bytes[3] && magic[4] == bytes[4] && magic[5] == bytes[5] && magic[6] == bytes[6]
            && magic[7] == bytes[7]);
    }
}

/// An envelope never opens for another repository.
pub proof fn law_envelope_is_for_one_repository(
    bytes: &[u8],
    secret: &[u8],
    named: RepositoryId,
    other: RepositoryId,
    payload: Result<RecoveryPayload, MirageError>,
    refused: Result<RecoveryPayload, MirageError>,
)
    requires
        call_ensures(open_envelope, (bytes, secret, Some(named)), payload),
        payload is Ok,
        call_ensures(open_envelope, (bytes, secret, Some(other)), refused),
        other@ != named@,
    ensures
        refused is Err,
        refused->Err_0.kind == MirageErrorKind::IntegrityMismatch,
        payload->Ok_0.repository_id@ == named@,
{
}

/// A signer record gives back its signer under the same secret, is found to be one, and never
/// opens as an envelope.
pub proof fn law_signer_record_gives_back_its_signer(
    signer: &RepositorySigner,
    secret: &[u8],
    salt: &[u8; 16],
    nonce: &[u8; 24],
    record: Result<Vec<u8>, MirageError>,
    bytes: &[u8],
    imported: Result<RepositorySigner, MirageError>,
    inspection: Result<EnvelopeInspection, MirageError>,
    payload: Result<RecoveryPayload, MirageError>,
)
    requires
        call_ensures(seal_signer, (signer, secret, salt, nonce), record),
        12 <= secret@.len() <= 1024,
        record is Ok ==> bytes@ == record->Ok_0@,
        call_ensures(import_signer, (bytes, secret), imported),
        call_ensures(inspect_envelope, (bytes,), inspection),
        call_ensures(open_envelope, (bytes, secret, None::<RepositoryId>), payload),
    ensures
        record is Ok,
        imported is Ok,
        imported->Ok_0@ == signer@,
        inspection is Ok,
        inspection->Ok_0.legacy_signer_only,
        inspection->Ok_0.kind == EnvelopeKind::SignerOnly,
        !inspection->Ok_0.has_content_key,
        payload is Err,
        payload->Err_0.kind == MirageErrorKind::UnsupportedLayout,
{
    crate::crypto::recovery::law_signer_record_is_no_envelope(
        signer@,
        secret@,
        salt@,
        nonce@,
        secret@,
        None,
    );
}

/// A signing authority that was handed over is accepted from the previous signer and gives the
/// verifier of the new key.
pub proof fn law_authority_is_handed_over(
    sequence: u64,
    old: &RepositorySigner,
    new: &RepositoryVerifier,
    transition: Result<KeyTransition, MirageError>,
    previous: &RepositoryVerifier,
    verifier: Result<RepositoryVerifier, MirageError>,
)
    requires
        call_ensures(KeyTransition::create, (sequence, old, new), transition),
        previous@ == ed25519_public(old@),
        call_ensures(KeyTransition::verify, (&transition->Ok_0, previous), verifier),
    ensures
        transition is Ok,
        transition->Ok_0.sequence == sequence,
        transition->Ok_0.new_public_key@ == new@,
        verifier is Ok,
        verifier->Ok_0@ == new@,
{
}

/// A protected signer comes out of its record as it went in, is trusted by its public key, and
/// is restored only from the secret of that key.
pub proof fn law_signer_store_gives_back_its_record(
    public: &[u8; 32],
    protected: &[u8],
    record: Result<Vec<u8>, MirageError>,
    bytes: &[u8],
    parsed: Result<SignerRecord, MirageError>,
    root: Result<RepositoryVerifier, MirageError>,
    kept: &SignerRecord,
    secret: &[u8],
    signer: Result<RepositorySigner, MirageError>,
)
    requires
        protected@.len() <= u32::MAX,
        call_ensures(encode_signer_record, (public, protected), record),
        record is Ok ==> bytes@ == record->Ok_0@,
        call_ensures(parse_signer_record, (bytes,), parsed),
        call_ensures(parse_trust_root, (bytes,), root),
        call_ensures(restore_signer, (kept, secret), signer),
    ensures
        record is Ok,
        parsed is Ok,
        parsed->Ok_0.public@ == public@,
        parsed->Ok_0.protected@ == protected@,
        ed25519_accepts(public@) ==> root is Ok && root->Ok_0@ == public@,
        signer is Ok <==> secret@.len() == 32 && ed25519_public(secret@) == kept.public@,
        signer is Ok ==> signer->Ok_0@ == secret@,
{
    crate::crypto::key_store::law_key_record_round_trip(public@, protected@);
}

/// A protected content key comes out of its record as it went in, for its own repository and for
/// no other.
pub proof fn law_key_store_gives_back_its_record(
    repository_id: RepositoryId,
    other: RepositoryId,
    protected: &[u8],
    record: Result<Vec<u8>, MirageError>,
    bytes: &[u8],
    id: Result<RepositoryId, MirageError>,
    parsed: Result<Vec<u8>, MirageError>,
    refused: Result<Vec<u8>, MirageError>,
    bound: Vec<u8>,
    other_bound: Vec<u8>,
)
    requires
        protected@.len() <= u32::MAX,
        other@ != repository_id@,
        call_ensures(encode_repository_key, (repository_id, protected), record),
        record is Ok ==> bytes@ == record->Ok_0@,
        call_ensures(inspect_repository_key, (bytes,), id),
        call_ensures(parse_repository_key, (bytes, repository_id), parsed),
        call_ensures(parse_repository_key, (bytes, other), refused),
        call_ensures(entropy, (repository_id,), bound),
        call_ensures(entropy, (other,), other_bound),
    ensures
        record is Ok,
        id is Ok,
        id->Ok_0@ == repository_id@,
        parsed is Ok,
        parsed->Ok_0@ == protected@,
        refused is Err,
        bound@ != other_bound@,
{
    crate::crypto::repository_key_store::law_repository_key_round_trip(
        repository_id@,
        protected@,
        other@,
    );
    if bound@ == other_bound@ {
        crate::crypto::repository_key_store::law_entropy_is_repository_bound(
            repository_id@,
            other@,
        );
    }
}

/// A record is protected for the machine only where that was asked for, and never asks a person.
pub proof fn law_protection_is_of_the_asked_scope(
    scope: ProtectionScope,
    wide: bool,
    flags: u32,
    protecting: bool,
    succeeded: bool,
    announced: u32,
    given: bool,
    verdict: Result<(), MirageError>,
    bytes: &[u8],
    length: Result<u32, MirageError>,
)
    requires
        call_ensures(ProtectionScope::machine_wide, (scope,), wide),
        call_ensures(ProtectionScope::flags, (scope,), flags),
        call_ensures(check_answer, (protecting, succeeded, announced, given), verdict),
        call_ensures(blob_length, (bytes,), length),
    ensures
        wide <==> scope == ProtectionScope::LocalMachine,
        flags == if wide {
            5u32
        } else {
            1
        },
        verdict is Ok <==> succeeded && (announced == 0 || given),
        length is Ok ==> length->Ok_0 == bytes@.len(),
        length is Err ==> bytes@.len() > 0xffff_ffff,
{
}

/// A key file is open to the system, the administrators and its user, and to nobody else: the
/// descriptor is protected, has three entries, and the last is the user's.
pub proof fn law_key_files_are_for_their_user(
    sid: &str,
    plan: AclPlan,
    directory: Result<AclPlan, MirageError>,
    identity: Option<&str>,
    system: bool,
)
    requires
        call_ensures(restrict, (sid,), plan),
        call_ensures(restrict_directory_to_system_admins, (true,), directory),
        call_ensures(running_as_local_system, (identity,), system),
    ensures
        begins_with(plan.sddl@, "D:P(A;;FA;;;SY)(A;;FA;;;BA)"@),
        finishes_with(plan.sddl@, "(A;;FA;;;"@ + sid@ + ")"@),
        plan.sddl@.len() == "D:P(A;;FA;;;SY)(A;;FA;;;BA)(A;;FA;;;"@.len() + sid@.len() + 1,
        directory is Ok,
        directory->Ok_0.sddl@ == "D:P(A;OICI;FA;;;SY)(A;OICI;FA;;;BA)"@,
        system <==> identity is Some && identity->Some_0@ == "S-1-5-18"@,
{
    reveal_strlit("D:P(A;;FA;;;SY)(A;;FA;;;BA)(A;;FA;;;");
    reveal_strlit("D:P(A;;FA;;;SY)(A;;FA;;;BA)");
    reveal_strlit("(A;;FA;;;");
    reveal_strlit(")");
    let head = "D:P(A;;FA;;;SY)(A;;FA;;;BA)"@;
    let tail = "(A;;FA;;;"@ + sid@ + ")"@;
    assert(plan.sddl@.take(head.len() as int) =~= head);
    assert(plan.sddl@.skip(plan.sddl@.len() - tail.len()) =~= tail);
}

/// A temporary file is a hidden sibling that holds the name of its file; a free name is taken,
/// and a taken one is tried again fifteen times.
pub proof fn law_temporary_files_are_hidden_siblings(
    name: &str,
    random: &[u8],
    sibling: String,
    attempt: u32,
    taken: bool,
    step: Result<SiblingStep, MirageError>,
    present: bool,
    parent: Result<(), MirageError>,
)
    requires
        call_ensures(sibling_name, (name, random), sibling),
        call_ensures(unique_sibling, (attempt, taken), step),
        call_ensures(require_parent, (present,), parent),
    ensures
        begins_with(sibling@, "."@ + name@ + "."@),
        finishes_with(sibling@, ".tmp"@),
        sibling@.len() == name@.len() + 2 * random@.len() + 6,
        !taken ==> step is Ok && step->Ok_0 == SiblingStep::Take,
        taken && attempt < 15 ==> step is Ok && step->Ok_0 == SiblingStep::Retry,
        taken && attempt >= 15 ==> step is Err,
        parent is Ok <==> present,
{
    reveal_strlit(".");
    reveal_strlit(".tmp");
    let head = "."@ + name@ + "."@;
    assert(sibling@.take(head.len() as int) =~= head);
    assert(sibling@.skip(sibling@.len() - 4) =~= ".tmp"@);
}

/// The secret of a file is its contents without the line ends behind them, and nothing else is
/// taken away.
pub proof fn law_secret_is_the_contents(
    contents: Vec<u8>,
    secret: Result<SecretBuffer, MirageError>,
)
    requires
        call_ensures(read_secret, (contents,), secret),
        contents@.len() > 0,
        contents@.last() != 10 && contents@.last() != 13,
    ensures
        secret is Ok,
        secret->Ok_0@ == contents@,
{
}

/// A line end behind a secret changes nothing.
pub proof fn law_line_ends_behind_a_secret_change_nothing(
    contents: Vec<u8>,
    ended: Vec<u8>,
    secret: Result<SecretBuffer, MirageError>,
    other: Result<SecretBuffer, MirageError>,
    end: u8,
)
    requires
        end == 10 || end == 13,
        ended@ == contents@.push(end),
        call_ensures(read_secret, (contents,), secret),
        call_ensures(read_secret, (ended,), other),
    ensures
        secret is Ok <==> other is Ok,
        secret is Ok ==> secret->Ok_0@ == other->Ok_0@,
{
    assert(ended@.drop_last() =~= contents@);
}

/// A verification holds only if the recovered key is the local one, wherever there is a local
/// one; it never claims authority to write.
pub proof fn law_verification_compares_the_keys(
    inspection: &EnvelopeInspection,
    payload: &RecoveryPayload,
    local: Option<&RepositoryKey>,
    report: Result<VerifyReport, MirageError>,
)
    requires
        call_ensures(conclude_verification, (inspection, payload, local), report),
    ensures
        local is Some && report is Ok ==> payload.content_key is Some
            && payload.content_key->Some_0@ == local->Some_0@,
        local is Some && payload.content_key is Some && payload.content_key->Some_0@
            == local->Some_0@ ==> report is Ok,
        local is None ==> report is Ok,
        report is Ok ==> report->Ok_0.verified && !report->Ok_0.writer_authority_transferred,
        report is Ok ==> (report->Ok_0.complete <==> inspection.kind == EnvelopeKind::Complete),
        report is Ok ==> (report->Ok_0.verification_recorded ==> local is Some),
        report is Ok ==> report->Ok_0.repository_id is Some && report->Ok_0.repository_id->Some_0@
            == hex_text(payload.repository_id@),
        report is Ok && local is None ==> report->Ok_0.content_key_matches_repository is None,
{
}

/// A record of a verification is of the envelope and the key that were verified, and an import
/// reports the parts that are there and no authority.
pub proof fn law_records_are_of_the_payload(
    payload: &RecoveryPayload,
    envelope: &[u8],
    verified_at_ns: i64,
    record: Result<VerifiedRecord, MirageError>,
    imported: ImportReport,
    inspection: &EnvelopeInspection,
    legacy: Option<VerifyReport>,
    named: Option<RepositoryId>,
    found: Option<RepositoryId>,
    expected: Option<RepositoryId>,
)
    requires
        call_ensures(verified_record, (payload, envelope, verified_at_ns), record),
        call_ensures(import_report, (payload,), imported),
        call_ensures(legacy_report, (inspection,), legacy),
        call_ensures(expected_repository, (named, found), expected),
    ensures
        record is Ok <==> payload.content_key is Some,
        record is Ok ==> {
            &&& record->Ok_0.repository_id@ == hex_text(payload.repository_id@)
            &&& record->Ok_0.content_key_blake3@ == hex_text(
                blake3_digest(payload.content_key->Some_0@),
            )
            &&& record->Ok_0.envelope_sha256@ == hex_text(sha256_digest(envelope@))
            &&& record->Ok_0.has_signer_authority == (payload.signer is Some)
            &&& record->Ok_0.verified_at_ns == verified_at_ns
        },
        imported.repository_id@ == hex_text(payload.repository_id@),
        imported.content_key_installed <==> payload.content_key is Some,
        imported.signer_installed <==> payload.signer is Some,
        !imported.writer_authority_transferred,
        legacy is Some <==> inspection.legacy_signer_only,
        legacy is Some ==> !legacy->Some_0.verified && !legacy->Some_0.complete,
        named is Some ==> expected == named,
        named is None ==> expected == found,
{
}

/// What is signed of a transition is of that transition alone: its number, the key that hands
/// over and the key that takes over.
pub proof fn law_transitions_are_signed_as_a_whole(
    sequence: u64,
    old: [u8; 16],
    new: [u8; 32],
    body: Vec<u8>,
    other_sequence: u64,
    other_old: [u8; 16],
    other_new: [u8; 32],
    other_body: Vec<u8>,
)
    requires
        call_ensures(transition_body, (sequence, old, new), body),
        call_ensures(transition_body, (other_sequence, other_old, other_new), other_body),
        body@ == other_body@,
    ensures
        sequence == other_sequence,
        old@ == other_old@,
        new@ == other_new@,
{
    let length = body@.len() as int;
    assert(body@.skip(length - 32) =~= new@);
    assert(other_body@.skip(length - 32) =~= other_new@);
    assert(body@.subrange(length - 48, length - 32) =~= old@);
    assert(other_body@.subrange(length - 48, length - 32) =~= other_old@);
    assert(body@.subrange(length - 56, length - 48) =~= crate::bytes::le64(sequence));
    assert(other_body@.subrange(length - 56, length - 48) =~= crate::bytes::le64(other_sequence));
    crate::bytes::law_le64_is_injective(sequence, other_sequence);
}

} // verus!
