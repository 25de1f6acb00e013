//! Exporting, verifying and restoring recovery envelopes.

use vstd::prelude::*;
use crate::bytes::{le16_at, same_bytes};
use crate::crypto::aead::RepositoryKey;
use crate::crypto::primitives::{blake3_digest, blake3_of, sha256_digest, sha256_of};
use crate::crypto::recovery::{
    envelope_plaintext, export_envelope, is_envelope_export, key_view, open_envelope,
    opening_refusal, opens_to, payload_content_key, signer_view, EnvelopeInspection, EnvelopeKind,
    RecoveryPayload,
};
use crate::crypto::secret::SecretBuffer;
use crate::crypto::signing::RepositorySigner;
use crate::error::{answers, broken, conflict, corrupt, invalid, MirageError, Refusal};
use crate::ids::RepositoryId;
use crate::text::{hex, hex_text};

verus! {

/// The durable marker that a recovery envelope was verified against the content
/// key of this repository. Reclaiming the local data of an encrypted repository
/// requires it.
pub const VERIFIED_RECORD: &'static str = "recovery-verified.json";

/// The record of the content key in an import directory.
pub const KEY_RECORD: &'static str = "repository-key.dpapi";

/// The record of the signer in an import directory.
pub const SIGNER_RECORD: &'static str = "repository-signer.dpapi";

// ---------------------------------------------------------------------------
// The secret
// ---------------------------------------------------------------------------

/// Bytes without the line ends behind them.
pub open spec fn without_line_ends(bytes: Seq<u8>) -> Seq<u8>
    decreases bytes.len(),
{
    if bytes.len() > 0 && (bytes.last() == 10 || bytes.last() == 13) {
        without_line_ends(bytes.drop_last())
    } else {
        bytes
    }
}

/// Why the contents of a secret file are refused, if they are.
pub open spec fn secret_refusal(contents: Seq<u8>) -> Refusal {
    if without_line_ends(contents).len() == 0 {
        invalid("recovery secret file is empty"@)
    } else {
        None
    }
}

/// The recovery secret out of the contents of its file: everything but the line
/// ends behind it. It is wiped when it goes out of scope.
pub fn read_secret(contents: Vec<u8>) -> (secret: Result<SecretBuffer, MirageError>)
    ensures
        answers(secret, secret_refusal(contents@)),
        secret matches Ok(secret) ==> secret@ == without_line_ends(contents@),
{
    let mut secret = SecretBuffer::new(contents);
    let mut length: usize = secret.as_slice().len();
    while length > 0 && (secret.as_slice()[length - 1] == 10 || secret.as_slice()[length - 1] == 13)
        invariant
            length == secret@.len(),
            without_line_ends(secret@) == without_line_ends(contents@),
        decreases length,
    {
        secret.pop();
        length = length - 1;
    }
    if length == 0 {
        return Err(MirageError::invalid_argument("recovery secret file is empty"));
    }
    Ok(secret)
}

/// The SHA-256 digest of an envelope, in hexadecimal.
pub fn envelope_sha256(bytes: &[u8]) -> (digest: String)
    ensures
        digest@ == hex_text(sha256_digest(bytes@)),
{
    hex(&sha256_of(bytes))
}

// ---------------------------------------------------------------------------
// Export
// ---------------------------------------------------------------------------

/// What an export reports.
#[derive(Debug)]
pub struct ExportReport {
    pub repository_id: String,
    pub has_content_key: bool,
    pub has_signer_authority: bool,
    pub envelope_sha256: String,
}

/// Exports the content key, and the signer if there is one, as a new envelope. A
/// file that is there already is never overwritten.
pub fn export(
    repository_id: RepositoryId,
    content_key: &RepositoryKey,
    signer: Option<&RepositorySigner>,
    secret: &[u8],
    envelope_exists: bool,
) -> (exported: Result<(Vec<u8>, ExportReport), MirageError>)
    ensures
        exists|envelope: Result<Vec<u8>, MirageError>|
            #[trigger] is_envelope_export(
                envelope,
                repository_id@,
                Some(content_key@),
                signer_view(signer),
                secret@,
            ) && match envelope {
                Err(error) => answers(exported, Some((error.kind, error.message@))),
                Ok(bytes) => if envelope_exists {
                    answers(
                        exported,
                        conflict(
                            "recovery envelope already exists; choose a new path rather than overwriting recovery material"@,
                        ),
                    )
                } else {
                    exported is Ok && exported->Ok_0.0@ == bytes@
                },
            },
        exported matches Ok((bytes, report)) ==> {
            &&& opens_to(
                bytes@,
                secret@,
                repository_id@,
                Some(content_key@),
                signer_view(signer),
            )
            &&& report.repository_id@ == hex_text(repository_id@)
            &&& report.has_content_key
            &&& report.has_signer_authority == signer is Some
            &&& report.envelope_sha256@ == hex_text(sha256_digest(bytes@))
        },
{
    assert(key_view(Some(content_key)) == Some(content_key@));
    let envelope = export_envelope(repository_id, Some(content_key), signer, secret);
    let ghost made = envelope;
    assert(is_envelope_export(
        made,
        repository_id@,
        Some(content_key@),
        signer_view(signer),
        secret@,
    ));
    let bytes = match envelope {
        Ok(bytes) => bytes,
        Err(error) => {
            return Err(error);
        },
    };
    if envelope_exists {
        return Err(
            MirageError::repository_conflict(
                "recovery envelope already exists; choose a new path rather than overwriting recovery material",
            ),
        );
    }
    let report = ExportReport {
        repository_id: repository_id.to_text(),
        has_content_key: true,
        has_signer_authority: signer.is_some(),
        envelope_sha256: envelope_sha256(bytes.as_slice()),
    };
    Ok((bytes, report))
}

// ---------------------------------------------------------------------------
// Verification
// ---------------------------------------------------------------------------

/// What a verification reports. `reason` says why a record cannot be complete.
#[derive(Debug)]
pub struct VerifyReport {
    pub verified: bool,
    pub complete: bool,
    pub reason: Option<&'static str>,
    pub repository_id: Option<String>,
    pub has_content_key: bool,
    pub has_signer_authority: bool,
    pub content_key_matches_repository: Option<bool>,
    pub verification_recorded: bool,
    pub writer_authority_transferred: bool,
}

/// The report on a record that holds signing authority only, which ends the
/// verification before any secret is asked for.
pub fn legacy_report(inspection: &EnvelopeInspection) -> (report: Option<VerifyReport>)
    ensures
        report is Some == inspection.legacy_signer_only,
        report matches Some(report) ==> {
            &&& !report.verified
            &&& !report.complete
            &&& report.reason is Some
            &&& report.reason->Some_0@
                == "legacy signer-only recovery record; it cannot recover encrypted content"@
            &&& report.repository_id is None
            &&& !report.has_content_key
            &&& report.has_signer_authority
            &&& report.content_key_matches_repository is None
            &&& !report.verification_recorded
            &&& !report.writer_authority_transferred
        },
{
    if !inspection.legacy_signer_only {
        return None;
    }
    Some(
        VerifyReport {
            verified: false,
            complete: false,
            reason: Some(
                "legacy signer-only recovery record; it cannot recover encrypted content",
            ),
            repository_id: None,
            has_content_key: false,
            has_signer_authority: true,
            content_key_matches_repository: None,
            verification_recorded: false,
            writer_authority_transferred: false,
        },
    )
}

/// The repository that an envelope has to belong to: the one that is named, or
/// else that of the import.
pub fn expected_repository(named: Option<RepositoryId>, imported: Option<RepositoryId>) -> (expected:
    Option<RepositoryId>)
    ensures
        expected == if named is Some {
            named
        } else {
            imported
        },
{
    match named {
        Some(id) => Some(id),
        None => imported,
    }
}

/// Why a recovered payload is refused against the key of an import, if it is.
pub open spec fn comparison_refusal(
    recovered: Option<Seq<u8>>,
    local: Option<Seq<u8>>,
) -> Refusal {
    match local {
        None => None,
        Some(local) => match recovered {
            None => corrupt("recovery envelope has no content key; recovery is incomplete"@),
            Some(recovered) => if recovered == local {
                None
            } else {
                corrupt(
                    "recovery envelope decrypts a different content key than this repository uses"@,
                )
            },
        },
    }
}

/// Concludes a verification: where an import is given, the recovered key has to
/// be its key. Only then may the verification be recorded.
pub fn conclude_verification(
    inspection: &EnvelopeInspection,
    payload: &RecoveryPayload,
    local: Option<&RepositoryKey>,
) -> (report: Result<VerifyReport, MirageError>)
    ensures
        answers(
            report,
            comparison_refusal(
                match payload.content_key {
                    Some(key) => Some(key@),
                    None => None,
                },
                key_view(local),
            ),
        ),
        report matches Ok(report) ==> {
            &&& report.verified
            &&& report.complete == (inspection.kind == EnvelopeKind::Complete)
            &&& report.reason is None
            &&& report.repository_id is Some
            &&& report.repository_id->Some_0@ == hex_text(payload.repository_id@)
            &&& report.has_content_key == inspection.has_content_key
            &&& report.has_signer_authority == inspection.has_signer
            &&& report.content_key_matches_repository == if local is Some {
                Some(true)
            } else {
                None
            }
            &&& report.verification_recorded == (local is Some && inspection.has_content_key)
            &&& !report.writer_authority_transferred
        },
{
    if let Some(local) = local {
        match &payload.content_key {
            None => {
                return Err(
                    MirageError::integrity_mismatch(
                        "recovery envelope has no content key; recovery is incomplete",
                    ),
                );
            },
            Some(recovered) => {
                let own = recovered.secret_bytes();
                let known = local.secret_bytes();
                if !same_bytes(own.as_bytes(), known.as_bytes()) {
                    return Err(
                        MirageError::integrity_mismatch(
                            "recovery envelope decrypts a different content key than this repository uses",
                        ),
                    );
                }
            },
        }
    }
    Ok(
        VerifyReport {
            verified: true,
            complete: inspection.kind == EnvelopeKind::Complete,
            reason: None,
            repository_id: Some(payload.repository_id.to_text()),
            has_content_key: inspection.has_content_key,
            has_signer_authority: inspection.has_signer,
            content_key_matches_repository: if local.is_some() {
                Some(true)
            } else {
                None
            },
            verification_recorded: local.is_some() && inspection.has_content_key,
            writer_authority_transferred: false,
        },
    )
}

/// The durable record of a verification. It names the key by its digest only.
#[derive(Debug)]
pub struct VerifiedRecord {
    pub format_version: u32,
    pub repository_id: String,
    pub content_key_blake3: String,
    pub has_signer_authority: bool,
    pub envelope_sha256: String,
    pub verified_at_ns: i64,
}

/// The durable record of a verified payload.
pub fn verified_record(payload: &RecoveryPayload, envelope: &[u8], verified_at_ns: i64) -> (record:
    Result<VerifiedRecord, MirageError>)
    ensures
        answers(
            record,
            if payload.content_key is Some {
                None
            } else {
                broken("verified record requires the content key"@)
            },
        ),
        record matches Ok(record) ==> {
            &&& record.format_version == 1
            &&& record.repository_id@ == hex_text(payload.repository_id@)
            &&& record.content_key_blake3@ == hex_text(
                blake3_digest(payload.content_key->Some_0@),
            )
            &&& record.has_signer_authority == payload.signer is Some
            &&& record.envelope_sha256@ == hex_text(sha256_digest(envelope@))
            &&& record.verified_at_ns == verified_at_ns
        },
{
    match &payload.content_key {
        None => Err(MirageError::internal_invariant("verified record requires the content key")),
        Some(key) => {
            let secret = key.secret_bytes();
            Ok(
                VerifiedRecord {
                    format_version: 1,
                    repository_id: payload.repository_id.to_text(),
                    content_key_blake3: hex(&blake3_of(secret.as_bytes())),
                    has_signer_authority: payload.signer.is_some(),
                    envelope_sha256: envelope_sha256(envelope),
                    verified_at_ns,
                },
            )
        },
    }
}

// ---------------------------------------------------------------------------
// Import
// ---------------------------------------------------------------------------

/// What an import installs. A restored machine can read the content; to resume
/// writing is a separate, deliberate operation.
#[derive(Debug)]
pub struct ImportReport {
    pub repository_id: String,
    pub content_key_installed: bool,
    pub signer_installed: bool,
    pub writer_authority_transferred: bool,
}

/// What the import of a payload installs: each part that is there.
pub fn import_report(payload: &RecoveryPayload) -> (report: ImportReport)
    ensures
        report.repository_id@ == hex_text(payload.repository_id@),
        report.content_key_installed == payload.content_key is Some,
        report.signer_installed == payload.signer is Some,
        !report.writer_authority_transferred,
{
    ImportReport {
        repository_id: payload.repository_id.to_text(),
        content_key_installed: payload.content_key.is_some(),
        signer_installed: payload.signer.is_some(),
        writer_authority_transferred: false,
    }
}

/// Why an envelope gives no content key for a repository, if it gives none.
pub open spec fn content_key_refusal(
    bytes: Seq<u8>,
    secret_contents: Seq<u8>,
    expected: Seq<u8>,
) -> Refusal {
    let secret = without_line_ends(secret_contents);
    match secret_refusal(secret_contents) {
        Some(refusal) => Some(refusal),
        None => match opening_refusal(bytes, secret, Some(expected)) {
            Some(refusal) => Some(refusal),
            None => if recovered_key(bytes, secret) is None {
                corrupt("recovery envelope has no content key; recovery is incomplete"@)
            } else {
                None
            },
        },
    }
}

/// The content key that an envelope holds.
pub open spec fn recovered_key(bytes: Seq<u8>, secret: Seq<u8>) -> Option<Seq<u8>> {
    payload_content_key(le16_at(bytes, 10), envelope_plaintext(bytes, secret)->Some_0)
}

/// Opens an envelope and gives its content key, which has to be there and to be
/// bound to the expected repository.
pub fn envelope_content_key(bytes: &[u8], secret_contents: Vec<u8>, expected: RepositoryId) -> (key:
    Result<RepositoryKey, MirageError>)
    ensures
        answers(key, content_key_refusal(bytes@, secret_contents@, expected@)),
        key matches Ok(key) ==> Some(key@) == recovered_key(
            bytes@,
            without_line_ends(secret_contents@),
        ),
{
    let secret = read_secret(secret_contents)?;
    let payload = open_envelope(bytes, secret.as_slice(), Some(expected))?;
    match payload.content_key {
        Some(key) => Ok(key),
        None => Err(
            MirageError::integrity_mismatch(
                "recovery envelope has no content key; recovery is incomplete",
            ),
        ),
    }
}

/// What an export wrote, `envelope_content_key` reads back: the same content key,
/// with the same secret, whatever line ends the secret file has. It does so for
/// the repository that the envelope was exported for, and for no other.
pub proof fn law_exported_key_is_recovered(
    bytes: Seq<u8>,
    secret_contents: Seq<u8>,
    repository_id: Seq<u8>,
    content_key: Seq<u8>,
    signer: Option<Seq<u8>>,
    other: Seq<u8>,
)
    requires
        opens_to(
            bytes,
            without_line_ends(secret_contents),
            repository_id,
            Some(content_key),
            signer,
        ),
        secret_refusal(secret_contents) is None,
        other != repository_id,
    ensures
        content_key_refusal(bytes, secret_contents, repository_id) is None,
        recovered_key(bytes, without_line_ends(secret_contents)) == Some(content_key),
        content_key_refusal(bytes, secret_contents, other) == corrupt(
            "recovery envelope belongs to a different repository"@,
        ),
{
}

} // verus!
