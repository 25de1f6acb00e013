//! Keys, signatures, protected records and recovery envelopes.

use miragessd::cli::recovery as commands;
use miragessd::crypto::aead::RepositoryKey;
use miragessd::crypto::dpapi::{blob_length, check_answer, ProtectionScope};
use miragessd::crypto::durable_file::{
    draw_sibling, require_parent, sibling_name, unique_sibling, SiblingStep,
};
use miragessd::crypto::file_acl::{
    acl_failure, check_sid_length, check_token_size, restrict, restrict_directory_to_system_admins,
    restrict_to_current_user_system_admins, running_as_local_system, LOCAL_SYSTEM_SID,
};
use miragessd::crypto::key_id::derive_key_id;
use miragessd::crypto::key_store;
use miragessd::crypto::repository_key_store;
use miragessd::crypto::key_store::{
    encode_signer_record, parse_signer_record, parse_trust_root, restore_signer,
};
use miragessd::crypto::recovery::{
    export_envelope, export_signer, import_signer, inspect_envelope, open_envelope, seal_envelope,
    seal_signer, transition_body, EnvelopeKind, KeyTransition,
};
use miragessd::crypto::repository_key_store::{
    encode_repository_key, entropy, inspect_repository_key, parse_repository_key,
    restore_repository_key,
};
use miragessd::crypto::secret::{SecretBuffer, SecretBytes};
use miragessd::crypto::signing::{
    RepositorySigner, RepositoryVerifier, SignatureAlgorithm, SignatureEnvelope,
};
use miragessd::error::MirageErrorKind;
use miragessd::ids::RepositoryId;
use miragessd::text::hex;

fn secret() -> Vec<u8> {
    b"correct horse battery staple".to_vec()
}

fn bytes_of(text: &str) -> Vec<u8> {
    (0..text.len() / 2)
        .map(|at| u8::from_str_radix(&text[2 * at..2 * at + 2], 16).unwrap())
        .collect()
}

#[test]
fn envelope_round_trips_content_key_and_signer() {
    let repository = RepositoryId::from_bytes([7_u8; 16]);
    let content = RepositoryKey::generate().unwrap();
    let signer = RepositorySigner::generate().unwrap();
    let envelope = export_envelope(repository, Some(&content), Some(&signer), &secret()).unwrap();
    let inspection = inspect_envelope(&envelope).unwrap();
    assert_eq!(inspection.repository_id, repository);
    assert_eq!(inspection.kind, EnvelopeKind::Complete);
    let payload = open_envelope(&envelope, &secret(), Some(repository)).unwrap();
    assert_eq!(
        payload.content_key.unwrap().secret_bytes().as_bytes(),
        content.secret_bytes().as_bytes()
    );
    assert_eq!(
        payload.signer.unwrap().public_verifier().public_key(),
        signer.public_verifier().public_key()
    );
}

#[test]
fn wrong_secret_wrong_repository_and_tampering_fail() {
    let repository = RepositoryId::from_bytes([9_u8; 16]);
    let content = RepositoryKey::generate().unwrap();
    let envelope = export_envelope(repository, Some(&content), None, &secret()).unwrap();
    assert!(open_envelope(&envelope, b"the wrong secret", Some(repository)).is_err());
    let other = RepositoryId::from_bytes([8_u8; 16]);
    assert!(open_envelope(&envelope, &secret(), Some(other)).is_err());
    let mut truncated = envelope.clone();
    truncated.truncate(truncated.len() - 3);
    assert!(open_envelope(&truncated, &secret(), Some(repository)).is_err());
}

// A key derivation takes seconds, so the tampered byte has a test of its own.
#[test]
fn wrong_secret_wrong_repository_and_tampering_fail_on_a_changed_byte() {
    let repository = RepositoryId::from_bytes([9_u8; 16]);
    let content = RepositoryKey::generate().unwrap();
    let envelope = export_envelope(repository, Some(&content), None, &secret()).unwrap();
    let mut tampered = envelope.clone();
    let last = tampered.len() - 1;
    tampered[last] ^= 1;
    assert!(open_envelope(&tampered, &secret(), Some(repository)).is_err());
}

#[test]
fn signer_only_envelope_is_identified_incomplete() {
    let repository = RepositoryId::from_bytes([3_u8; 16]);
    let signer = RepositorySigner::generate().unwrap();
    let envelope = export_envelope(repository, None, Some(&signer), &secret()).unwrap();
    let inspection = inspect_envelope(&envelope).unwrap();
    assert_eq!(inspection.kind, EnvelopeKind::SignerOnly);
    assert!(!inspection.has_content_key);
    let payload = open_envelope(&envelope, &secret(), Some(repository)).unwrap();
    assert!(payload.content_key.is_none());
    assert!(payload.signer.is_some());
}

#[test]
fn legacy_signer_record_is_reported_not_silently_accepted() {
    let signer = RepositorySigner::generate().unwrap();
    let legacy = export_signer(&signer, &secret()).unwrap();
    let inspection = inspect_envelope(&legacy).unwrap();
    assert!(inspection.legacy_signer_only);
    assert_eq!(inspection.kind, EnvelopeKind::SignerOnly);
    assert!(open_envelope(&legacy, &secret(), None).is_err());
    // The legacy path still works for its original purpose.
    let restored = import_signer(&legacy, &secret()).unwrap();
    assert_eq!(
        restored.public_verifier().public_key(),
        signer.public_verifier().public_key()
    );
}

#[test]
fn empty_envelope_and_weak_secret_are_rejected() {
    let repository = RepositoryId::from_bytes([1_u8; 16]);
    assert!(export_envelope(repository, None, None, &secret()).is_err());
    let content = RepositoryKey::generate().unwrap();
    assert!(export_envelope(repository, Some(&content), None, b"short").is_err());
}

#[test]
fn authenticated_pages_have_unique_nonces_and_reject_tampering() {
    let key = RepositoryKey::generate().expect("key");
    let (nonce1, ciphertext1) = key.seal(b"page", b"repo/pack/frame/hash/4").expect("seal");
    let (nonce2, _) = key.seal(b"page", b"repo/pack/frame/hash/4").expect("seal again");
    assert_ne!(nonce1, nonce2);
    assert_eq!(
        key.open(&nonce1, &ciphertext1, b"repo/pack/frame/hash/4").expect("open"),
        b"page"
    );
    let mut changed = ciphertext1;
    changed[0] ^= 1;
    assert!(key.open(&nonce1, &changed, b"repo/pack/frame/hash/4").is_err());
    assert!(key.open(&nonce1, &changed, b"wrong aad").is_err());
}

#[test]
fn recovery_export_and_signed_rotation_fail_closed() {
    let old = RepositorySigner::generate().expect("old");
    let new = RepositorySigner::generate().expect("new");
    let exported = export_signer(&old, b"correct horse battery").expect("export");
    assert!(import_signer(&exported, b"wrong password here").is_err());
    let recovered = import_signer(&exported, b"correct horse battery").expect("import");
    assert_eq!(recovered.key_id(), old.key_id());
    let transition = KeyTransition::create(2, &old, &new.public_verifier()).expect("transition");
    assert_eq!(
        transition.verify(&old.public_verifier()).expect("verify").public_key(),
        new.public_verifier().public_key()
    );
    assert!(transition.verify(&new.public_verifier()).is_err());
}

#[test]
fn production_signatures_reject_mutation_and_wrong_keys() {
    let signer = RepositorySigner::generate().expect("key");
    let other = RepositorySigner::generate().expect("other key");
    let body = b"canonical commit";
    let envelope = SignatureEnvelope {
        algorithm: SignatureAlgorithm::Ed25519,
        key_id: signer.key_id(),
        signature: signer.sign(body).expect("sign"),
    };
    signer.public_verifier().verify(body, &envelope).expect("verify");
    assert!(signer.public_verifier().verify(b"changed", &envelope).is_err());
    assert!(other.public_verifier().verify(body, &envelope).is_err());
}

#[test]
fn pages_are_sealed_with_the_published_cipher() {
    let key: Vec<u8> = (0x80..0xa0).collect();
    let nonce: Vec<u8> = (0x40..0x58).collect();
    let aad = bytes_of("50515253c0c1c2c3c4c5c6c7");
    let text = b"Ladies and Gentlemen of the class of '99: If I could offer you only one tip for the future, sunscreen would be it.";
    let key = RepositoryKey::from_bytes(key.try_into().unwrap());
    let nonce: [u8; 24] = nonce.try_into().unwrap();
    let sealed = key.seal_with(&nonce, text, &aad).unwrap();
    assert_eq!(
        hex(&sealed),
        "bd6d179d3e83d43b9576579493c0e939572a1700252bfaccbed2902c21396cbb\
         731c7f1b0b4aa6440bf3a82f4eda7e39ae64c6708c54c216cb96b72e1213b452\
         2f8c9ba40db5d945b11b69b982c1bb9e3f3fac2bc369488f76b2383565d3fff9\
         21f9664c97637da9768812f615c68b13b52ec0875924c1c7987947deafd8780acf49"
    );
    assert_eq!(key.open(&nonce, &sealed, &aad).unwrap(), text);
}

#[test]
fn signatures_are_the_published_ones() {
    let secret = bytes_of("9d61b19deffd5a60ba844af492ec2cc44449c5697b326919703bac031cae7f60");
    let signer = RepositorySigner::from_secret(&secret).unwrap();
    assert_eq!(signer.algorithm(), SignatureAlgorithm::Ed25519);
    assert_eq!(signer.secret_bytes().as_bytes().to_vec(), secret);
    assert_eq!(
        hex(&signer.public_verifier().public_key()),
        "d75a980182b10ab7d54bfed3c964073a0ee172f3daa62325af021a68f707511a"
    );
    assert_eq!(
        hex(&signer.sign_array(b"")),
        "e5564300c360ac729086e2cc806e828a84877f1eb8e5d974d873e065224901555\
         fb8821590a33bacc61e39701cf9b46bd25bf5f0595bbe24655141438e7a100b"
    );
    assert_eq!(signer.key_id(), derive_key_id(&signer.public_verifier().public_key()));
}

#[test]
fn signer_secrets_have_thirty_two_bytes() {
    let error = RepositorySigner::from_secret(&[1; 31]).err().unwrap();
    assert_eq!(error.kind, MirageErrorKind::InvalidArgument);
    assert_eq!(error.message, "Ed25519 secret must be 32 bytes");
}

#[test]
fn signatures_of_another_algorithm_or_key_are_refused() {
    let signer = RepositorySigner::generate().unwrap();
    let signature = signer.sign(b"body").unwrap();
    let other_algorithm = SignatureEnvelope {
        algorithm: SignatureAlgorithm::InMemoryTest,
        key_id: signer.key_id(),
        signature: signature.clone(),
    };
    assert!(signer.public_verifier().verify(b"body", &other_algorithm).is_err());
    let other_key = SignatureEnvelope {
        algorithm: SignatureAlgorithm::Ed25519,
        key_id: [0; 16],
        signature: signature.clone(),
    };
    assert!(signer.public_verifier().verify(b"body", &other_key).is_err());
    let short = SignatureEnvelope {
        algorithm: SignatureAlgorithm::Ed25519,
        key_id: signer.key_id(),
        signature: signature[..63].to_vec(),
    };
    assert!(signer.public_verifier().verify(b"body", &short).is_err());
}

#[test]
fn points_off_the_curve_are_no_public_keys() {
    let signer = RepositorySigner::generate().unwrap();
    let public = signer.public_verifier().public_key();
    assert_eq!(RepositoryVerifier::from_public_key(public).unwrap().public_key(), public);
    let refused = (0..=255_u8)
        .filter(|byte| RepositoryVerifier::from_public_key([*byte; 32]).is_err())
        .count();
    assert!(refused > 0);
}

#[test]
fn the_envelope_key_depends_on_the_salt() {
    let repository = RepositoryId::from_bytes([7_u8; 16]);
    let content = RepositoryKey::from_bytes([5; 32]);
    let nonce = [9_u8; 24];
    let one =
        seal_envelope(repository, Some(&content), None, &secret(), &[1; 16], &nonce).unwrap();
    let other =
        seal_envelope(repository, Some(&content), None, &secret(), &[2; 16], &nonce).unwrap();
    assert_eq!(one.len(), other.len());
    assert_eq!(one.len(), 116 + 32 + 16);
    assert_ne!(one[116..148], other[116..148]);
    assert_ne!(&one[116..148], &[5_u8; 32]);
}

#[test]
fn the_signer_record_key_depends_on_the_salt() {
    let signer = RepositorySigner::from_secret(&[6; 32]).unwrap();
    let nonce = [9_u8; 24];
    let one = seal_signer(&signer, &secret(), &[1; 16], &nonce).unwrap();
    let other = seal_signer(&signer, &secret(), &[2; 16], &nonce).unwrap();
    assert_eq!(one.len(), 128);
    assert_ne!(one[80..112], other[80..112]);
    assert_ne!(&one[80..112], &[6_u8; 32]);
    assert_eq!(import_signer(&one, &secret()).unwrap().secret_bytes().as_bytes(), &[6_u8; 32]);
    assert_eq!(
        seal_signer(&signer, b"short", &[1; 16], &nonce).unwrap_err().message,
        "recovery secret must contain at least 12 bytes"
    );
}

#[test]
fn secret_buffers_hold_what_was_put_in() {
    let mut buffer = SecretBuffer::with_capacity(4);
    assert!(buffer.as_slice().is_empty());
    assert_eq!(buffer.pop(), None);
    buffer.append(&[1, 2]);
    buffer.append(&[3]);
    assert_eq!(buffer.pop(), Some(3));
    assert_eq!(buffer.as_slice(), [1, 2]);
    assert_eq!(SecretBuffer::new(vec![9]).as_slice(), [9]);
    assert_eq!(SecretBytes::new([5; 32]).as_bytes(), &[5; 32]);
}

#[test]
fn changed_transitions_are_refused() {
    let old = RepositorySigner::from_secret(&[1; 32]).unwrap();
    let new = RepositorySigner::from_secret(&[2; 32]).unwrap().public_verifier();
    let third = RepositorySigner::from_secret(&[3; 32]).unwrap().public_verifier();
    let transition = KeyTransition::create(2, &old, &new).unwrap();
    let refused = |changed: KeyTransition| {
        changed.verify(&old.public_verifier()).err().unwrap().message
    };
    assert_eq!(
        refused(KeyTransition { sequence: 3, ..transition.clone() }),
        "commit signature verification failed"
    );
    assert_eq!(
        refused(KeyTransition { new_public_key: third.public_key(), ..transition.clone() }),
        "commit signature verification failed"
    );
    assert_eq!(
        refused(KeyTransition { previous_key_id: [0; 16], ..transition.clone() }),
        "commit signer is not trusted"
    );
    assert_ne!(transition_body(1, [0; 16], [0; 32]), transition_body(1 << 32, [0; 16], [0; 32]));
}

#[test]
fn transitions_are_compared_by_their_fields() {
    let old = RepositorySigner::from_secret(&[1; 32]).unwrap();
    let new = RepositorySigner::from_secret(&[2; 32]).unwrap().public_verifier();
    let transition = KeyTransition::create(2, &old, &new).unwrap();
    assert_eq!(transition.clone(), transition);
    assert_ne!(KeyTransition::create(3, &old, &new).unwrap(), transition);
    assert_eq!(transition.verify(&old.public_verifier()).unwrap().public_key(), new.public_key());
    assert_eq!(transition.verify(&new).err().unwrap().message, "commit signer is not trusted");
}

#[test]
fn bytes_behind_an_envelope_are_refused() {
    let repository = RepositoryId::from_bytes([7_u8; 16]);
    let content = RepositoryKey::from_bytes([5; 32]);
    let mut envelope =
        seal_envelope(repository, Some(&content), None, &secret(), &[1; 16], &[2; 24]).unwrap();
    for _ in 0..40 {
        envelope.push(0);
        assert_eq!(
            open_envelope(&envelope, &secret(), Some(repository)).err().unwrap().kind,
            MirageErrorKind::IntegrityMismatch
        );
    }
}

#[test]
fn every_truncation_of_an_envelope_is_refused() {
    let repository = RepositoryId::from_bytes([7_u8; 16]);
    let content = RepositoryKey::from_bytes([5; 32]);
    let envelope =
        seal_envelope(repository, Some(&content), None, &secret(), &[1; 16], &[2; 24]).unwrap();
    for length in 0..envelope.len() {
        assert!(open_envelope(&envelope[..length], &secret(), None).is_err());
    }
    assert!(open_envelope(&envelope, &secret(), None).is_ok());
}

#[test]
fn protected_signer_records_round_trip_and_reject_damage() {
    let signer = RepositorySigner::generate().unwrap();
    let public = signer.public_verifier().public_key();
    let record = encode_signer_record(&public, b"protected bytes").unwrap();
    let parsed = parse_signer_record(&record).unwrap();
    assert_eq!(parsed.public, public);
    assert_eq!(parsed.protected, b"protected bytes");
    assert_eq!(parse_trust_root(&record).unwrap().public_key(), public);
    let restored = restore_signer(&parsed, signer.secret_bytes().as_bytes()).unwrap();
    assert_eq!(restored.key_id(), signer.key_id());
    for length in 0..record.len() {
        assert!(parse_signer_record(&record[..length]).is_err());
    }
    let other = RepositorySigner::generate().unwrap();
    assert_eq!(
        restore_signer(&parsed, other.secret_bytes().as_bytes()).err().unwrap().message,
        "protected key does not match trust record"
    );
    assert!(key_store::require_vacant(false).is_ok());
    assert_eq!(
        key_store::require_vacant(true).unwrap_err().message,
        "key record already exists"
    );
    assert_eq!(
        repository_key_store::require_vacant(true).unwrap_err().message,
        "repository key record already exists"
    );
    let mut damaged = record.clone();
    damaged[0] ^= 1;
    assert!(parse_signer_record(&damaged).is_err());
}

#[test]
fn protected_repository_keys_round_trip_and_are_repository_bound() {
    let repository = RepositoryId::from_bytes([7; 16]);
    let other = RepositoryId::from_bytes([8; 16]);
    let record = encode_repository_key(repository, b"protected").unwrap();
    assert_eq!(inspect_repository_key(&record).unwrap(), repository);
    assert_eq!(parse_repository_key(&record, repository).unwrap(), b"protected");
    assert!(parse_repository_key(&record, other).is_err());
    assert_eq!(restore_repository_key(&[4; 32]).unwrap().secret_bytes().as_bytes(), &[4; 32]);
    assert!(restore_repository_key(&[4; 31]).is_err());
    assert_ne!(entropy(repository), entropy(other));
    assert_eq!(entropy(repository)[32..], [7; 16]);
    assert_ne!(entropy(repository)[..32], [7; 32]);
}

#[test]
fn scopes_say_whether_the_machine_may_read() {
    assert!(ProtectionScope::LocalMachine.machine_wide());
    assert!(!ProtectionScope::CurrentUser.machine_wide());
    assert_eq!(ProtectionScope::CurrentUser.flags(), 1);
    assert_eq!(ProtectionScope::LocalMachine.flags(), 5);
    assert_eq!(blob_length(b"abc").unwrap(), 3);
    assert!(check_answer(true, true, 3, true).is_ok());
    assert_eq!(check_answer(true, false, 0, false).unwrap_err().message, "DPAPI protection failed");
    assert_eq!(check_answer(false, false, 0, false).unwrap_err().message, "DPAPI unprotect failed");
    assert_eq!(
        check_answer(false, true, 3, false).unwrap_err().kind,
        MirageErrorKind::InternalInvariant
    );
}

#[test]
fn temporary_siblings_are_distinct_and_bounded() {
    let one = sibling_name("state.json", &[1, 2, 3, 4, 5, 6, 7, 8]);
    let other = sibling_name("state.json", &[1, 2, 3, 4, 5, 6, 7, 9]);
    assert_ne!(one, other);
    assert!(one.contains("state.json"));
    assert!(one.contains("0102030405060708"));
    let drawn = draw_sibling(Some("state.json")).unwrap();
    assert!(drawn.starts_with(".state.json.") && drawn.ends_with(".tmp"));
    assert_eq!(drawn.len(), 12 + 16 + 4);
    assert_ne!(drawn, draw_sibling(Some("state.json")).unwrap());
    assert_eq!(
        draw_sibling(None).unwrap_err().message,
        "durable file name is not valid Unicode"
    );
    assert!(require_parent(true).is_ok());
    assert!(require_parent(false).is_err());
    assert_eq!(unique_sibling(0, false).unwrap(), SiblingStep::Take);
    assert_eq!(unique_sibling(0, true).unwrap(), SiblingStep::Retry);
    assert_eq!(unique_sibling(1000, true).unwrap_err().kind, MirageErrorKind::RepositoryConflict);
}

#[test]
fn access_plans_name_the_right_trustees() {
    let plan = restrict("S-1-5-21-1");
    assert!(plan.sddl.contains("S-1-5-21-1"));
    assert!(plan.sddl.contains("SY"));
    assert!(plan.sddl.contains("BA"));
    assert_eq!(restrict_to_current_user_system_admins(Some("S-1")).unwrap().sddl, restrict("S-1").sddl);
    assert_eq!(
        restrict_to_current_user_system_admins(None).unwrap_err().kind,
        MirageErrorKind::UnsupportedLayout
    );
    assert!(restrict_directory_to_system_admins(true).is_ok());
    assert!(restrict_directory_to_system_admins(false).is_err());
    assert!(running_as_local_system(Some(LOCAL_SYSTEM_SID)));
    assert!(!running_as_local_system(Some("S-1-5-21-1")));
    assert!(!running_as_local_system(None));
    assert!(check_token_size(0).is_err());
    assert!(check_token_size(65536).is_ok());
    assert!(check_token_size(65537).is_err());
    assert!(check_sid_length(0).is_err());
    assert!(check_sid_length(255).is_ok());
    assert!(check_sid_length(256).is_err());
    assert_eq!(acl_failure(&plan, false).message, "repository key ACL construction failed");
    assert_eq!(acl_failure(&plan, true).message, "repository key ACL application failed");
}

#[test]
fn repository_identities_are_read_and_written_in_hexadecimal() {
    let id = RepositoryId::from_bytes([0xab; 16]);
    assert_eq!(id.to_text(), "ab".repeat(16));
    assert!(RepositoryId::parse(&"AB".repeat(16)).unwrap().same(&id));
    assert!(RepositoryId::parse("ab").is_none());
    assert!(RepositoryId::parse(&"zz".repeat(16)).is_none());
    assert_eq!(id.as_bytes(), &[0xab; 16]);
}

// ---------------------------------------------------------------------------
// Recovery commands
// ---------------------------------------------------------------------------

#[test]
fn exported_keys_are_recovered_whatever_the_line_ends() {
    let repository = RepositoryId::from_bytes([11; 16]);
    let key = RepositoryKey::generate().unwrap();
    let secret = commands::read_secret(b"an honest test secret\r\n".to_vec()).unwrap();
    assert_eq!(secret.as_slice(), b"an honest test secret");
    let (envelope, report) =
        commands::export(repository, &key, None, secret.as_slice(), false).unwrap();
    assert_eq!(report.repository_id, "0b".repeat(16));
    assert!(report.has_content_key);
    assert!(!report.has_signer_authority);
    assert_eq!(report.envelope_sha256, commands::envelope_sha256(&envelope));
    let recovered =
        commands::envelope_content_key(&envelope, b"an honest test secret\n\n".to_vec(), repository)
            .unwrap();
    assert_eq!(recovered.secret_bytes().as_bytes(), key.secret_bytes().as_bytes());
    let other = RepositoryId::from_bytes([12; 16]);
    assert_eq!(
        commands::envelope_content_key(&envelope, secret.as_slice().to_vec(), other)
            .err()
            .unwrap()
            .message,
        "recovery envelope belongs to a different repository"
    );
}

#[test]
fn envelopes_are_never_overwritten() {
    let key = RepositoryKey::generate().unwrap();
    let error =
        commands::export(RepositoryId::from_bytes([11; 16]), &key, None, &secret(), true).err().unwrap();
    assert_eq!(error.kind, MirageErrorKind::RepositoryConflict);
}

#[test]
fn digests_are_the_published_ones() {
    assert_eq!(
        commands::envelope_sha256(b"abc"),
        "ba7816bf8f01cfea414140de5dae2223b00361a396177a9cb410ff61f20015ad"
    );
}

#[test]
fn empty_secret_files_are_refused() {
    for contents in [b"".to_vec(), b"\n".to_vec(), b"\r\n\r\n".to_vec()] {
        assert_eq!(
            commands::read_secret(contents).err().unwrap().message,
            "recovery secret file is empty"
        );
    }
}

#[test]
fn verification_compares_the_recovered_key_with_the_local_one() {
    let repository = RepositoryId::from_bytes([11; 16]);
    let key = RepositoryKey::generate().unwrap();
    let envelope = export_envelope(repository, Some(&key), None, &secret()).unwrap();
    let inspection = inspect_envelope(&envelope).unwrap();
    assert!(commands::legacy_report(&inspection).is_none());
    let payload = open_envelope(&envelope, &secret(), None).unwrap();
    let report = commands::conclude_verification(&inspection, &payload, Some(&key)).unwrap();
    assert!(report.verified && report.complete && report.verification_recorded);
    assert_eq!(report.content_key_matches_repository, Some(true));
    assert!(!report.writer_authority_transferred);
    let unbound = commands::conclude_verification(&inspection, &payload, None).unwrap();
    assert!(!unbound.verification_recorded);
    assert_eq!(unbound.content_key_matches_repository, None);
    let other = RepositoryKey::generate().unwrap();
    assert_eq!(
        commands::conclude_verification(&inspection, &payload, Some(&other)).err().unwrap().message,
        "recovery envelope decrypts a different content key than this repository uses"
    );
    let record = commands::verified_record(&payload, &envelope, 42).unwrap();
    assert_eq!(record.format_version, 1);
    assert_eq!(record.repository_id, "0b".repeat(16));
    assert_eq!(record.verified_at_ns, 42);
    assert_eq!(record.envelope_sha256, commands::envelope_sha256(&envelope));
    assert_eq!(record.content_key_blake3.len(), 64);
    assert_ne!(record.content_key_blake3, hex(key.secret_bytes().as_bytes()));
    let installed = commands::import_report(&payload);
    assert!(installed.content_key_installed && !installed.signer_installed);
    assert!(!installed.writer_authority_transferred);
}

#[test]
fn an_incomplete_envelope_recovers_no_key() {
    let repository = RepositoryId::from_bytes([11; 16]);
    let signer = RepositorySigner::generate().unwrap();
    let envelope = export_envelope(repository, None, Some(&signer), &secret()).unwrap();
    assert_eq!(
        commands::envelope_content_key(&envelope, secret(), repository).err().unwrap().message,
        "recovery envelope has no content key; recovery is incomplete"
    );
}

#[test]
fn an_incomplete_envelope_is_never_recorded_as_verified() {
    let repository = RepositoryId::from_bytes([11; 16]);
    let signer = RepositorySigner::generate().unwrap();
    let envelope = export_envelope(repository, None, Some(&signer), &secret()).unwrap();
    let inspection = inspect_envelope(&envelope).unwrap();
    let payload = open_envelope(&envelope, &secret(), None).unwrap();
    let key = RepositoryKey::generate().unwrap();
    assert!(commands::conclude_verification(&inspection, &payload, Some(&key)).is_err());
    assert!(commands::verified_record(&payload, &envelope, 0).is_err());
    let installed = commands::import_report(&payload);
    assert!(!installed.content_key_installed && installed.signer_installed);
}

#[test]
fn a_signer_record_ends_a_verification_early() {
    let signer = RepositorySigner::generate().unwrap();
    let legacy = export_signer(&signer, &secret()).unwrap();
    let report = commands::legacy_report(&inspect_envelope(&legacy).unwrap()).unwrap();
    assert!(!report.verified && !report.complete);
    assert!(report.reason.unwrap().contains("cannot recover encrypted content"));
}

#[test]
fn a_named_repository_wins_over_the_imported_one() {
    let one = RepositoryId::from_bytes([1; 16]);
    let two = RepositoryId::from_bytes([2; 16]);
    assert_eq!(commands::expected_repository(Some(one), Some(two)), Some(one));
    assert_eq!(commands::expected_repository(None, Some(two)), Some(two));
    assert_eq!(commands::expected_repository(None, None), None);
}
