//! The cryptographic algorithms, as the crates that implement them provide
//! them. Each function here is one call; its contract is taken on trust.

use vstd::prelude::*;

use argon2::{Algorithm, Argon2, Params, Version};
use chacha20poly1305::aead::{Aead, KeyInit, Payload};
use chacha20poly1305::{XChaCha20Poly1305, XNonce};
use ed25519_dalek::{Signature, Signer, SigningKey, Verifier, VerifyingKey};
use sha2::Digest;
use zeroize::Zeroize;

verus! {

/// The error of `getrandom`: the operating system gave no randomness.
#[verifier::external_type_specification]
#[verifier::external_body]
pub struct ExRandomError(getrandom::Error);

/// The error of `chacha20poly1305`.
#[verifier::external_type_specification]
#[verifier::external_body]
pub struct ExAeadError(chacha20poly1305::Error);

/// The error of `argon2`.
#[verifier::external_type_specification]
#[verifier::external_body]
pub struct ExArgon2Error(argon2::Error);

/// The error of `ed25519_dalek`.
#[verifier::external_type_specification]
#[verifier::external_body]
pub struct ExSignatureError(ed25519_dalek::SignatureError);

/// What XChaCha20-Poly1305 encryption gives: the ciphertext with its tag.
pub uninterp spec fn xchacha_sealed(
    key: Seq<u8>,
    nonce: Seq<u8>,
    message: Seq<u8>,
    aad: Seq<u8>,
) -> Seq<u8>;

/// What XChaCha20-Poly1305 decryption gives, if the tag is authentic.
pub uninterp spec fn xchacha_opened(
    key: Seq<u8>,
    nonce: Seq<u8>,
    ciphertext: Seq<u8>,
    aad: Seq<u8>,
) -> Option<Seq<u8>>;

/// The 32 bytes that Argon2id (version 0x13) derives with the given memory
/// cost, iterations and lanes.
pub uninterp spec fn argon2id_derived(
    secret: Seq<u8>,
    salt: Seq<u8>,
    memory_kib: u32,
    iterations: u32,
    lanes: u32,
) -> Seq<u8>;

/// The 32 bytes that Argon2 derives with the default parameters of its crate.
pub uninterp spec fn argon2_default_derived(secret: Seq<u8>, salt: Seq<u8>) -> Seq<u8>;

/// The Ed25519 public key of a secret key.
pub uninterp spec fn ed25519_public(secret: Seq<u8>) -> Seq<u8>;

/// Whether 32 bytes are a public key that `ed25519_dalek` accepts.
pub uninterp spec fn ed25519_accepts(public: Seq<u8>) -> bool;

/// The Ed25519 signature of a message.
pub uninterp spec fn ed25519_signature(secret: Seq<u8>, message: Seq<u8>) -> Seq<u8>;

/// Whether a signature on a message verifies under a public key.
pub uninterp spec fn ed25519_verifies(
    public: Seq<u8>,
    message: Seq<u8>,
    signature: Seq<u8>,
) -> bool;

/// The BLAKE3 digest of some bytes.
pub uninterp spec fn blake3_digest(bytes: Seq<u8>) -> Seq<u8>;

/// The state of a BLAKE3 computation that takes its input piece by piece.
#[verifier::external_type_specification]
#[verifier::external_body]
pub struct ExBlake3Hasher(blake3::Hasher);

/// The bytes that a hasher has taken so far, if it computes the plain digest of
/// them from their start.
pub uninterp spec fn blake3_taken(hasher: blake3::Hasher) -> Option<Seq<u8>>;

/// The byte at a position of the BLAKE3 extended output of some bytes.
pub uninterp spec fn blake3_stream(bytes: Seq<u8>, position: int) -> u8;

/// The SHA-256 digest of some bytes.
pub uninterp spec fn sha256_digest(bytes: Seq<u8>) -> Seq<u8>;

/// `getrandom::fill` on a fresh buffer: as many bytes as asked for. Nothing is
/// claimed of their values.
#[verifier::external_body]
fn os_random(length: usize) -> (random: Result<Vec<u8>, getrandom::Error>)
    ensures
        random matches Ok(bytes) ==> bytes@.len() == length,
{
    let mut bytes = vec![0u8; length];
    getrandom::fill(&mut bytes)?;
    Ok(bytes)
}

/// Whether a value is what one request for so many bytes of the operating system's
/// randomness came back with.
pub closed spec fn is_draw(length: usize, draw: Result<Vec<u8>, getrandom::Error>) -> bool {
    call_ensures(os_random, (length,), draw)
}

/// Requests so many bytes of the operating system's randomness.
pub(crate) fn draw_random(length: usize) -> (draw: Result<Vec<u8>, getrandom::Error>)
    ensures
        is_draw(length, draw),
        draw matches Ok(bytes) ==> bytes@.len() == length,
{
    os_random(length)
}

/// Whether XChaCha20-Poly1305 can be asked to process a message of this length:
/// its keystream reaches to the end, or the length is refused outright. (On the
/// one block between, the stream cipher panics.)
pub open spec fn xchacha_takes(length: nat) -> bool {
    length <= 64 * 0xffff_fffe || length >= 64 * 0xffff_ffff
}

/// `XChaCha20Poly1305::encrypt`: fails only on a message of 2^32 - 1 blocks of
/// 64 bytes or more. The ciphertext is 16 bytes longer than the message, and
/// decryption under the same key, nonce and associated data gives the message
/// back.
#[verifier::external_body]
pub(crate) fn xchacha_seal(key: &[u8; 32], nonce: &[u8; 24], message: &[u8], aad: &[u8]) -> (sealed:
    Result<Vec<u8>, chacha20poly1305::Error>)
    requires
        xchacha_takes(message@.len()),
    ensures
        sealed is Ok <==> message@.len() < 64 * 0xffff_ffff,
        sealed matches Ok(bytes) ==> {
            &&& bytes@ == xchacha_sealed(key@, nonce@, message@, aad@)
            &&& bytes@.len() == message@.len() + 16
            &&& xchacha_opened(key@, nonce@, bytes@, aad@) == Some(message@)
        },
{
    let cipher = XChaCha20Poly1305::new(key.into());
    cipher.encrypt(XNonce::from_slice(nonce), Payload { msg: message, aad })
}

/// `XChaCha20Poly1305::decrypt`: the plaintext is 16 bytes shorter than the
/// ciphertext.
#[verifier::external_body]
pub(crate) fn xchacha_open(
    key: &[u8; 32],
    nonce: &[u8; 24],
    ciphertext: &[u8],
    aad: &[u8],
) -> (opened: Result<Vec<u8>, chacha20poly1305::Error>)
    requires
        ciphertext@.len() >= 16 ==> xchacha_takes((ciphertext@.len() - 16) as nat),
    ensures
        opened is Ok <==> xchacha_opened(key@, nonce@, ciphertext@, aad@) is Some,
        opened matches Ok(bytes) ==> {
            &&& xchacha_opened(key@, nonce@, ciphertext@, aad@) == Some(bytes@)
            &&& bytes@.len() + 16 == ciphertext@.len()
        },
{
    let cipher = XChaCha20Poly1305::new(key.into());
    cipher.decrypt(XNonce::from_slice(nonce), Payload { msg: ciphertext, aad })
}

/// `Argon2::hash_password_into` with Argon2id, version 0x13, and at most 4 GiB of
/// memory: fails only on a password longer than 2^32 - 1 bytes.
#[verifier::external_body]
pub(crate) fn argon2id(
    secret: &[u8],
    salt: &[u8; 16],
    memory_kib: u32,
    iterations: u32,
    lanes: u32,
) -> (derived: Result<[u8; 32], argon2::Error>)
    requires
        1 <= lanes <= 0xffffff,
        8 * lanes <= memory_kib <= 4194304,
        1 <= iterations,
    ensures
        derived is Ok <==> secret@.len() <= 0xffff_ffff,
        derived matches Ok(key) ==> key@ == argon2id_derived(
            secret@,
            salt@,
            memory_kib,
            iterations,
            lanes,
        ),
{
    let params = Params::new(memory_kib, iterations, lanes, Some(32))?;
    let mut key = [0u8; 32];
    Argon2::new(Algorithm::Argon2id, Version::V0x13, params).hash_password_into(secret, salt, &mut key)?;
    Ok(key)
}

/// `Argon2::hash_password_into` with the crate's default parameters: fails only
/// on a password longer than 2^32 - 1 bytes.
#[verifier::external_body]
pub(crate) fn argon2_default(secret: &[u8], salt: &[u8; 16]) -> (derived: Result<
    [u8; 32],
    argon2::Error,
>)
    ensures
        derived is Ok <==> secret@.len() <= 0xffff_ffff,
        derived matches Ok(key) ==> key@ == argon2_default_derived(secret@, salt@),
{
    let mut key = [0u8; 32];
    Argon2::default().hash_password_into(secret, salt, &mut key)?;
    Ok(key)
}

/// `SigningKey::verifying_key`: the public key, which is one that
/// `VerifyingKey::from_bytes` accepts.
#[verifier::external_body]
pub(crate) fn ed25519_public_of(secret: &[u8; 32]) -> (public: [u8; 32])
    ensures
        public@ == ed25519_public(secret@),
        ed25519_accepts(public@),
{
    SigningKey::from_bytes(secret).verifying_key().to_bytes()
}

/// `VerifyingKey::from_bytes`: whether the bytes are the encoding of a public
/// key. The key's own encoding is the bytes it was made from.
#[verifier::external_body]
pub(crate) fn ed25519_accept(public: &[u8; 32]) -> (accepted: Result<
    [u8; 32],
    ed25519_dalek::SignatureError,
>)
    ensures
        accepted is Ok <==> ed25519_accepts(public@),
        accepted matches Ok(key) ==> key@ == public@,
{
    Ok(VerifyingKey::from_bytes(public)?.to_bytes())
}

/// `SigningKey::sign`: a signature that verifies under the signer's own public
/// key.
#[verifier::external_body]
pub(crate) fn ed25519_sign(secret: &[u8; 32], message: &[u8]) -> (signature: [u8; 64])
    ensures
        signature@ == ed25519_signature(secret@, message@),
        ed25519_verifies(ed25519_public(secret@), message@, signature@),
{
    SigningKey::from_bytes(secret).sign(message).to_bytes()
}

/// `VerifyingKey::verify`: whether the signature is one on this message under
/// this public key.
#[verifier::external_body]
pub(crate) fn ed25519_verify(public: &[u8; 32], message: &[u8], signature: &[u8; 64]) -> (verified:
    Result<(), ed25519_dalek::SignatureError>)
    ensures
        verified is Ok <==> ed25519_verifies(public@, message@, signature@),
{
    VerifyingKey::from_bytes(public)?.verify(message, &Signature::from_bytes(signature))
}

/// `blake3::hash`.
#[verifier::external_body]
pub(crate) fn blake3_of(bytes: &[u8]) -> (digest: [u8; 32])
    ensures
        digest@ == blake3_digest(bytes@),
{
    *blake3::hash(bytes).as_bytes()
}

/// `blake3::Hasher::new`: a hasher that has taken nothing yet.
#[verifier::external_body]
pub(crate) fn blake3_start() -> (hasher: blake3::Hasher)
    ensures
        blake3_taken(hasher) == Some(Seq::<u8>::empty()),
{
    blake3::Hasher::new()
}

/// `blake3::Hasher::update`: the bytes are taken behind those taken before. It
/// does not panic.
#[verifier::external_body]
pub(crate) fn blake3_take(hasher: &mut blake3::Hasher, bytes: &[u8])
    requires
        blake3_taken(*old(hasher)) is Some,
        blake3_taken(*old(hasher))->Some_0.len() + bytes@.len() <= u64::MAX,
    ensures
        blake3_taken(*final(hasher)) == Some(blake3_taken(*old(hasher))->Some_0 + bytes@),
    no_unwind
{
    hasher.update(bytes);
}

/// `blake3::Hasher::finalize`: the digest of all bytes taken.
#[verifier::external_body]
pub(crate) fn blake3_finish(hasher: &blake3::Hasher) -> (digest: [u8; 32])
    requires
        blake3_taken(*hasher) is Some,
    ensures
        digest@ == blake3_digest(blake3_taken(*hasher)->Some_0),
{
    *hasher.finalize().as_bytes()
}

/// `blake3::OutputReader::fill`, started at a position: consecutive bytes of the
/// extended output.
#[verifier::external_body]
pub(crate) fn blake3_stream_of(bytes: &[u8], position: u64, length: usize) -> (output: Vec<u8>)
    requires
        position + length <= u64::MAX,
    ensures
        output@ == Seq::new(length as nat, |i: int| blake3_stream(bytes@, position + i)),
{
    let mut output = vec![0u8; length];
    let mut reader = blake3::Hasher::new().update(bytes).finalize_xof();
    reader.set_position(position);
    reader.fill(&mut output);
    output
}

/// `sha2::Sha256::digest`.
#[verifier::external_body]
pub(crate) fn sha256_of(bytes: &[u8]) -> (digest: [u8; 32])
    ensures
        digest@ == sha256_digest(bytes@),
{
    sha2::Sha256::digest(bytes).into()
}

/// `Zeroize::zeroize` on a key: every byte becomes zero. It does not panic.
#[verifier::external_body]
pub(crate) fn wipe_key(key: &mut [u8; 32])
    ensures
        final(key)@ == Seq::new(32, |i: int| 0u8),
    opens_invariants none
    no_unwind
{
    key.zeroize();
}

/// `Zeroize::zeroize` on a buffer: its bytes become zero and it becomes empty. It
/// does not panic.
#[verifier::external_body]
pub(crate) fn wipe_buffer(buffer: &mut Vec<u8>)
    ensures
        final(buffer)@ == Seq::<u8>::empty(),
    opens_invariants none
    no_unwind
{
    buffer.zeroize();
}

/// `Zeroize::zeroize` on a text: its bytes become zero and it becomes empty.
#[verifier::external_body]
pub(crate) fn wipe_text(text: &mut String)
    ensures
        final(text)@ == Seq::<char>::empty(),
{
    text.zeroize();
}

} // verus!
