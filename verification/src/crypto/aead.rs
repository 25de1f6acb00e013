//! Authenticated encryption of repository pages.

use vstd::prelude::*;
use crate::bytes::{array24, array32};
use crate::crypto::primitives::{
    draw_random, is_draw, wipe_buffer, wipe_key, xchacha_open, xchacha_opened, xchacha_seal,
    xchacha_sealed, xchacha_takes,
};
use crate::crypto::secret::SecretBytes;
use crate::error::{answers, broken, corrupt, fails_with, MirageError, MirageErrorKind};

verus! {

pub const NONCE_LENGTH: usize = 24;

/// The content key of a repository.
pub struct RepositoryKey {
    secret: [u8; 32],
}

impl View for RepositoryKey {
    type V = Seq<u8>;

    closed spec fn view(&self) -> Seq<u8> {
        self.secret@
    }
}

impl Drop for RepositoryKey {
    /// Wipes the secret: none is left in memory that is given back.
    fn drop(&mut self)
        ensures
            final(self)@ == Seq::new(32, |i: int| 0u8),
        opens_invariants none
        no_unwind
    {
        wipe_key(&mut self.secret);
    }
}

impl RepositoryKey {
    /// A key of the 32 bytes of one draw of the operating system's randomness. It
    /// fails exactly where that draw does.
    pub fn generate() -> (key: Result<RepositoryKey, MirageError>)
        ensures
            exists|draw: Result<Vec<u8>, getrandom::Error>|
                #[trigger] is_draw(32, draw) && match draw {
                    Ok(random) => random@.len() == 32 && key is Ok && key->Ok_0@ == random@,
                    Err(_) => answers(key, broken("OS randomness unavailable"@)),
                },
    {
        let draw = draw_random(32);
        let ghost seen = draw;
        let key = match draw {
            Ok(random) => {
                let mut random = random;
                let key = RepositoryKey::from_bytes(array32(random.as_slice(), 0));
                wipe_buffer(&mut random);
                Ok(key)
            },
            Err(_) => Err(MirageError::internal_invariant("OS randomness unavailable")),
        };
        proof {
            if let Ok(random) = seen {
                assert(random@.subrange(0, 32) == random@);
            }
            assert(is_draw(32, seen));
        }
        key
    }

    pub fn from_bytes(bytes: [u8; 32]) -> (key: RepositoryKey)
        ensures
            key@ == bytes@,
    {
        RepositoryKey { secret: bytes }
    }

    /// A copy of the secret, which is wiped when it goes out of scope.
    pub fn secret_bytes(&self) -> (bytes: SecretBytes)
        ensures
            bytes@ == self@,
    {
        SecretBytes::new(self.secret)
    }

    /// Encrypts a page under a given nonce.
    pub fn seal_with(&self, nonce: &[u8; 24], plaintext: &[u8], aad: &[u8]) -> (sealed: Result<
        Vec<u8>,
        MirageError,
    >)
        requires
            xchacha_takes(plaintext@.len()),
        ensures
            if plaintext@.len() < 64 * 0xffff_ffff {
                &&& sealed is Ok
                &&& sealed->Ok_0@ == xchacha_sealed(self@, nonce@, plaintext@, aad@)
                &&& sealed->Ok_0@.len() == plaintext@.len() + 16
                &&& xchacha_opened(self@, nonce@, sealed->Ok_0@, aad@) == Some(plaintext@)
            } else {
                fails_with(
                    sealed,
                    MirageErrorKind::InternalInvariant,
                    "page encryption failed"@,
                )
            },
    {
        match xchacha_seal(&self.secret, nonce, plaintext, aad) {
            Ok(ciphertext) => Ok(ciphertext),
            Err(_) => Err(MirageError::internal_invariant("page encryption failed")),
        }
    }

    /// Encrypts a page under a nonce of the 24 bytes of one draw of the operating
    /// system's randomness. What `open` gives for the nonce, the ciphertext and
    /// the same associated data is the page.
    pub fn seal(&self, plaintext: &[u8], aad: &[u8]) -> (sealed: Result<
        ([u8; NONCE_LENGTH], Vec<u8>),
        MirageError,
    >)
        requires
            xchacha_takes(plaintext@.len()),
        ensures
            exists|draw: Result<Vec<u8>, getrandom::Error>|
                #[trigger] is_draw(24, draw) && match draw {
                    Ok(random) => if plaintext@.len() < 64 * 0xffff_ffff {
                        &&& sealed is Ok
                        &&& sealed->Ok_0.0@ == random@
                    } else {
                        answers(sealed, broken("page encryption failed"@))
                    },
                    Err(_) => answers(sealed, broken("OS randomness unavailable"@)),
                },
            sealed matches Ok((nonce, ciphertext)) ==> {
                &&& ciphertext@ == xchacha_sealed(self@, nonce@, plaintext@, aad@)
                &&& ciphertext@.len() == plaintext@.len() + 16
                &&& xchacha_opened(self@, nonce@, ciphertext@, aad@) == Some(plaintext@)
            },
    {
        let draw = draw_random(24);
        let ghost seen = draw;
        assert(is_draw(24, seen));
        let nonce: [u8; 24] = match &draw {
            Ok(random) => array24(random.as_slice(), 0),
            Err(_) => {
                return Err(MirageError::internal_invariant("OS randomness unavailable"));
            },
        };
        assert(nonce@ == seen->Ok_0@);
        match self.seal_with(&nonce, plaintext, aad) {
            Ok(ciphertext) => Ok((nonce, ciphertext)),
            Err(error) => Err(error),
        }
    }

    /// Decrypts a page, if it was sealed under this key, nonce and associated
    /// data.
    pub fn open(&self, nonce: &[u8; NONCE_LENGTH], ciphertext: &[u8], aad: &[u8]) -> (opened: Result<
        Vec<u8>,
        MirageError,
    >)
        requires
            ciphertext@.len() >= 16 ==> xchacha_takes((ciphertext@.len() - 16) as nat),
        ensures
            match xchacha_opened(self@, nonce@, ciphertext@, aad@) {
                Some(plaintext) => opened is Ok && opened->Ok_0@ == plaintext,
                None => answers(opened, corrupt("encrypted page authentication failed"@)),
            },
    {
        match xchacha_open(&self.secret, nonce, ciphertext, aad) {
            Ok(plaintext) => Ok(plaintext),
            Err(_) => Err(MirageError::integrity_mismatch("encrypted page authentication failed")),
        }
    }
}

} // verus!
