//! Secret bytes that are wiped when they go out of scope.

use vstd::prelude::*;
use crate::bytes::push_all;
use crate::crypto::primitives::{wipe_buffer, wipe_key};

verus! {

/// The 32 bytes of a secret.
pub struct SecretBytes {
    bytes: [u8; 32],
}

impl View for SecretBytes {
    type V = Seq<u8>;

    closed spec fn view(&self) -> Seq<u8> {
        self.bytes@
    }
}

impl Drop for SecretBytes {
    /// Wipes the secret: none is left in memory that is given back.
    fn drop(&mut self)
        ensures
            final(self)@ == Seq::new(32, |i: int| 0u8),
        opens_invariants none
        no_unwind
    {
        wipe_key(&mut self.bytes);
    }
}

impl SecretBytes {
    pub fn new(bytes: [u8; 32]) -> (secret: SecretBytes)
        ensures
            secret@ == bytes@,
    {
        SecretBytes { bytes }
    }

    pub fn as_bytes(&self) -> (bytes: &[u8; 32])
        ensures
            bytes@ == self@,
    {
        &self.bytes
    }
}

/// Secret bytes of any number.
pub struct SecretBuffer {
    bytes: Vec<u8>,
}

impl View for SecretBuffer {
    type V = Seq<u8>;

    closed spec fn view(&self) -> Seq<u8> {
        self.bytes@
    }
}

impl Drop for SecretBuffer {
    /// Wipes the secret: none is left in memory that is given back.
    fn drop(&mut self)
        ensures
            final(self)@ == Seq::<u8>::empty(),
        opens_invariants none
        no_unwind
    {
        wipe_buffer(&mut self.bytes);
    }
}

impl SecretBuffer {
    /// Holds bytes that are there already.
    pub fn new(bytes: Vec<u8>) -> (secret: SecretBuffer)
        ensures
            secret@ == bytes@,
    {
        SecretBuffer { bytes }
    }

    /// An empty buffer with room for so many bytes, so that they stay in one place.
    pub fn with_capacity(capacity: usize) -> (secret: SecretBuffer)
        ensures
            secret@ == Seq::<u8>::empty(),
    {
        SecretBuffer { bytes: Vec::with_capacity(capacity) }
    }

    /// Puts bytes behind those that are there.
    pub fn append(&mut self, bytes: &[u8])
        ensures
            final(self)@ == old(self)@ + bytes@,
    {
        push_all(&mut self.bytes, bytes);
    }

    /// Takes the last byte away, if there is one.
    pub fn pop(&mut self) -> (last: Option<u8>)
        ensures
            match last {
                Some(last) => old(self)@.len() > 0 && last == old(self)@.last() && final(self)@
                    == old(self)@.drop_last(),
                None => old(self)@.len() == 0 && final(self)@ == old(self)@,
            },
    {
        self.bytes.pop()
    }

    pub fn as_slice(&self) -> (bytes: &[u8])
        ensures
            bytes@ == self@,
    {
        self.bytes.as_slice()
    }
}

} // verus!
