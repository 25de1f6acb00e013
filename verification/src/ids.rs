//! Identifiers.

use vstd::prelude::*;
use crate::bytes::same_bytes;
use crate::text::{chars_of, hex, hex_digit, hex_digit_value, hex_text, hex_value, is_hex_digit};

verus! {

/// The 16-byte identity of a repository.
#[derive(Debug, Clone, Copy, PartialEq, Eq)]
pub struct RepositoryId {
    pub bytes: [u8; 16],
}

/// Whether a text is made of two hexadecimal digits for each of `count` bytes.
pub open spec fn hex_shaped(text: Seq<char>, count: nat) -> bool {
    text.len() == 2 * count && forall|i: int|
        0 <= i < text.len() ==> is_hex_digit(#[trigger] text[i])
}

/// The bytes that pairs of hexadecimal digits stand for.
pub open spec fn hex_bytes(text: Seq<char>) -> Seq<u8> {
    Seq::new(
        text.len() / 2,
        |i: int| (16 * hex_value(text[2 * i]) + hex_value(text[2 * i + 1])) as u8,
    )
}

/// Reading the rendering of some bytes gives the bytes back.
pub proof fn law_hex_round_trip(bytes: Seq<u8>)
    ensures
        hex_shaped(hex_text(bytes), bytes.len()),
        hex_bytes(hex_text(bytes)) == bytes,
{
    let text = hex_text(bytes);
    assert forall|i: int| 0 <= i < bytes.len() implies hex_bytes(text)[i] == bytes[i] by {
        assert(text[2 * i] == crate::text::hex_char(bytes[i] as int / 16));
        assert(text[2 * i + 1] == crate::text::hex_char(bytes[i] as int % 16));
    }
    assert(hex_bytes(text) =~= bytes);
}

impl View for RepositoryId {
    type V = Seq<u8>;

    open spec fn view(&self) -> Seq<u8> {
        self.bytes@
    }
}

impl RepositoryId {
    pub fn from_bytes(bytes: [u8; 16]) -> (id: RepositoryId)
        ensures
            id@ == bytes@,
    {
        RepositoryId { bytes }
    }

    pub fn as_bytes(&self) -> (bytes: &[u8; 16])
        ensures
            bytes@ == self@,
    {
        &self.bytes
    }

    /// The identity as 32 lower-case hexadecimal digits.
    pub fn to_text(&self) -> (text: String)
        ensures
            text@ == hex_text(self@),
    {
        hex(&self.bytes)
    }

    /// The identity that 32 hexadecimal digits stand for.
    pub fn parse(text: &str) -> (id: Option<RepositoryId>)
        ensures
            match id {
                Some(id) => hex_shaped(text@, 16) && id@ == hex_bytes(text@),
                None => !hex_shaped(text@, 16),
            },
    {
        let chars = chars_of(text);
        if chars.len() != 32 {
            return None;
        }
        let mut bytes: [u8; 16] = [0u8; 16];
        for at in 0..16usize
            invariant
                chars@.len() == 32,
                chars@ == text@,
                forall|i: int| 0 <= i < 2 * at ==> is_hex_digit(#[trigger] text@[i]),
                forall|i: int| 0 <= i < at ==> bytes@[i] == #[trigger] hex_bytes(text@)[i],
        {
            let high = chars[2 * at];
            let low = chars[2 * at + 1];
            if !hex_digit(high) || !hex_digit(low) {
                assert(!is_hex_digit(text@[2 * at]) || !is_hex_digit(text@[2 * at + 1]));
                return None;
            }
            bytes[at] = 16 * hex_digit_value(high) + hex_digit_value(low);
        }
        assert(bytes@ == hex_bytes(text@));
        Some(RepositoryId { bytes })
    }

    /// Whether both name the same repository.
    pub fn same(&self, other: &RepositoryId) -> (same: bool)
        ensures
            same == (self@ == other@),
    {
        same_bytes(&self.bytes, &other.bytes)
    }
}

} // verus!
