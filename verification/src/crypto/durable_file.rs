//! Names of temporary files for atomic replacement.

use vstd::prelude::*;
use crate::crypto::primitives::{draw_random, is_draw};
use crate::error::{answers, broken, invalid, MirageError, MirageErrorKind};
use crate::text::{hex, hex_text};

verus! {

/// How often a fresh temporary name is tried.
pub const SIBLING_ATTEMPTS: u32 = 16;

/// The hidden sibling of a file, told apart by random bytes.
pub open spec fn sibling_text(name: Seq<char>, random: Seq<u8>) -> Seq<char> {
    "."@ + name + "."@ + hex_text(random) + ".tmp"@
}

/// The temporary name beside a durable file.
pub fn sibling_name(name: &str, random: &[u8]) -> (sibling: String)
    ensures
        sibling@ == sibling_text(name@, random@),
{
    let mut sibling: String = ".".to_owned();
    sibling.append(name);
    sibling.append(".");
    sibling.append(hex(random).as_str());
    sibling.append(".tmp");
    sibling
}

/// A fresh temporary name beside a durable file, told apart by the 8 bytes of one
/// draw of the operating system's randomness. A file whose name is no text has
/// none; otherwise it fails exactly where that draw does.
pub fn draw_sibling(name: Option<&str>) -> (sibling: Result<String, MirageError>)
    ensures
        match name {
            None => answers(sibling, invalid("durable file name is not valid Unicode"@)),
            Some(name) => exists|draw: Result<Vec<u8>, getrandom::Error>|
                #[trigger] is_draw(8, draw) && match draw {
                    Ok(random) => random@.len() == 8 && sibling is Ok && sibling->Ok_0@
                        == sibling_text(name@, random@),
                    Err(_) => answers(sibling, broken("temporary file nonce failed"@)),
                },
        },
{
    let name = match name {
        Some(name) => name,
        None => {
            return Err(MirageError::invalid_argument("durable file name is not valid Unicode"));
        },
    };
    let draw = draw_random(8);
    let ghost seen = draw;
    assert(is_draw(8, seen));
    match &draw {
        Ok(random) => Ok(sibling_name(name, random.as_slice())),
        Err(_) => Err(MirageError::internal_invariant("temporary file nonce failed")),
    }
}

/// Refuses a durable file that stands in no directory.
pub fn require_parent(present: bool) -> (verdict: Result<(), MirageError>)
    ensures
        answers(
            verdict,
            if present {
                None
            } else {
                invalid("durable file has no parent directory"@)
            },
        ),
{
    if present {
        Ok(())
    } else {
        Err(MirageError::invalid_argument("durable file has no parent directory"))
    }
}

/// What to do once a candidate name has been looked up.
#[derive(Debug, Clone, Copy, PartialEq, Eq, Structural)]
pub enum SiblingStep {
    /// The name is free.
    Take,
    /// The name is taken: draw new random bytes.
    Retry,
}

/// Decides on a candidate: a free name is taken, a taken one is tried again
/// until the attempts are used up.
pub fn unique_sibling(attempt: u32, taken: bool) -> (step: Result<SiblingStep, MirageError>)
    ensures
        answers(
            step,
            if taken && attempt + 1 >= SIBLING_ATTEMPTS {
                Some(
                    (
                        MirageErrorKind::RepositoryConflict,
                        "could not allocate a unique durable temporary file"@,
                    ),
                )
            } else {
                None
            },
        ),
        step matches Ok(step) ==> step == if taken {
            SiblingStep::Retry
        } else {
            SiblingStep::Take
        },
{
    if !taken {
        Ok(SiblingStep::Take)
    } else if attempt >= SIBLING_ATTEMPTS - 1 {
        Err(MirageError::repository_conflict("could not allocate a unique durable temporary file"))
    } else {
        Ok(SiblingStep::Retry)
    }
}

/// Two draws of random bytes give the same name only if they are the same.
pub proof fn law_sibling_names_are_distinct(name: Seq<char>, one: Seq<u8>, other: Seq<u8>)
    requires
        one.len() == 8,
        other.len() == 8,
        sibling_text(name, one) == sibling_text(name, other),
    ensures
        one == other,
{
    reveal_strlit(".");
    reveal_strlit(".tmp");
    let first = sibling_text(name, one);
    let second = sibling_text(name, other);
    let start = name.len() + 2;
    assert forall|i: int| 0 <= i < 16 implies #[trigger] hex_text(one)[i] == hex_text(other)[i] by {
        assert(first[start + i] == hex_text(one)[i]);
        assert(second[start + i] == hex_text(other)[i]);
    }
    assert forall|i: int| 0 <= i < 8 implies one[i] == other[i] by {
        assert(hex_text(one)[2 * i] == hex_text(other)[2 * i]);
        assert(hex_text(one)[2 * i + 1] == hex_text(other)[2 * i + 1]);
    }
    assert(one == other);
}

} // verus!
