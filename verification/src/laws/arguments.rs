//! How options and lists of arguments belong together.

use vstd::prelude::*;

verus! {

/// The value stands behind the flag at a place.
pub open spec fn stands_at(
    arguments: Seq<Seq<char>>,
    at: int,
    flag: Seq<char>,
    value: Seq<char>,
) -> bool {
    1 <= at < arguments.len() && arguments[at - 1] == flag && arguments[at] == value
}

/// Somewhere the value stands behind the flag.
pub open spec fn carries(arguments: Seq<Seq<char>>, flag: Seq<char>, value: Seq<char>) -> bool {
    exists|at: int| #[trigger] stands_at(arguments, at, flag, value)
}

/// Two lists of arguments differ in one place at most: there each has its own value
/// behind the flag.
pub open spec fn told_apart_by(
    one: Seq<Seq<char>>,
    other: Seq<Seq<char>>,
    flag: Seq<char>,
    value: Seq<char>,
    other_value: Seq<char>,
) -> bool {
    exists|at: int| #[trigger]
        stands_at(one, at, flag, value) && other == one.update(at, other_value)
}

/// A value that stands behind a flag is carried.
pub proof fn lemma_carries(
    arguments: Seq<Seq<char>>,
    at: int,
    flag: Seq<char>,
    value: Seq<char>,
)
    requires
        1 <= at < arguments.len(),
        arguments[at - 1] == flag,
        arguments[at] == value,
    ensures
        carries(arguments, flag, value),
{
    assert(stands_at(arguments, at, flag, value));
}

} // verus!
