//! The first component of a path, the paths that are nothing but a root, and paths
//! below a verbatim directory.

use vstd::prelude::*;
use crate::config::validate::{is_windows_separator, windows_separator, PathPolicy};
use crate::text::{
    alphabetic, append_texts, begins_with, chars_of, has_prefix, is_alphabetic, new_texts, pieces,
    push_text, same_text, split_text, string_of, texts,
};

verus! {

/// The primary path separator of a platform.
pub open spec fn separator_of(policy: PathPolicy) -> char {
    match policy {
        PathPolicy::Windows => '\\',
        PathPolicy::Unix => '/',
    }
}

/// The primary path separator of a platform.
pub fn policy_separator(policy: PathPolicy) -> (separator: char)
    ensures
        separator == separator_of(policy),
{
    match policy {
        PathPolicy::Windows => '\\',
        PathPolicy::Unix => '/',
    }
}

/// Where the run of characters other than `a` and `b` ends that starts at a
/// place.
pub open spec fn run_end(path: Seq<char>, from: int, a: char, b: char) -> int
    decreases path.len() - from,
{
    if from < 0 || from >= path.len() || path[from] == a || path[from] == b {
        from
    } else {
        run_end(path, from + 1, a, b)
    }
}

/// The place behind the separator at a place, if there is one.
pub open spec fn behind(path: Seq<char>, end: int) -> int {
    if end < path.len() {
        end + 1
    } else {
        path.len() as int
    }
}

/// Where a share `server\share` that starts at a place ends, if both its parts
/// are there.
pub open spec fn share_end(path: Seq<char>, from: int, a: char, b: char) -> Option<int> {
    let server = run_end(path, from, a, b);
    let share = run_end(path, behind(path, server), a, b);
    if server > from && share > behind(path, server) {
        Some(share)
    } else {
        None
    }
}

/// Whether a Windows path is a verbatim one.
pub open spec fn verbatim(path: Seq<char>) -> bool {
    begins_with(path, "\\\\?\\"@)
}

/// Whether exactly a drive such as `C:` stands behind `\\?\`: the path ends there,
/// or either separator follows.
pub open spec fn verbatim_drive(path: Seq<char>) -> bool {
    path.len() >= 6 && is_alphabetic(path[4]) && path[5] == ':' && (path.len() == 6
        || windows_separator(path[6]))
}

/// Where the prefix of a verbatim path ends, which starts with `\\?\` and knows
/// only one separator. It is a share `\\?\UNC\server\share`, either part of which
/// may be empty, a drive `\\?\C:`, or one component more.
pub open spec fn verbatim_end(path: Seq<char>) -> int {
    if path.len() >= 8 && path.subrange(4, 7) == "UNC"@ && windows_separator(path[7]) {
        let server = run_end(path, 8, '\\', '\\');
        let share = run_end(path, behind(path, server), '\\', '\\');
        if share > behind(path, server) {
            share
        } else {
            server
        }
    } else if verbatim_drive(path) {
        6
    } else {
        run_end(path, 4, '\\', '\\')
    }
}

/// How many characters the prefix of a Windows path has: a drive such as `C:`, a
/// share such as `\\server\share`, a device such as `\\.\COM1`, or a verbatim
/// prefix such as `\\?\C:`. Other paths have none.
pub open spec fn prefix_length(path: Seq<char>) -> int {
    if path.len() >= 2 && is_alphabetic(path[0]) && path[1] == ':' {
        2
    } else if path.len() < 2 || !windows_separator(path[0]) || !windows_separator(path[1]) {
        0
    } else if verbatim(path) {
        verbatim_end(path)
    } else if path.len() >= 4 && path[2] == '.' && windows_separator(path[3]) {
        run_end(path, 4, '\\', '/')
    } else {
        match share_end(path, 2, '\\', '/') {
            Some(end) => end,
            None => 0,
        }
    }
}

/// The first component of a path: its prefix, its root, or its first name. Only
/// the empty path has none.
pub open spec fn first_component(path: Seq<char>, policy: PathPolicy) -> Option<Seq<char>> {
    if path.len() == 0 {
        None
    } else {
        match policy {
            PathPolicy::Windows => if prefix_length(path) > 0 {
                Some(path.take(prefix_length(path)))
            } else if windows_separator(path[0]) {
                Some("\\"@)
            } else {
                Some(path.take(run_end(path, 0, '\\', '/')))
            },
            PathPolicy::Unix => if path[0] == '/' {
                Some("/"@)
            } else {
                Some(path.take(run_end(path, 0, '/', '/')))
            },
        }
    }
}

fn find_run_end(chars: &Vec<char>, from: usize, a: char, b: char) -> (end: usize)
    requires
        from <= chars@.len(),
    ensures
        end == run_end(chars@, from as int, a, b),
        from <= end <= chars@.len(),
{
    let mut at: usize = from;
    while at < chars.len() && chars[at] != a && chars[at] != b
        invariant
            from <= at <= chars@.len(),
            run_end(chars@, from as int, a, b) == run_end(chars@, at as int, a, b),
        decreases chars@.len() - at,
    {
        at = at + 1;
    }
    at
}

fn step_behind(chars: &Vec<char>, end: usize) -> (next: usize)
    ensures
        next == behind(chars@, end as int),
        next <= chars@.len(),
{
    if end < chars.len() {
        end + 1
    } else {
        chars.len()
    }
}

fn find_verbatim_end(chars: &Vec<char>) -> (end: usize)
    requires
        chars@.len() >= 4,
    ensures
        end == verbatim_end(chars@),
        end <= chars@.len(),
{
    let long = chars.len() >= 8 && same_text(string_of(chars, 4, 7).as_str(), "UNC")
        && is_windows_separator(chars[7]);
    if !long {
        if chars.len() >= 6 && alphabetic(chars[4]) && chars[5] == ':' && (chars.len() == 6
            || is_windows_separator(chars[6])) {
            return 6;
        }
        return find_run_end(chars, 4, '\\', '\\');
    }
    let server: usize = find_run_end(chars, 8, '\\', '\\');
    let next: usize = step_behind(chars, server);
    let share: usize = find_run_end(chars, next, '\\', '\\');
    if share > next {
        share
    } else {
        server
    }
}

fn find_prefix(path: &str, chars: &Vec<char>) -> (length: usize)
    requires
        chars@ == path@,
    ensures
        length == prefix_length(path@),
        length <= chars@.len(),
{
    let length: usize = chars.len();
    if length >= 2 && alphabetic(chars[0]) && chars[1] == ':' {
        return 2;
    }
    if length < 2 || !is_windows_separator(chars[0]) || !is_windows_separator(chars[1]) {
        return 0;
    }
    if has_prefix(path, "\\\\?\\") {
        proof {
            reveal_strlit("\\\\?\\");
        }
        return find_verbatim_end(chars);
    }
    if length >= 4 && chars[2] == '.' && is_windows_separator(chars[3]) {
        return find_run_end(chars, 4, '\\', '/');
    }
    let server: usize = find_run_end(chars, 2, '\\', '/');
    let next: usize = step_behind(chars, server);
    let share: usize = find_run_end(chars, next, '\\', '/');
    if server > 2 && share > next {
        share
    } else {
        0
    }
}

/// Finds the first component of a path.
pub fn leading_component(path: &str, policy: PathPolicy) -> (component: Option<String>)
    ensures
        match component {
            Some(component) => first_component(path@, policy) == Some(component@),
            None => first_component(path@, policy) is None,
        },
{
    let chars = chars_of(path);
    if chars.len() == 0 {
        return None;
    }
    let end: usize = match policy {
        PathPolicy::Windows => {
            let prefix: usize = find_prefix(path, &chars);
            if prefix == 0 && is_windows_separator(chars[0]) {
                return Some("\\".to_owned());
            }
            if prefix > 0 {
                prefix
            } else {
                find_run_end(&chars, 0, '\\', '/')
            }
        },
        PathPolicy::Unix => {
            if chars[0] == '/' {
                return Some("/".to_owned());
            }
            find_run_end(&chars, 0, '/', '/')
        },
    };
    assert(path@.take(end as int) == path@.subrange(0, end as int));
    Some(string_of(&chars, 0, end))
}

/// What is left of some components once those that lead nowhere are dropped and
/// each `..` has taken the one before it away.
pub open spec fn settled(components: Seq<Seq<char>>) -> Seq<Seq<char>>
    decreases components.len(),
{
    if components.len() == 0 {
        Seq::empty()
    } else {
        let before = settled(components.drop_last());
        if stays(components.last()) {
            before
        } else if components.last() != ".."@ {
            before.push(components.last())
        } else if before.len() > 0 {
            before.drop_last()
        } else {
            before
        }
    }
}

/// A path with components behind it, each behind a separator.
pub open spec fn followed_by(path: Seq<char>, components: Seq<Seq<char>>) -> Seq<char>
    decreases components.len(),
{
    if components.len() == 0 {
        path
    } else {
        followed_by(path, components.drop_last()) + "\\"@ + components.last()
    }
}

/// The components of a verbatim directory behind its prefix, which only `\` parts
/// once the root is passed, and those of a relative name, which either separator
/// parts, without `.` and `..`.
pub open spec fn verbatim_components(directory: Seq<char>, name: Seq<char>) -> Seq<Seq<char>> {
    let rest = directory.skip(prefix_length(directory));
    let inner = if rest.len() > 0 && windows_separator(rest[0]) {
        rest.skip(1)
    } else {
        rest
    };
    settled(pieces(inner, '\\', '\\') + pieces(name, '\\', '/'))
}

/// A relative name below a verbatim directory: the path is put in order, and no
/// reference to `.` or `..` is left in it.
pub open spec fn verbatim_below(directory: Seq<char>, name: Seq<char>) -> Seq<char> {
    let prefix = directory.take(prefix_length(directory));
    let components = verbatim_components(directory, name);
    if components.len() == 0 && prefix.len() < directory.len() && windows_separator(
        directory[prefix.len() as int],
    ) {
        prefix + "\\"@
    } else {
        followed_by(prefix, components)
    }
}

proof fn lemma_settled_push(head: Seq<Seq<char>>, next: Seq<char>)
    ensures
        settled(head.push(next)) == if stays(next) {
            settled(head)
        } else if next != ".."@ {
            settled(head).push(next)
        } else if settled(head).len() > 0 {
            settled(head).drop_last()
        } else {
            settled(head)
        },
{
    assert(head.push(next).drop_last() == head);
    assert(head.push(next).last() == next);
}

fn settle(parts: &Vec<String>) -> (all: Vec<String>)
    ensures
        texts(all@) == settled(texts(parts@)),
{
    let mut all = new_texts();
    let length: usize = parts.len();
    assert(texts(parts@).take(0) == Seq::<Seq<char>>::empty());
    for at in 0..length
        invariant
            length == parts@.len(),
            texts(all@) == settled(texts(parts@).take(at as int)),
    {
        let ghost head = texts(parts@).take(at as int);
        let ghost before = texts(all@);
        let part = parts[at].as_str();
        proof {
            assert(texts(parts@).take(at + 1) == head.push(part@));
            lemma_settled_push(head, part@);
        }
        let still = part.is_empty() || same_text(part, ".");
        if !still {
            if same_text(part, "..") {
                let taken = all.pop();
                proof {
                    if taken is Some {
                        assert(texts(all@) == before.drop_last());
                    } else {
                        assert(texts(all@) == before);
                    }
                }
            } else {
                push_text(&mut all, part);
            }
        }
    }
    assert(texts(parts@).take(length as int) == texts(parts@));
    all
}

/// A relative name below a verbatim directory.
pub fn join_verbatim(directory: &str, name: &str) -> (path: String)
    ensures
        path@ == verbatim_below(directory@, name@),
{
    let chars = chars_of(directory);
    let prefix: usize = find_prefix(directory, &chars);
    let rooted = prefix < chars.len() && is_windows_separator(chars[prefix]);
    let start: usize = if rooted {
        prefix + 1
    } else {
        prefix
    };
    let inner = string_of(&chars, start, chars.len());
    proof {
        let rest = directory@.skip(prefix as int);
        if rooted {
            assert(rest[0] == directory@[prefix as int]);
            assert(rest.skip(1) == directory@.subrange(start as int, chars@.len() as int));
        } else {
            if rest.len() > 0 {
                assert(rest[0] == directory@[prefix as int]);
            }
            assert(rest == directory@.subrange(start as int, chars@.len() as int));
        }
        assert(directory@.take(prefix as int) == directory@.subrange(0, prefix as int));
    }
    let mut parts = split_text(inner.as_str(), '\\', '\\');
    append_texts(&mut parts, &split_text(name, '\\', '/'));
    let components = settle(&parts);
    let mut path = string_of(&chars, 0, prefix);
    let ghost head = path@;
    let length: usize = components.len();
    if length == 0 && rooted {
        path.append("\\");
        return path;
    }
    assert(texts(components@).take(0) == Seq::<Seq<char>>::empty());
    for at in 0..length
        invariant
            length == components@.len(),
            path@ == followed_by(head, texts(components@).take(at as int)),
    {
        proof {
            let next = texts(components@).take(at + 1);
            assert(next.drop_last() == texts(components@).take(at as int));
            assert(next.last() == components@[at as int]@);
        }
        path.append("\\");
        path.append(components[at].as_str());
    }
    assert(texts(components@).take(length as int) == texts(components@));
    path
}

/// Whether a Unix path has no parent: it is empty, or starts at the root and
/// goes nowhere from there.
pub open spec fn without_parent(path: Seq<char>) -> bool {
    path.len() == 0 || path[0] == '/' && forall|i: int|
        0 <= i < pieces(path, '/', '/').len() ==> stays(#[trigger] pieces(path, '/', '/')[i])
}

/// Whether a component leads nowhere.
pub open spec fn stays(component: Seq<char>) -> bool {
    component.len() == 0 || component == "."@
}

/// Whether a Unix path has no parent.
pub fn lacks_parent(path: &str) -> (yes: bool)
    ensures
        yes == without_parent(path@),
{
    let chars = chars_of(path);
    if chars.len() == 0 {
        return true;
    }
    if chars[0] != '/' {
        return false;
    }
    let parts = split_text(path, '/', '/');
    let length: usize = parts.len();
    for at in 0..length
        invariant
            length == parts@.len(),
            texts(parts@) == pieces(path@, '/', '/'),
            path@.len() > 0,
            forall|i: int| 0 <= i < at ==> stays(#[trigger] pieces(path@, '/', '/')[i]),
    {
        assert(texts(parts@)[at as int] == parts@[at as int]@);
        let here = chars_of(parts[at].as_str()).len() == 0 || same_text(parts[at].as_str(), ".");
        if !here {
            assert(!stays(pieces(path@, '/', '/')[at as int]));
            return false;
        }
    }
    true
}

proof fn lemma_settled_stays_away(components: Seq<Seq<char>>)
    ensures
        forall|i: int|
            0 <= i < settled(components).len() ==> !stays(#[trigger] settled(components)[i])
                && settled(components)[i] != ".."@,
    decreases components.len(),
{
    if components.len() > 0 {
        lemma_settled_stays_away(components.drop_last());
        let before = settled(components.drop_last());
        let after = settled(components);
        assert forall|i: int| 0 <= i < after.len() implies !stays(#[trigger] after[i]) && after[i]
            != ".."@ by {
            if i < before.len() {
                assert(after[i] == before[i]);
            }
        }
    }
}

/// No component behind the prefix of what is put below a verbatim directory is
/// empty, `.` or `..`.
pub proof fn law_verbatim_paths_are_in_order(directory: Seq<char>, name: Seq<char>)
    ensures
        forall|i: int|
            0 <= i < verbatim_components(directory, name).len() ==> {
                let component = #[trigger] verbatim_components(directory, name)[i];
                component.len() > 0 && component != "."@ && component != ".."@
            },
{
    let rest = directory.skip(prefix_length(directory));
    let inner = if rest.len() > 0 && windows_separator(rest[0]) {
        rest.skip(1)
    } else {
        rest
    };
    lemma_settled_stays_away(pieces(inner, '\\', '\\') + pieces(name, '\\', '/'));
}

/// Every path but the empty one has a first component.
pub proof fn law_only_the_empty_path_has_no_component(path: Seq<char>, policy: PathPolicy)
    ensures
        first_component(path, policy) is None <==> path.len() == 0,
{
}

} // verus!
