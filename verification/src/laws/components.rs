//! Components of paths.

use vstd::prelude::*;
use crate::cli::components::{
    followed_by, join_verbatim, lacks_parent, leading_component, policy_separator, prefix_length,
    run_end, settled, stays, verbatim_components,
};
use crate::config::validate::PathPolicy;
use crate::text::{begins_with, finishes_with, pieces};

verus! {

/// The separator of Windows is the backslash, that of other platforms the slash.
pub proof fn law_platforms_have_their_separator(windows: char, unix: char)
    requires
        call_ensures(policy_separator, (PathPolicy::Windows,), windows),
        call_ensures(policy_separator, (PathPolicy::Unix,), unix),
    ensures
        windows == '\\',
        unix == '/',
{
}

/// The first component of a path is what the path begins with, or its root.
pub proof fn law_first_component_begins_the_path(
    path: &str,
    policy: PathPolicy,
    component: Option<String>,
    at: int,
)
    requires
        call_ensures(leading_component, (path, policy), component),
    ensures
        component is Some <==> path@.len() > 0,
        component is Some && policy == PathPolicy::Unix && path@[0] == '/' ==> component->Some_0@
            == "/"@,
        component is Some && policy == PathPolicy::Unix && path@[0] != '/' ==> {
            let first = component->Some_0@;
            &&& begins_with(path@, first)
            &&& first.len() > 0
            &&& 0 <= at < first.len() ==> first[at] != '/'
            &&& first.len() < path@.len() ==> path@[first.len() as int] == '/'
        },
        component is Some && policy == PathPolicy::Windows && path@[0] != '\\' && path@[0] != '/'
            && !(path@.len() >= 2 && path@[1] == ':') ==> {
            let first = component->Some_0@;
            &&& begins_with(path@, first)
            &&& first.len() > 0
            &&& 0 <= at < first.len() ==> first[at] != '/' && first[at] != '\\'
            &&& first.len() < path@.len() ==> path@[first.len() as int] == '/'
                || path@[first.len() as int] == '\\'
        },
        component is Some && policy == PathPolicy::Windows && path@.len() >= 2 && path@[1] == ':'
            && crate::text::is_alphabetic(path@[0]) ==> component->Some_0@ == path@.take(2),
{
    if component is Some {
        let first = component->Some_0@;
        match policy {
            PathPolicy::Unix => {
                lemma_run(path@, 0, '/', '/', at);
            },
            PathPolicy::Windows => {
                lemma_run(path@, 0, '\\', '/', at);
            },
        }
        if path@[0] != '/' && policy == PathPolicy::Unix {
            assert(path@.take(first.len() as int) =~= first);
        }
        if path@[0] != '\\' && path@[0] != '/' && policy == PathPolicy::Windows {
            assert(path@.take(first.len() as int) =~= first);
        }
    }
}

proof fn lemma_run(path: Seq<char>, from: int, a: char, b: char, at: int)
    requires
        0 <= from <= path.len(),
    ensures
        from <= run_end(path, from, a, b) <= path.len(),
        from < path.len() && path[from] != a && path[from] != b ==> run_end(path, from, a, b)
            > from,
        from <= at < run_end(path, from, a, b) ==> path[at] != a && path[at] != b,
        run_end(path, from, a, b) < path.len() ==> path[run_end(path, from, a, b)] == a
            || path[run_end(path, from, a, b)] == b,
    decreases path.len() - from,
{
    if from < path.len() && path[from] != a && path[from] != b {
        lemma_run(path, from + 1, a, b, at);
    }
}

/// A plain name below a verbatim directory ends the path, which begins with what the directory
/// begins with.
pub proof fn law_plain_names_end_verbatim_paths(directory: &str, name: &str, path: String)
    requires
        call_ensures(join_verbatim, (directory, name), path),
        name@.len() > 0,
        name@ != "."@,
        name@ != ".."@,
        forall|i: int| 0 <= i < name@.len() ==> (#[trigger] name@[i]) != '/' && name@[i] != '\\',
        0 <= prefix_length(directory@) <= directory@.len(),
    ensures
        begins_with(path@, directory@.take(prefix_length(directory@))),
        finishes_with(path@, "\\"@ + name@),
{
    let prefix = directory@.take(prefix_length(directory@));
    let components = verbatim_components(directory@, name@);
    lemma_plain_piece(name@);
    let rest = directory@.skip(prefix_length(directory@));
    let inner = if rest.len() > 0 && crate::config::validate::windows_separator(rest[0]) {
        rest.skip(1)
    } else {
        rest
    };
    let head = pieces(inner, '\\', '\\');
    assert(head + pieces(name@, '\\', '/') =~= head.push(name@));
    assert(head.push(name@).drop_last() =~= head);
    assert(components == settled(head).push(name@));
    assert(components.drop_last() =~= settled(head));
    lemma_followed(prefix, components);
    let tail = "\\"@ + name@;
    assert(path@.skip(path@.len() - tail.len()) =~= tail);
}

proof fn lemma_followed(prefix: Seq<char>, components: Seq<Seq<char>>)
    ensures
        begins_with(followed_by(prefix, components), prefix),
    decreases components.len(),
{
    let whole = followed_by(prefix, components);
    if components.len() > 0 {
        lemma_followed(prefix, components.drop_last());
        let before = followed_by(prefix, components.drop_last());
        assert(before.take(prefix.len() as int) == prefix);
        assert(whole.take(prefix.len() as int) =~= before.take(prefix.len() as int));
    } else {
        assert(whole.take(prefix.len() as int) =~= prefix);
    }
}

proof fn lemma_plain_piece(name: Seq<char>)
    requires
        forall|i: int| 0 <= i < name.len() ==> (#[trigger] name[i]) != '/' && name[i] != '\\',
    ensures
        pieces(name, '\\', '/') == seq![name],
{
    lemma_whole_run(name);
}

proof fn lemma_whole_run(name: Seq<char>)
    requires
        forall|i: int| 0 <= i < name.len() ==> (#[trigger] name[i]) != '/' && name[i] != '\\',
    ensures
        crate::text::run_length(name, '\\', '/') == name.len(),
    decreases name.len(),
{
    if name.len() > 0 {
        let rest = name.skip(1);
        assert forall|i: int| 0 <= i < rest.len() implies (#[trigger] rest[i]) != '/' && rest[i]
            != '\\' by {
            assert(rest[i] == name[i + 1]);
        }
        lemma_whole_run(rest);
    }
}

proof fn lemma_name_run(name: Seq<char>)
    requires
        forall|i: int| 0 <= i < name.len() ==> (#[trigger] name[i]) != '/',
    ensures
        crate::text::run_length(name, '/', '/') == name.len(),
    decreases name.len(),
{
    if name.len() > 0 {
        let rest = name.skip(1);
        assert forall|i: int| 0 <= i < rest.len() implies (#[trigger] rest[i]) != '/' by {
            assert(rest[i] == name[i + 1]);
        }
        lemma_name_run(rest);
    }
}

/// Only the empty path and paths from the root have no parent. The root has
/// none, and a name right below the root has one.
pub proof fn law_only_roots_lack_a_parent(path: &str, yes: bool)
    requires
        call_ensures(lacks_parent, (path,), yes),
    ensures
        yes ==> path@.len() == 0 || path@[0] == '/',
        path@.len() == 0 ==> yes,
        path@ == "/"@ ==> yes,
        path@.len() > 1 && path@[0] == '/' && path@.skip(1) != "."@ && (forall|i: int|
            1 <= i < path@.len() ==> (#[trigger] path@[i]) != '/') ==> !yes,
{
    if path@.len() > 1 && path@[0] == '/' && path@.skip(1) != "."@ && (forall|i: int|
        1 <= i < path@.len() ==> (#[trigger] path@[i]) != '/') {
        let rest = path@.skip(1);
        assert forall|i: int| 0 <= i < rest.len() implies (#[trigger] rest[i]) != '/' by {
            assert(rest[i] == path@[i + 1]);
        }
        lemma_name_run(rest);
        let all = pieces(path@, '/', '/');
        assert(all == seq![path@.take(0)] + pieces(rest, '/', '/'));
        assert(all[1] == rest);
        assert(!stays(all[1]));
    }
    if path@ == "/"@ {
        reveal_strlit("/");
        reveal_with_fuel(pieces, 3);
        reveal_with_fuel(crate::text::run_length, 3);
        assert forall|i: int| 0 <= i < pieces(path@, '/', '/').len() implies stays(
            #[trigger] pieces(path@, '/', '/')[i],
        ) by {
        }
    }
}

} // verus!
