//! Offloading a local folder into a managed drive.
//!
//! The source is never touched until every file has been verified byte for
//! byte through the drive and the drive reports zero unpublished bytes; a
//! single failure leaves the source intact and is reported by path.

use vstd::prelude::*;
use crate::bytes::same_bytes;
use crate::cli::host::{below, join_path, optional_text};
use crate::crypto::primitives::{
    blake3_digest, blake3_finish, blake3_start, blake3_take, blake3_taken,
};
use crate::error::{
    answers, corrupt, description, invalid, MirageError, MirageErrorKind, Refusal,
};
use crate::ids::RepositoryId;
use crate::text::{
    begins_with, chars_of, comes_before, decimal, decimal_text, has_prefix, joined,
    lemma_before_irreflexive, lemma_before_total, lemma_before_transitive, lower_char, lower_text,
    lowercase, same_text, string_of, text_before, texts, trim_trailing, without_trailing,
};

verus! {

/// What is to be offloaded.
#[derive(Debug, Clone)]
pub struct OffloadSpec {
    pub repository_id: RepositoryId,
    /// Folder on a local disk to move into the drive.
    pub source: String,
    /// Folder inside the mounted drive that receives the copy.
    pub destination: Option<String>,
    /// Remove the source only after verification and publication.
    pub delete_source: bool,
    /// How long to wait for the drive to finish publishing. With 0 there is no
    /// wait, and the source is then never removed.
    pub wait_publish_milliseconds: u64,
}

/// What came of an offload.
#[derive(Debug, Clone)]
pub struct OffloadReport {
    pub destination: String,
    pub files: u64,
    pub bytes: u64,
    pub copied: u64,
    pub skipped_identical: u64,
    pub verified: u64,
    pub published: bool,
    pub unpublished_bytes_remaining: u64,
    pub source_deleted: bool,
    pub failures: Vec<String>,
}

impl OffloadReport {
    /// A report on nothing yet.
    pub fn new(destination: String) -> (report: OffloadReport)
        ensures
            report.destination == destination,
            report.files == 0,
            report.bytes == 0,
            report.copied == 0,
            report.skipped_identical == 0,
            report.verified == 0,
            !report.published,
            report.unpublished_bytes_remaining == 0,
            !report.source_deleted,
            report.failures@.len() == 0,
    {
        OffloadReport {
            destination,
            files: 0,
            bytes: 0,
            copied: 0,
            skipped_identical: 0,
            verified: 0,
            published: false,
            unpublished_bytes_remaining: 0,
            source_deleted: false,
            failures: Vec::new(),
        }
    }
}

impl Default for OffloadReport {
    fn default() -> (report: OffloadReport)
        ensures
            report.destination@ == Seq::<char>::empty(),
            report.files == 0,
            report.bytes == 0,
            report.copied == 0,
            report.skipped_identical == 0,
            report.verified == 0,
            !report.published,
            report.unpublished_bytes_remaining == 0,
            !report.source_deleted,
            report.failures@.len() == 0,
    {
        OffloadReport::new(String::new())
    }
}

// ---------------------------------------------------------------------------
// Folders
// ---------------------------------------------------------------------------

/// The root directory of a mounted drive.
pub open spec fn mount_root_text(mount_path: Seq<char>) -> Seq<char> {
    let bare = without_trailing(mount_path, '\\', '/');
    if bare.len() == 2 && bare[1] == ':' && (bare[0] as u32) < 128 {
        bare + "\\"@
    } else {
        bare
    }
}

/// The root directory of a mounted drive.
pub fn mount_root_of(mount_path: &str) -> (root: String)
    ensures
        root@ == mount_root_text(mount_path@),
{
    let bare = trim_trailing(mount_path, '\\', '/');
    let chars = chars_of(bare.as_str());
    if chars.len() == 2 && chars[1] == ':' && (chars[0] as u32) < 128 {
        joined(bare.as_str(), "\\")
    } else {
        bare
    }
}

/// Whether a path is a folder or lies within it, whatever the case of its
/// letters.
pub open spec fn within(path: Seq<char>, folder: Seq<char>) -> bool {
    let lower = lower_text(path);
    let prefix = lower_text(without_trailing(folder, '\\', '\\'));
    lower == prefix || begins_with(lower, prefix + "\\"@)
}

/// Whether a path is a folder or lies within it, whatever the case of its
/// letters.
pub fn starts_with_ci(path: &str, prefix: &str) -> (yes: bool)
    ensures
        yes == within(path@, prefix@),
{
    let lower = lowercase(path);
    let folder = lowercase(trim_trailing(prefix, '\\', '\\').as_str());
    let inside = joined(folder.as_str(), "\\");
    same_text(lower.as_str(), folder.as_str()) || has_prefix(lower.as_str(), inside.as_str())
}

/// A path without the prefix of long paths.
pub open spec fn plain_path(path: Seq<char>) -> Seq<char> {
    if begins_with(path, "\\\\?\\"@) {
        path.skip("\\\\?\\"@.len() as int)
    } else {
        path
    }
}

/// Why a source of some kind is refused, if it is.
pub open spec fn kind_refusal(is_dir: bool, is_link: bool) -> Refusal {
    if !is_dir || is_link {
        invalid("the source must be a real folder (not a file, link, or junction)"@)
    } else {
        None
    }
}

/// Checks the kind of a source, before anything else is asked of it.
pub fn check_source_kind(is_dir: bool, is_link: bool) -> (verdict: Result<(), MirageError>)
    ensures
        answers(verdict, kind_refusal(is_dir, is_link)),
{
    if !is_dir || is_link {
        return Err(
            MirageError::invalid_argument(
                "the source must be a real folder (not a file, link, or junction)",
            ),
        );
    }
    Ok(())
}

/// Why a source is refused, if it is.
pub open spec fn source_refusal(is_dir: bool, is_link: bool, canonical: Seq<char>) -> Refusal {
    if kind_refusal(is_dir, is_link) is Some {
        kind_refusal(is_dir, is_link)
    } else if vstd::utf8::encode_utf8(plain_path(canonical)).len() <= 3 {
        invalid("offloading an entire disk is not supported; choose a folder"@)
    } else {
        None
    }
}

/// Checks a source, as the host reports it, and gives its plain path.
pub fn validate_source(is_dir: bool, is_link: bool, canonical: &str) -> (source: Result<
    String,
    MirageError,
>)
    ensures
        answers(source, source_refusal(is_dir, is_link, canonical@)),
        source matches Ok(source) ==> source@ == plain_path(canonical@),
{
    check_source_kind(is_dir, is_link)?;
    proof {
        reveal_strlit("\\\\?\\");
    }
    let chars = chars_of(canonical);
    let plain = if has_prefix(canonical, "\\\\?\\") {
        string_of(&chars, 4, chars.len())
    } else {
        canonical.to_owned()
    };
    assert(plain@ == plain_path(canonical@));
    if plain.as_str().as_bytes().len() <= 3 {
        return Err(
            MirageError::invalid_argument(
                "offloading an entire disk is not supported; choose a folder",
            ),
        );
    }
    Ok(plain)
}

/// Where a folder is offloaded to, unless it is said: a folder of the same name
/// below the mount root.
pub open spec fn destination_text(
    asked: Option<Seq<char>>,
    mount_root: Seq<char>,
    source_name: Seq<char>,
) -> Seq<char> {
    match asked {
        Some(destination) => destination,
        None => below(mount_root, '\\', source_name),
    }
}

/// Why an offload does not start, if it does not.
pub open spec fn start_refusal(
    state: Option<Seq<char>>,
    mount_path: Option<Seq<char>>,
    asked: Option<Seq<char>>,
    source: Seq<char>,
    source_name: Option<Seq<char>>,
) -> Refusal {
    if state != Some("ready_mounted"@) {
        Some(
            (
                MirageErrorKind::RepositoryConflict,
                "the drive must be mounted to offload into it"@,
            ),
        )
    } else if mount_path is None {
        invalid("the drive has no mount path"@)
    } else if asked is None && source_name is None {
        invalid("source folder has no name"@)
    } else {
        let root = mount_root_text(mount_path->Some_0);
        let destination = destination_text(
            asked,
            root,
            source_name->Some_0,
        );
        if !within(destination, root) {
            invalid("the destination must be inside the mounted drive"@)
        } else if within(destination, source) || within(source, destination) {
            invalid("source and destination folders overlap"@)
        } else {
            None
        }
    }
}

/// Decides where a folder is offloaded to, by what the service reports of the
/// drive.
pub fn choose_destination(
    state: Option<&str>,
    mount_path: Option<&str>,
    asked: Option<&str>,
    source: &str,
    source_name: Option<&str>,
) -> (destination: Result<String, MirageError>)
    ensures
        answers(
            destination,
            start_refusal(
                optional_text(state),
                optional_text(mount_path),
                optional_text(asked),
                source@,
                optional_text(source_name),
            ),
        ),
        destination matches Ok(destination) ==> destination@ == destination_text(
            optional_text(asked),
            mount_root_text(mount_path->Some_0@),
            optional_text(source_name)->Some_0,
        ),
{
    let mounted = match state {
        Some(state) => same_text(state, "ready_mounted"),
        None => false,
    };
    if !mounted {
        return Err(
            MirageError::repository_conflict("the drive must be mounted to offload into it"),
        );
    }
    let root = match mount_path {
        Some(path) => mount_root_of(path),
        None => {
            return Err(MirageError::invalid_argument("the drive has no mount path"));
        },
    };
    let destination = match asked {
        Some(asked) => asked.to_owned(),
        None => match source_name {
            Some(name) => join_path(root.as_str(), '\\', name),
            None => {
                return Err(MirageError::invalid_argument("source folder has no name"));
            },
        },
    };
    if !starts_with_ci(destination.as_str(), root.as_str()) {
        return Err(
            MirageError::invalid_argument("the destination must be inside the mounted drive"),
        );
    }
    if starts_with_ci(destination.as_str(), source) || starts_with_ci(source, destination.as_str()) {
        return Err(MirageError::invalid_argument("source and destination folders overlap"));
    }
    Ok(destination)
}

/// What a walk does with an entry.
#[derive(Debug, Clone, Copy, PartialEq, Eq, Structural)]
pub enum WalkStep {
    Descend,
    TakeFile,
    Ignore,
}

/// Decides on an entry of the source. Links and junctions are refused, so a loop
/// or a redirect can never pull in data from elsewhere.
pub fn walk_entry(path: &str, is_link: bool, is_dir: bool, is_file: bool) -> (step: Result<
    WalkStep,
    MirageError,
>)
    ensures
        answers(
            step,
            if is_link {
                invalid(path@ + " is a link or junction; offload refuses to follow it"@)
            } else {
                None
            },
        ),
        step matches Ok(step) ==> step == if is_dir {
            WalkStep::Descend
        } else if is_file {
            WalkStep::TakeFile
        } else {
            WalkStep::Ignore
        },
{
    if is_link {
        let message = joined(path, " is a link or junction; offload refuses to follow it");
        return Err(MirageError::invalid_argument(message.as_str()));
    }
    if is_dir {
        Ok(WalkStep::Descend)
    } else if is_file {
        Ok(WalkStep::TakeFile)
    } else {
        Ok(WalkStep::Ignore)
    }
}

/// A file of the source: the components of its path below the source, and its
/// length.
#[derive(Debug)]
pub struct WalkedFile {
    pub path: Vec<String>,
    pub length: u64,
}

/// Whether a path comes before another: at the first component in which they
/// differ, by its text; a path comes before those that go on from it.
pub open spec fn path_before(left: Seq<Seq<char>>, right: Seq<Seq<char>>) -> bool
    decreases left.len(),
{
    if right.len() == 0 {
        false
    } else if left.len() == 0 {
        true
    } else if left[0] != right[0] {
        text_before(left[0], right[0])
    } else {
        path_before(left.skip(1), right.skip(1))
    }
}

/// Whether a file comes before another: by its path, or else by its length.
pub open spec fn file_before(left: WalkedFile, right: WalkedFile) -> bool {
    path_before(texts(left.path@), texts(right.path@)) || texts(left.path@) == texts(right.path@)
        && left.length < right.length
}

proof fn lemma_path_irreflexive(path: Seq<Seq<char>>)
    ensures
        !path_before(path, path),
    decreases path.len(),
{
    if path.len() > 0 {
        lemma_path_irreflexive(path.skip(1));
    }
}

proof fn lemma_path_transitive(a: Seq<Seq<char>>, b: Seq<Seq<char>>, c: Seq<Seq<char>>)
    requires
        path_before(a, b),
        path_before(b, c),
    ensures
        path_before(a, c),
    decreases a.len(),
{
    if a.len() > 0 && b.len() > 0 && c.len() > 0 {
        if a[0] == b[0] && b[0] == c[0] {
            lemma_path_transitive(a.skip(1), b.skip(1), c.skip(1));
        } else if a[0] != b[0] && b[0] != c[0] {
            lemma_before_transitive(a[0], b[0], c[0]);
            lemma_before_irreflexive(a[0]);
        }
    }
}

proof fn lemma_path_total(a: Seq<Seq<char>>, b: Seq<Seq<char>>)
    ensures
        a == b || path_before(a, b) || path_before(b, a),
    decreases a.len(),
{
    if a.len() > 0 && b.len() > 0 {
        if a[0] == b[0] {
            lemma_path_total(a.skip(1), b.skip(1));
            if a.skip(1) == b.skip(1) {
                assert(a == seq![a[0]] + a.skip(1));
                assert(b == seq![b[0]] + b.skip(1));
            }
        } else {
            lemma_before_total(a[0], b[0]);
        }
    } else if a.len() == 0 && b.len() == 0 {
        assert(a == b);
    }
}

proof fn lemma_not_after_transitive(a: WalkedFile, b: WalkedFile, c: WalkedFile)
    requires
        !file_before(b, a),
        !file_before(c, b),
    ensures
        !file_before(c, a),
{
    let (p, q, r) = (texts(a.path@), texts(b.path@), texts(c.path@));
    lemma_path_total(p, q);
    lemma_path_total(q, r);
    lemma_path_irreflexive(p);
    if path_before(r, p) {
        if path_before(p, q) {
            lemma_path_transitive(r, p, q);
        }
    }
    if r == p && path_before(p, q) && path_before(q, r) {
        lemma_path_transitive(p, q, r);
    }
}

/// Whether `left` comes before `right`.
fn path_comes_before(left: &Vec<String>, right: &Vec<String>) -> (before: Option<bool>)
    ensures
        match before {
            Some(before) => texts(left@) != texts(right@) && before == path_before(
                texts(left@),
                texts(right@),
            ),
            None => texts(left@) == texts(right@),
        },
{
    let ghost a = texts(left@);
    let ghost b = texts(right@);
    let mut at: usize = 0;
    assert(a.skip(0) == a && b.skip(0) == b);
    while at < left.len() && at < right.len()
        invariant
            a == texts(left@),
            b == texts(right@),
            at <= left@.len(),
            at <= right@.len(),
            forall|i: int| 0 <= i < at ==> #[trigger] a[i] == b[i],
            path_before(a, b) == path_before(a.skip(at as int), b.skip(at as int)),
        decreases left@.len() - at,
    {
        assert(a.skip(at as int)[0] == left@[at as int]@);
        assert(b.skip(at as int)[0] == right@[at as int]@);
        if !same_text(left[at].as_str(), right[at].as_str()) {
            assert(a[at as int] != b[at as int]);
            return Some(comes_before(left[at].as_str(), right[at].as_str()));
        }
        assert(a.skip(at as int).skip(1) == a.skip(at + 1));
        assert(b.skip(at as int).skip(1) == b.skip(at + 1));
        at = at + 1;
    }
    if left.len() == right.len() {
        assert(a == b);
        return None;
    }
    Some(left.len() < right.len())
}

fn file_comes_before(left: &WalkedFile, right: &WalkedFile) -> (before: bool)
    ensures
        before == file_before(*left, *right),
{
    proof {
        lemma_path_irreflexive(texts(left.path@));
    }
    match path_comes_before(&left.path, &right.path) {
        Some(before) => before,
        None => left.length < right.length,
    }
}

/// Whether places of files stand in the order of the files at them.
pub open spec fn in_order(files: Seq<WalkedFile>, places: Seq<usize>) -> bool {
    &&& forall|i: int| 0 <= i < places.len() ==> #[trigger] places[i] < files.len()
    &&& forall|i: int, j: int|
        0 <= i < j < places.len() ==> !file_before(
            files[#[trigger] places[j] as int],
            files[#[trigger] places[i] as int],
        )
}

/// The places from one up to another.
pub open spec fn places_between(from: int, to: int) -> Seq<usize> {
    Seq::new((to - from) as nat, |i: int| (from + i) as usize)
}

/// Whether no place of `later` comes before one of `earlier`.
spec fn all_not_after(files: Seq<WalkedFile>, earlier: Seq<usize>, later: Seq<usize>) -> bool {
    forall|i: int, j: int|
        0 <= i < earlier.len() && 0 <= j < later.len() ==> !file_before(
            files[#[trigger] later[j] as int],
            files[#[trigger] earlier[i] as int],
        )
}

/// The next place can follow those that were taken: it is the first of its own
/// list, and not after the first of the other.
proof fn lemma_take_next(
    files: Seq<WalkedFile>,
    taken: Seq<usize>,
    own: Seq<usize>,
    other: Seq<usize>,
)
    requires
        in_order(files, taken),
        in_order(files, own),
        in_order(files, other),
        own.len() > 0,
        all_not_after(files, taken, own),
        all_not_after(files, taken, other),
        other.len() > 0 ==> !file_before(files[other[0] as int], files[own[0] as int]),
    ensures
        in_order(files, taken.push(own[0])),
        in_order(files, own.skip(1)),
        all_not_after(files, taken.push(own[0]), own.skip(1)),
        all_not_after(files, taken.push(own[0]), other),
{
    let more = taken.push(own[0]);
    let rest = own.skip(1);
    assert forall|i: int, j: int| 0 <= i < j < more.len() implies !file_before(
        files[#[trigger] more[j] as int],
        files[#[trigger] more[i] as int],
    ) by {
        if j < taken.len() {
            assert(more[j] == taken[j] && more[i] == taken[i]);
        } else {
            assert(more[i] == taken[i]);
        }
    }
    assert forall|i: int, j: int| 0 <= i < j < rest.len() implies !file_before(
        files[#[trigger] rest[j] as int],
        files[#[trigger] rest[i] as int],
    ) by {
        assert(rest[i] == own[i + 1] && rest[j] == own[j + 1]);
    }
    assert forall|i: int| 0 <= i < rest.len() implies #[trigger] rest[i] < files.len() by {
        assert(rest[i] == own[i + 1]);
    }
    assert forall|i: int, j: int| 0 <= i < more.len() && 0 <= j < rest.len() implies !file_before(
        files[#[trigger] rest[j] as int],
        files[#[trigger] more[i] as int],
    ) by {
        assert(rest[j] == own[j + 1]);
        if i < taken.len() {
            assert(more[i] == taken[i]);
        }
    }
    assert forall|i: int, j: int| 0 <= i < more.len() && 0 <= j < other.len() implies !file_before(
        files[#[trigger] other[j] as int],
        files[#[trigger] more[i] as int],
    ) by {
        if i < taken.len() {
            assert(more[i] == taken[i]);
        } else if j > 0 {
            lemma_not_after_transitive(
                files[own[0] as int],
                files[other[0] as int],
                files[other[j] as int],
            );
        }
    }
}

fn merge_places(files: &Vec<WalkedFile>, left: &Vec<usize>, right: &Vec<usize>) -> (merged: Vec<
    usize,
>)
    requires
        in_order(files@, left@),
        in_order(files@, right@),
    ensures
        in_order(files@, merged@),
        merged@.to_multiset() == left@.to_multiset().add(right@.to_multiset()),
{
    broadcast use vstd::seq_lib::group_to_multiset_ensures;

    let mut merged: Vec<usize> = Vec::new();
    let mut i: usize = 0;
    let mut j: usize = 0;
    proof {
        assert(left@.skip(0) == left@);
        assert(right@.skip(0) == right@);
        assert(left@.take(0) == Seq::<usize>::empty());
        assert(right@.take(0) == Seq::<usize>::empty());
        assert(merged@.to_multiset() =~= left@.take(0).to_multiset().add(
            right@.take(0).to_multiset(),
        ));
    }
    while i < left.len() || j < right.len()
        invariant
            i <= left@.len(),
            j <= right@.len(),
            in_order(files@, merged@),
            in_order(files@, left@.skip(i as int)),
            in_order(files@, right@.skip(j as int)),
            all_not_after(files@, merged@, left@.skip(i as int)),
            all_not_after(files@, merged@, right@.skip(j as int)),
            merged@.to_multiset() == left@.take(i as int).to_multiset().add(
                right@.take(j as int).to_multiset(),
            ),
        decreases left@.len() - i + right@.len() - j,
    {
        let ghost before = merged@;
        let ghost own_left = left@.skip(i as int);
        let ghost own_right = right@.skip(j as int);
        proof {
            if i < left@.len() {
                assert(own_left[0] == left@[i as int]);
                assert(own_left.skip(1) == left@.skip(i + 1));
                assert(left@.take(i + 1) == left@.take(i as int).push(left@[i as int]));
            }
            if j < right@.len() {
                assert(own_right[0] == right@[j as int]);
                assert(own_right.skip(1) == right@.skip(j + 1));
                assert(right@.take(j + 1) == right@.take(j as int).push(right@[j as int]));
            }
        }
        let take_left = if i == left.len() {
            false
        } else if j == right.len() {
            true
        } else {
            !file_comes_before(&files[right[j]], &files[left[i]])
        };
        if take_left {
            proof {
                lemma_take_next(files@, before, own_left, own_right);
            }
            merged.push(left[i]);
            proof {
                let done = left@.take(i as int).to_multiset();
                let others = right@.take(j as int).to_multiset();
                assert(merged@ == before.push(left@[i as int]));
                vstd::seq_lib::to_multiset_build(left@.take(i as int), left@[i as int]);
                vstd::seq_lib::to_multiset_build(before, left@[i as int]);
                assert(done.add(others).insert(left@[i as int]) =~= done.insert(
                    left@[i as int],
                ).add(others));
            }
            i = i + 1;
        } else {
            proof {
                if i < left@.len() {
                    let first = files@[own_left[0] as int];
                    let next = files@[own_right[0] as int];
                    lemma_before_both_ways(next, first);
                }
                lemma_take_next(files@, before, own_right, own_left);
            }
            merged.push(right[j]);
            proof {
                let done = right@.take(j as int).to_multiset();
                let others = left@.take(i as int).to_multiset();
                assert(merged@ == before.push(right@[j as int]));
                vstd::seq_lib::to_multiset_build(right@.take(j as int), right@[j as int]);
                vstd::seq_lib::to_multiset_build(before, right@[j as int]);
                assert(others.add(done).insert(right@[j as int]) =~= others.add(
                    done.insert(right@[j as int]),
                ));
            }
            j = j + 1;
        }
    }
    assert(left@.take(i as int) == left@);
    assert(right@.take(j as int) == right@);
    merged
}

proof fn lemma_before_both_ways(a: WalkedFile, b: WalkedFile)
    requires
        file_before(a, b),
    ensures
        !file_before(b, a),
{
    let (p, q) = (texts(a.path@), texts(b.path@));
    lemma_path_irreflexive(p);
    if path_before(p, q) && path_before(q, p) {
        lemma_path_transitive(p, q, p);
    }
}

fn order_between(files: &Vec<WalkedFile>, from: usize, to: usize) -> (places: Vec<usize>)
    requires
        from <= to <= files@.len(),
    ensures
        in_order(files@, places@),
        places@.to_multiset() == places_between(from as int, to as int).to_multiset(),
    decreases to - from,
{
    broadcast use vstd::seq_lib::group_to_multiset_ensures;

    let mut places: Vec<usize> = Vec::new();
    if to - from <= 1 {
        if from < to {
            places.push(from);
        }
        assert(places@ =~= places_between(from as int, to as int));
        return places;
    }
    let middle: usize = from + (to - from) / 2;
    let left = order_between(files, from, middle);
    let right = order_between(files, middle, to);
    proof {
        let head = places_between(from as int, middle as int);
        let tail = places_between(middle as int, to as int);
        assert(places_between(from as int, to as int) =~= head + tail);
        vstd::seq_lib::lemma_multiset_commutative(head, tail);
    }
    merge_places(files, &left, &right)
}

/// The order in which the files of a source are listed: the places of all files,
/// each once, in the order of their paths.
pub fn listing_order(files: &Vec<WalkedFile>) -> (places: Vec<usize>)
    ensures
        in_order(files@, places@),
        places@.to_multiset() == places_between(0, files@.len() as int).to_multiset(),
        places@.len() == files@.len(),
{
    broadcast use vstd::seq_lib::group_to_multiset_ensures;

    let places = order_between(files, 0, files.len());
    assert(places@.len() == places@.to_multiset().len());
    assert(places_between(0, files@.len() as int).len() == places_between(
        0,
        files@.len() as int,
    ).to_multiset().len());
    places
}

// ---------------------------------------------------------------------------
// Copying and verifying
// ---------------------------------------------------------------------------

/// The digest of a file's contents, taken as they are read.
pub struct ContentHash {
    hasher: blake3::Hasher,
}

impl ContentHash {
    /// The digest is one of the contents from their start.
    #[verifier::type_invariant]
    closed spec fn well_formed(self) -> bool {
        blake3_taken(self.hasher) is Some
    }

    /// What has been read so far.
    pub closed spec fn read(&self) -> Seq<u8> {
        blake3_taken(self.hasher)->Some_0
    }

    /// Nothing has been read yet.
    pub fn new() -> (content: ContentHash)
        ensures
            content.read() == Seq::<u8>::empty(),
    {
        ContentHash { hasher: blake3_start() }
    }

    /// Takes the next piece of the contents.
    pub fn take(&mut self, piece: &[u8])
        requires
            old(self).read().len() + piece@.len() <= u64::MAX,
        ensures
            final(self).read() == old(self).read() + piece@,
    {
        proof {
            use_type_invariant(&*self);
        }
        blake3_take(&mut self.hasher, piece);
    }

    /// The digest of everything that was read.
    pub fn finish(&self) -> (digest: [u8; 32])
        ensures
            digest@ == blake3_digest(self.read()),
    {
        proof {
            use_type_invariant(self);
        }
        blake3_finish(&self.hasher)
    }
}

/// The sum of some lengths.
pub open spec fn total(lengths: Seq<u64>) -> int
    decreases lengths.len(),
{
    if lengths.len() == 0 {
        0
    } else {
        total(lengths.drop_last()) + lengths.last()
    }
}

proof fn lemma_total_grows(lengths: Seq<u64>, count: int)
    requires
        0 <= count <= lengths.len(),
    ensures
        0 <= total(lengths.take(count)) <= total(lengths),
    decreases lengths.len(),
{
    if lengths.len() == 0 {
        assert(lengths.take(count) == lengths);
    } else if count == lengths.len() {
        assert(lengths.take(count) == lengths);
        lemma_total_grows(lengths.drop_last(), count - 1);
    } else {
        assert(lengths.drop_last().take(count) == lengths.take(count));
        lemma_total_grows(lengths.drop_last(), count);
    }
}

/// How many bytes some files have together, if that can be counted.
pub fn total_bytes(lengths: &Vec<u64>) -> (bytes: Option<u64>)
    ensures
        bytes is Some <==> total(lengths@) <= u64::MAX,
        bytes matches Some(bytes) ==> bytes == total(lengths@),
{
    let mut sum: u64 = 0;
    let mut i: usize = 0;
    while i < lengths.len()
        invariant
            i <= lengths@.len(),
            sum == total(lengths@.take(i as int)),
        decreases lengths@.len() - i,
    {
        proof {
            assert(lengths@.take(i + 1).drop_last() == lengths@.take(i as int));
            lemma_total_grows(lengths@, i + 1);
        }
        if lengths[i] > u64::MAX - sum {
            return None;
        }
        sum = sum + lengths[i];
        i = i + 1;
    }
    assert(lengths@.take(i as int) == lengths@);
    Some(sum)
}

/// What a copy was at when it failed.
#[derive(Debug, Clone, Copy, PartialEq, Eq, Structural)]
pub enum CopyStage {
    ReadSource,
    ReadExisting,
    Copy,
    ReadBack,
}

/// How a stage of a copy is called in an error.
pub open spec fn stage_text(stage: CopyStage) -> Seq<char> {
    match stage {
        CopyStage::ReadSource => "reading the source"@,
        CopyStage::ReadExisting => "reading the existing copy on the drive"@,
        CopyStage::Copy => "copying to the drive"@,
        CopyStage::ReadBack => "reading back from the drive"@,
    }
}

/// The error of a copy that failed at a stage: the same kind, with the stage before
/// the message.
pub fn copy_error(stage: CopyStage, error: &MirageError) -> (staged: MirageError)
    ensures
        staged.kind == error.kind,
        staged.message@ == stage_text(stage) + ": "@ + error.message@,
{
    let mut message: String = match stage {
        CopyStage::ReadSource => "reading the source".to_owned(),
        CopyStage::ReadExisting => "reading the existing copy on the drive".to_owned(),
        CopyStage::Copy => "copying to the drive".to_owned(),
        CopyStage::ReadBack => "reading back from the drive".to_owned(),
    };
    message.append(": ");
    message.append(error.message.as_str());
    MirageError::new(error.kind, message.as_str())
}

/// The line that reports a file that could not be copied or verified.
pub fn failure_line(relative: &str, error: &MirageError) -> (line: String)
    ensures
        line@ == relative@ + ": "@ + description(*error),
{
    let mut line = joined(relative, ": ");
    line.append(error.describe().as_str());
    line
}

/// What is said before a file is copied: which, and how far the offload is.
pub fn copying_label(relative: &str, number: u64, count: u64) -> (label: String)
    ensures
        label@ == "Copying "@ + relative@ + " ("@ + decimal_text(number as nat) + "/"@
            + decimal_text(count as nat) + ")"@,
{
    let mut label = joined("Copying ", relative);
    label.append(" (");
    label.append(decimal(number).as_str());
    label.append("/");
    label.append(decimal(count).as_str());
    label.append(")");
    label
}

/// Whether a file on the drive can be a copy that is there already, so that its
/// contents are worth reading: a file of the same length.
pub fn may_be_copied(is_file: bool, existing_length: u64, length: u64) -> (yes: bool)
    ensures
        yes == (is_file && existing_length == length),
{
    is_file && existing_length == length
}

/// Whether a copy that is already there is the source, byte for byte.
pub fn already_copied(source_hash: &[u8; 32], existing: Option<&[u8; 32]>) -> (identical: bool)
    ensures
        identical == (existing is Some && existing->Some_0@ == source_hash@),
{
    match existing {
        Some(existing) => same_bytes(existing, source_hash),
        None => false,
    }
}

/// A report with one more file that was copied, or that was already there.
pub open spec fn noted(report: OffloadReport, skipped: bool) -> OffloadReport {
    if skipped {
        OffloadReport {
            skipped_identical: (report.skipped_identical + 1) as u64,
            ..report
        }
    } else {
        OffloadReport { copied: (report.copied + 1) as u64, ..report }
    }
}

/// Notes that a file was copied, or that it was already there.
pub fn note_copy(report: &mut OffloadReport, skipped: bool)
    requires
        old(report).copied < u64::MAX,
        old(report).skipped_identical < u64::MAX,
    ensures
        *final(report) == noted(*old(report), skipped),
{
    if skipped {
        report.skipped_identical = report.skipped_identical + 1;
    } else {
        report.copied = report.copied + 1;
    }
}

/// Why a copy is not accepted, if it is not.
pub open spec fn copy_refusal(source_hash: Seq<u8>, copied_hash: Seq<u8>) -> Refusal {
    if copied_hash == source_hash {
        None
    } else {
        corrupt("the copy on the drive does not match the source"@)
    }
}

/// A report after a comparison: only a copy that matches counts.
pub open spec fn compared(
    report: OffloadReport,
    source_hash: Seq<u8>,
    copied_hash: Seq<u8>,
) -> OffloadReport {
    if copied_hash == source_hash {
        OffloadReport { verified: (report.verified + 1) as u64, ..report }
    } else {
        report
    }
}

/// Compares what was read back through the drive with the source. Only a copy
/// that matches counts as verified.
pub fn verify_copy(
    report: &mut OffloadReport,
    source_hash: &[u8; 32],
    copied_hash: &[u8; 32],
) -> (verdict: Result<(), MirageError>)
    requires
        old(report).verified < u64::MAX,
    ensures
        answers(verdict, copy_refusal(source_hash@, copied_hash@)),
        *final(report) == compared(*old(report), source_hash@, copied_hash@),
{
    if !same_bytes(copied_hash, source_hash) {
        return Err(
            MirageError::integrity_mismatch("the copy on the drive does not match the source"),
        );
    }
    report.verified = report.verified + 1;
    Ok(())
}

// ---------------------------------------------------------------------------
// Publication and removal
// ---------------------------------------------------------------------------

/// How the wait for publication goes on.
#[derive(Debug, Clone, Copy, PartialEq, Eq, Structural)]
pub enum PublishStep {
    /// Nothing is left to publish.
    Published,
    /// The patience is used up.
    GiveUp,
    /// Ask again in three seconds.
    Wait,
}

/// What is left to publish; a count that is not reported counts as not done.
pub open spec fn pending(reported: Option<u64>) -> u64 {
    match reported {
        Some(count) => count,
        None => u64::MAX,
    }
}

/// How the wait for publication goes on.
pub open spec fn publication(
    pending_bytes: Option<u64>,
    pending_payloads: Option<u64>,
    elapsed_milliseconds: u64,
    wait_milliseconds: u64,
) -> PublishStep {
    if pending(pending_bytes) == 0 && pending(pending_payloads) == 0 {
        PublishStep::Published
    } else if elapsed_milliseconds >= wait_milliseconds {
        PublishStep::GiveUp
    } else {
        PublishStep::Wait
    }
}

/// A report after the service has said what is left to publish.
pub open spec fn awaited(
    report: OffloadReport,
    pending_bytes: Option<u64>,
    step: PublishStep,
) -> OffloadReport {
    OffloadReport {
        unpublished_bytes_remaining: pending(pending_bytes),
        published: report.published || step == PublishStep::Published,
        ..report
    }
}

/// Takes the service's report on what is left to publish.
pub fn publish_step(
    report: &mut OffloadReport,
    pending_bytes: Option<u64>,
    pending_payloads: Option<u64>,
    elapsed_milliseconds: u64,
    wait_milliseconds: u64,
) -> (step: PublishStep)
    ensures
        step == publication(
            pending_bytes,
            pending_payloads,
            elapsed_milliseconds,
            wait_milliseconds,
        ),
        *final(report) == awaited(*old(report), pending_bytes, step),
{
    let bytes: u64 = match pending_bytes {
        Some(count) => count,
        None => u64::MAX,
    };
    let payloads: u64 = match pending_payloads {
        Some(count) => count,
        None => u64::MAX,
    };
    report.unpublished_bytes_remaining = bytes;
    if bytes == 0 && payloads == 0 {
        report.published = true;
        return PublishStep::Published;
    }
    if elapsed_milliseconds >= wait_milliseconds {
        PublishStep::GiveUp
    } else {
        PublishStep::Wait
    }
}

/// What happens once the files have been copied.
#[derive(Debug, Clone, Copy, PartialEq, Eq, Structural)]
pub enum AfterCopy {
    /// A file failed: the source stays untouched.
    Stop,
    /// Wait for publication.
    AwaitPublication,
}

/// Decides after the copies: a single failure leaves the source intact.
pub fn after_copy(report: &OffloadReport) -> (next: AfterCopy)
    ensures
        next == if report.failures@.len() > 0 {
            AfterCopy::Stop
        } else {
            AfterCopy::AwaitPublication
        },
{
    if report.failures.len() > 0 {
        AfterCopy::Stop
    } else {
        AfterCopy::AwaitPublication
    }
}

/// Whether the source may be removed: on request, with a wait for publication,
/// without failures, once every file is verified and everything is published.
pub open spec fn removable(spec: OffloadSpec, report: OffloadReport) -> bool {
    spec.delete_source && spec.wait_publish_milliseconds > 0 && report.failures@.len() == 0
        && report.published && report.verified == report.files
}

/// Decides whether the source is removed.
pub fn may_remove_source(spec: &OffloadSpec, report: &OffloadReport) -> (yes: bool)
    ensures
        yes == removable(*spec, *report),
{
    spec.delete_source && spec.wait_publish_milliseconds > 0 && report.failures.len() == 0
        && report.published && report.verified == report.files
}

/// What is said at the end of an offload that was asked to remove the source.
pub fn closing_label(spec: &OffloadSpec, report: &OffloadReport) -> (label: Option<&'static str>)
    ensures
        match label {
            Some(label) => spec.delete_source && label@ == if removable(*spec, *report) {
                "Everything is verified in Google Drive — removing the local copy"@
            } else {
                "Not everything is published yet — the local copy stays"@
            },
            None => !spec.delete_source,
        },
{
    if !spec.delete_source {
        return None;
    }
    if may_remove_source(spec, report) {
        Some("Everything is verified in Google Drive — removing the local copy")
    } else {
        Some("Not everything is published yet — the local copy stays")
    }
}

/// The source is never removed while a file failed, is unverified, or while
/// anything is unpublished.
pub proof fn law_source_survives_any_doubt(spec: OffloadSpec, report: OffloadReport)
    requires
        !spec.delete_source || report.failures@.len() > 0 || report.verified != report.files
            || !report.published,
    ensures
        !removable(spec, report),
{
}

/// Without a wait for publication the source is never removed, whatever the
/// drive reports.
pub proof fn law_no_wait_keeps_the_source(spec: OffloadSpec, report: OffloadReport)
    requires
        spec.wait_publish_milliseconds == 0,
    ensures
        !removable(spec, report),
{
}

/// What is left of a folder without its trailing separators begins it, ends in no
/// separator, and only separators follow.
proof fn lemma_bare_folder(folder: Seq<char>)
    ensures
        ({
            let bare = without_trailing(folder, '\\', '\\');
            &&& bare.len() <= folder.len()
            &&& folder.take(bare.len() as int) == bare
            &&& bare.len() > 0 ==> bare.last() != '\\'
            &&& forall|i: int| bare.len() <= i < folder.len() ==> #[trigger] folder[i] == '\\'
        }),
    decreases folder.len(),
{
    let bare = without_trailing(folder, '\\', '\\');
    if folder.len() > 0 && folder.last() == '\\' {
        lemma_bare_folder(folder.drop_last());
        assert(folder.take(bare.len() as int) == folder.drop_last().take(bare.len() as int));
        assert forall|i: int| bare.len() <= i < folder.len() implies #[trigger] folder[i]
            == '\\' by {
            if i < folder.len() - 1 {
                assert(folder.drop_last()[i] == folder[i]);
            }
        }
    } else {
        assert(folder.take(folder.len() as int) == folder);
    }
}

proof fn lemma_lower_bare(folder: Seq<char>)
    ensures
        lower_text(without_trailing(folder, '\\', '\\')) == without_trailing(
            lower_text(folder),
            '\\',
            '\\',
        ),
    decreases folder.len(),
{
    if folder.len() > 0 {
        assert(lower_text(folder).last() == lower_char(folder.last()));
        if folder.last() == '\\' {
            lemma_lower_bare(folder.drop_last());
            assert(lower_text(folder).drop_last() == lower_text(folder.drop_last()));
        } else {
            assert(lower_char(folder.last()) != '\\');
        }
    }
}

/// Every path lies within itself.
pub proof fn law_within_is_reflexive(path: Seq<char>)
    ensures
        within(path, path),
{
    lemma_bare_folder(path);
    reveal_strlit("\\");
    let bare = without_trailing(path, '\\', '\\');
    let lower = lower_text(path);
    let prefix = lower_text(bare);
    if bare.len() < path.len() {
        assert(path[bare.len() as int] == '\\');
        assert forall|i: int| 0 <= i < bare.len() implies lower[i] == prefix[i] by {
            assert(path.take(bare.len() as int)[i] == path[i]);
        }
        assert(lower.take(bare.len() as int + 1) =~= prefix + "\\"@);
    } else {
        assert(path.take(path.len() as int) == path);
    }
}

/// What lies within a folder lies within every folder that the folder lies in.
pub proof fn law_within_is_transitive(path: Seq<char>, folder: Seq<char>, outer: Seq<char>)
    requires
        within(path, folder),
        within(folder, outer),
    ensures
        within(path, outer),
{
    reveal_strlit("\\");
    lemma_lower_bare(folder);
    lemma_lower_bare(outer);
    lemma_bare_folder(lower_text(folder));
    lemma_bare_folder(lower_text(outer));
    let lower = lower_text(path);
    let middle = lower_text(folder);
    let near = without_trailing(middle, '\\', '\\');
    let far = without_trailing(lower_text(outer), '\\', '\\');
    if near.len() > far.len() {
        assert(middle != far);
        let wanted = far + "\\"@;
        assert(middle.take(wanted.len() as int) == wanted);
        assert forall|i: int| 0 <= i < wanted.len() implies lower[i] == wanted[i] by {
            assert(near[i] == middle.take(near.len() as int)[i]);
            assert(middle.take(wanted.len() as int)[i] == wanted[i]);
            if lower != near {
                assert(lower.take((near + "\\"@).len() as int)[i] == (near + "\\"@)[i]);
            }
        }
        assert(lower.take(wanted.len() as int) =~= wanted);
    } else {
        assert(near == far) by {
            if middle == far {
                if near.len() < far.len() {
                    assert(middle[far.len() - 1] == '\\');
                }
            } else {
                let wanted = far + "\\"@;
                if near.len() < far.len() {
                    assert(middle[far.len() - 1] == '\\');
                    assert(middle.take(wanted.len() as int)[far.len() - 1] == far[far.len() - 1]);
                }
                assert forall|i: int| 0 <= i < far.len() implies near[i] == far[i] by {
                    assert(near[i] == middle.take(near.len() as int)[i]);
                    assert(middle.take(wanted.len() as int)[i] == wanted[i]);
                }
                assert(near =~= far);
            }
        }
    }
}

/// The case of ASCII letters never decides whether a path lies within a folder.
pub proof fn law_within_ignores_case(
    path: Seq<char>,
    folder: Seq<char>,
    other_path: Seq<char>,
    other_folder: Seq<char>,
)
    requires
        lower_text(path) == lower_text(other_path),
        lower_text(folder) == lower_text(other_folder),
    ensures
        within(path, folder) == within(other_path, other_folder),
{
    lemma_lower_bare(folder);
    lemma_lower_bare(other_folder);
}

/// A separator behind a folder changes nothing.
pub proof fn law_trailing_separator_changes_nothing(path: Seq<char>, folder: Seq<char>)
    ensures
        within(path, folder.push('\\')) == within(path, folder),
{
    assert(folder.push('\\').drop_last() == folder);
}

/// A destination that is accepted neither contains the source nor lies within
/// it, and lies within the drive.
pub proof fn law_accepted_destination_is_apart(
    mount_path: Seq<char>,
    asked: Option<Seq<char>>,
    source: Seq<char>,
    source_name: Option<Seq<char>>,
)
    requires
        start_refusal(
            Some("ready_mounted"@),
            Some(mount_path),
            asked,
            source,
            source_name,
        ) is None,
    ensures
        ({
            let destination = destination_text(
                asked,
                mount_root_text(mount_path),
                source_name->Some_0,
            );
            &&& within(destination, mount_root_text(mount_path))
            &&& !within(destination, source)
            &&& !within(source, destination)
        }),
{
}

} // verus!
