//! Scanning, importing, publishing and verifying repositories.

use vstd::prelude::*;
use crate::bytes::same_bytes;
use crate::error::{answers, conflict, invalid, MirageError, MirageErrorKind, Refusal};
use crate::ids::{hex_bytes, hex_shaped, RepositoryId};
use crate::text::{
    alphanumeric, begins_with, chars_of, decimal, decimal_text, finishes_with, has_prefix,
    has_suffix, hex_digit, hex_digit_value, insert_distinct, insert_ordered, is_alphanumeric,
    is_hex_digit, joined, lower_text, lowercase, new_texts, no_texts, ordered, push_string,
    same_text, strictly_ordered, texts, trim_leading, without_leading,
};

verus! {

pub const MAX_VIRTUAL_EXTENSIONS: usize = 64;

pub const MAX_EXTENSION_LENGTH: usize = 16;

/// The publication manifest in an import directory.
pub const DRIVE_MANIFEST: &'static str = "drive-manifest.cbor";

// ---------------------------------------------------------------------------
// Virtual asset extensions
// ---------------------------------------------------------------------------

/// Whether a text can be an extension: 1 to 16 letters or digits of ASCII.
pub open spec fn extension_shaped(extension: Seq<char>) -> bool {
    1 <= extension.len() <= MAX_EXTENSION_LENGTH && forall|i: int|
        0 <= i < extension.len() ==> is_alphanumeric(#[trigger] extension[i])
}

/// An extension without the points before it.
pub open spec fn bare_extension(extension: Seq<char>) -> Seq<char> {
    without_leading(extension, '.')
}

/// Whether every extension of a list is one once the points before it are gone.
pub open spec fn all_extensions(extensions: Seq<Seq<char>>) -> bool {
    forall|i: int|
        0 <= i < extensions.len() ==> extension_shaped(bare_extension(#[trigger] extensions[i]))
}

/// Why a classification policy is refused, if it is.
pub open spec fn policy_refusal(extensions: Seq<Seq<char>>, minimum_bytes: u64) -> Refusal {
    if minimum_bytes == 0 || extensions.len() > MAX_VIRTUAL_EXTENSIONS {
        invalid("virtual asset classification policy is out of bounds"@)
    } else if !all_extensions(extensions) {
        invalid("virtual asset extensions must be 1-16 ASCII alphanumeric characters"@)
    } else {
        None
    }
}

fn is_extension(extension: &str) -> (yes: bool)
    ensures
        yes == extension_shaped(extension@),
{
    let chars = chars_of(extension);
    let length: usize = chars.len();
    if length == 0 || length > MAX_EXTENSION_LENGTH {
        return false;
    }
    for at in 0..length
        invariant
            length == chars@.len(),
            chars@ == extension@,
            forall|i: int| 0 <= i < at ==> is_alphanumeric(#[trigger] extension@[i]),
    {
        if !alphanumeric(chars[at]) {
            assert(!is_alphanumeric(extension@[at as int]));
            return false;
        }
    }
    true
}

/// The extensions of a list without the points before them, in order.
pub open spec fn bare_extensions(extensions: Seq<Seq<char>>) -> Seq<Seq<char>> {
    extensions.map_values(|extension: Seq<char>| bare_extension(extension))
}

/// Checks a classification policy and gives the bare extensions, in order.
pub fn classification_rules(extensions: &Vec<String>, minimum_bytes: u64) -> (bare: Result<
    Vec<String>,
    MirageError,
>)
    ensures
        answers(bare, policy_refusal(texts(extensions@), minimum_bytes)),
        bare matches Ok(bare) ==> texts(bare@) == bare_extensions(texts(extensions@)),
{
    let ghost all = texts(extensions@);
    if minimum_bytes == 0 || extensions.len() > MAX_VIRTUAL_EXTENSIONS {
        return Err(
            MirageError::invalid_argument("virtual asset classification policy is out of bounds"),
        );
    }
    let mut bare = new_texts();
    let mut at: usize = 0;
    assert(texts(bare@) == bare_extensions(all).take(0));
    while at < extensions.len()
        invariant
            at <= extensions@.len(),
            all == texts(extensions@),
            all.len() <= MAX_VIRTUAL_EXTENSIONS,
            minimum_bytes != 0,
            texts(bare@) == bare_extensions(all).take(at as int),
            forall|i: int| 0 <= i < at ==> extension_shaped(bare_extension(#[trigger] all[i])),
        decreases extensions@.len() - at,
    {
        assert(all[at as int] == extensions@[at as int]@);
        let extension = trim_leading(extensions[at].as_str(), '.');
        if !is_extension(extension.as_str()) {
            assert(!extension_shaped(bare_extension(all[at as int])));
            return Err(
                MirageError::invalid_argument(
                    "virtual asset extensions must be 1-16 ASCII alphanumeric characters",
                ),
            );
        }
        push_string(&mut bare, extension);
        proof {
            assert(bare_extensions(all).take(at + 1) =~= bare_extensions(all).take(at as int).push(
                bare_extensions(all)[at as int],
            ));
        }
        at = at + 1;
    }
    assert(bare_extensions(all).take(at as int) =~= bare_extensions(all));
    Ok(bare)
}

/// Checks a classification policy and gives the extensions as they are reported:
/// bare, in lower case, in order and each one once.
pub fn reported_extensions(extensions: &Vec<String>, minimum_bytes: u64) -> (reported: Result<
    Vec<String>,
    MirageError,
>)
    ensures
        answers(reported, policy_refusal(texts(extensions@), minimum_bytes)),
        reported matches Ok(reported) ==> {
            &&& strictly_ordered(texts(reported@))
            &&& forall|extension: Seq<char>|
                texts(reported@).contains(extension) <==> exists|i: int|
                    0 <= i < extensions@.len() && extension == lower_text(
                        bare_extension(#[trigger] texts(extensions@)[i]),
                    )
        },
{
    let bare = classification_rules(extensions, minimum_bytes)?;
    let ghost all = texts(extensions@);
    proof {
        assert(bare@.len() == texts(bare@).len());
        assert(bare_extensions(all).len() == all.len());
    }
    let mut reported = new_texts();
    let mut at: usize = 0;
    while at < bare.len()
        invariant
            at <= bare@.len(),
            all == texts(extensions@),
            bare@.len() == all.len(),
            texts(bare@) == bare_extensions(all),
            strictly_ordered(texts(reported@)),
            forall|extension: Seq<char>|
                #![trigger texts(reported@).contains(extension)]
                texts(reported@).contains(extension) <==> exists|i: int|
                    0 <= i < at && extension == lower_text(bare_extension(#[trigger] all[i])),
        decreases bare@.len() - at,
    {
        let ghost before = texts(reported@);
        proof {
            assert(texts(bare@)[at as int] == bare@[at as int]@);
            assert(bare_extensions(all)[at as int] == bare_extension(all[at as int]));
        }
        let lower = lowercase(bare[at].as_str());
        let ghost new = lower@;
        insert_distinct(&mut reported, lower);
        proof {
            let after = texts(reported@);
            assert forall|extension: Seq<char>| #[trigger] after.contains(extension) <==> exists|
                i: int,
            |
                0 <= i < at + 1 && extension == lower_text(bare_extension(#[trigger] all[i])) by {
                if before.contains(extension) {
                    let i = choose|i: int|
                        0 <= i < at && extension == lower_text(bare_extension(#[trigger] all[i]));
                    assert(extension == lower_text(bare_extension(all[i])));
                }
                if extension == new {
                    assert(extension == lower_text(bare_extension(all[at as int])));
                }
                if exists|i: int|
                    0 <= i < at + 1 && extension == lower_text(bare_extension(#[trigger] all[i])) {
                    let i = choose|i: int|
                        0 <= i < at + 1 && extension == lower_text(
                            bare_extension(#[trigger] all[i]),
                        );
                    if i < at {
                        assert(before.contains(extension));
                    }
                }
            }
        }
        at = at + 1;
    }
    Ok(reported)
}

// ---------------------------------------------------------------------------
// Packs
// ---------------------------------------------------------------------------

/// Whether a file name is that of a pack.
pub open spec fn pack_name(name: Seq<char>) -> bool {
    begins_with(name, "pack-"@) && finishes_with(name, ".bin"@)
}

/// Whether a file name is that of a pack.
pub fn is_pack_name(name: &str) -> (yes: bool)
    ensures
        yes == pack_name(name@),
{
    has_prefix(name, "pack-") && has_suffix(name, ".bin")
}

/// The names of packs among some file names.
pub open spec fn pack_names_of(names: Seq<Seq<char>>) -> Seq<Seq<char>>
    decreases names.len(),
{
    if names.len() == 0 {
        no_texts()
    } else if pack_name(names.last()) {
        pack_names_of(names.drop_last()).push(names.last())
    } else {
        pack_names_of(names.drop_last())
    }
}

/// The packs among the files of a directory, in order.
pub fn pack_files(names: &Vec<String>) -> (packs: Vec<String>)
    ensures
        ordered(texts(packs@)),
        texts(packs@).to_multiset() == pack_names_of(texts(names@)).to_multiset(),
{
    let ghost all = texts(names@);
    let mut packs = new_texts();
    let mut at: usize = 0;
    assert(all.take(0).len() == 0);
    while at < names.len()
        invariant
            at <= names@.len(),
            all == texts(names@),
            ordered(texts(packs@)),
            texts(packs@).to_multiset() == pack_names_of(all.take(at as int)).to_multiset(),
        decreases names@.len() - at,
    {
        proof {
            assert(all.take(at + 1).drop_last() == all.take(at as int));
            assert(all.take(at + 1).last() == names@[at as int]@);
        }
        if is_pack_name(names[at].as_str()) {
            proof {
                vstd::seq_lib::to_multiset_build(
                    pack_names_of(all.take(at as int)),
                    names@[at as int]@,
                );
            }
            insert_ordered(&mut packs, names[at].clone());
        }
        at = at + 1;
    }
    assert(all.take(at as int) == all);
    packs
}

/// Refuses a manifest of another repository. `named` is what the repository is
/// called in the message.
pub fn check_manifest(manifest: &RepositoryId, repository: &RepositoryId, named: &str) -> (verdict:
    Result<(), MirageError>)
    ensures
        answers(
            verdict,
            if manifest@ == repository@ {
                None
            } else {
                invalid("import manifest repository does not match "@ + named@)
            },
        ),
{
    if !manifest.same(repository) {
        let message = joined("import manifest repository does not match ", named);
        return Err(MirageError::invalid_argument(message.as_str()));
    }
    Ok(())
}

/// Refuses an import whose manifest has pages but which has no packs.
pub fn check_packs(pack_count: usize, page_count: usize) -> (verdict: Result<(), MirageError>)
    ensures
        answers(
            verdict,
            if pack_count == 0 && page_count > 0 {
                invalid("import contains no pack files"@)
            } else {
                None
            },
        ),
{
    if pack_count == 0 && page_count > 0 {
        return Err(MirageError::invalid_argument("import contains no pack files"));
    }
    Ok(())
}

// ---------------------------------------------------------------------------
// Keys
// ---------------------------------------------------------------------------

/// Why a hexadecimal argument is refused, if it is.
pub open spec fn hex_refusal(value: Seq<char>, label: Seq<char>, count: nat) -> Refusal {
    if hex_shaped(value, count) {
        None
    } else {
        invalid(
            label + " must be exactly "@ + decimal_text(2 * count) + " hexadecimal characters"@,
        )
    }
}

/// The bytes of a hexadecimal argument.
pub fn parse_hex<const N: usize>(value: &str, label: &str) -> (bytes: Result<[u8; N], MirageError>)
    requires
        2 * N <= usize::MAX,
    ensures
        answers(bytes, hex_refusal(value@, label@, N as nat)),
        bytes matches Ok(bytes) ==> bytes@ == hex_bytes(value@),
{
    let chars = chars_of(value);
    let mut shaped = chars.len() == 2 * N;
    let mut bytes: [u8; N] = [0u8; N];
    let mut at: usize = 0;
    while shaped && at < N
        invariant
            at <= N,
            2 * N <= usize::MAX,
            chars@ == value@,
            shaped ==> chars@.len() == 2 * N,
            shaped ==> forall|i: int| 0 <= i < 2 * at ==> is_hex_digit(#[trigger] value@[i]),
            shaped ==> forall|i: int| 0 <= i < at ==> bytes@[i] == #[trigger] hex_bytes(value@)[i],
            !shaped ==> !hex_shaped(value@, N as nat),
        decreases N - at, if shaped {
            1nat
        } else {
            0
        },
    {
        let high = chars[2 * at];
        let low = chars[2 * at + 1];
        if !hex_digit(high) || !hex_digit(low) {
            assert(!is_hex_digit(value@[2 * at]) || !is_hex_digit(value@[2 * at + 1]));
            shaped = false;
        } else {
            bytes[at] = 16 * hex_digit_value(high) + hex_digit_value(low);
            at = at + 1;
        }
    }
    if !shaped {
        let mut message = joined(label, " must be exactly ");
        message.append(decimal((2 * N) as u64).as_str());
        message.append(" hexadecimal characters");
        return Err(MirageError::invalid_argument(message.as_str()));
    }
    assert(bytes@ =~= hex_bytes(value@));
    Ok(bytes)
}

/// The parts of a test signer.
pub struct TestSignerKey {
    pub key_id: [u8; 16],
    pub key: [u8; 32],
}

/// Why the parts of a test signer are refused, if they are.
pub open spec fn signer_refusal(key_id_hex: Seq<char>, key_hex: Seq<char>) -> Refusal {
    match hex_refusal(key_id_hex, "key id"@, 16) {
        Some(refusal) => Some(refusal),
        None => hex_refusal(key_hex, "test key"@, 32),
    }
}

/// Reads the parts of a test signer.
pub fn signer(key_id_hex: &str, key_hex: &str) -> (parts: Result<TestSignerKey, MirageError>)
    ensures
        answers(parts, signer_refusal(key_id_hex@, key_hex@)),
        parts matches Ok(parts) ==> parts.key_id@ == hex_bytes(key_id_hex@) && parts.key@
            == hex_bytes(key_hex@),
{
    let key_id = parse_hex::<16>(key_id_hex, "key id")?;
    let key = parse_hex::<32>(key_hex, "test key")?;
    Ok(TestSignerKey { key_id, key })
}

/// Where the content key of an import comes from.
#[derive(Debug, Clone, Copy, PartialEq, Eq, Structural)]
pub enum KeyPlan {
    /// Pages are not encrypted.
    Unencrypted,
    /// The key of an earlier import is used again.
    Load,
    /// A new key is made and stored before anything is encrypted with it.
    Create,
}

/// Decides where the content key of an import comes from. Packs without their
/// key are never added to under another key.
pub fn key_plan(unencrypted: bool, key_exists: bool, names: &Vec<String>) -> (plan: Result<
    KeyPlan,
    MirageError,
>)
    ensures
        answers(
            plan,
            if !unencrypted && !key_exists && pack_names_of(texts(names@)).len() > 0 {
                conflict("encrypted import key is missing for existing packs"@)
            } else {
                None
            },
        ),
        plan matches Ok(plan) ==> plan == if unencrypted {
            KeyPlan::Unencrypted
        } else if key_exists {
            KeyPlan::Load
        } else {
            KeyPlan::Create
        },
{
    if unencrypted {
        return Ok(KeyPlan::Unencrypted);
    }
    if key_exists {
        return Ok(KeyPlan::Load);
    }
    let packs = pack_files(names);
    proof {
        texts(packs@).to_multiset_ensures();
        pack_names_of(texts(names@)).to_multiset_ensures();
        assert(texts(packs@).len() == packs@.len());
    }
    if packs.len() > 0 {
        return Err(
            MirageError::repository_conflict("encrypted import key is missing for existing packs"),
        );
    }
    Ok(KeyPlan::Create)
}

// ---------------------------------------------------------------------------
// Requests
// ---------------------------------------------------------------------------

/// Refuses an import without its safety acknowledgement.
pub fn check_local_only(local_only: bool) -> (verdict: Result<(), MirageError>)
    ensures
        answers(
            verdict,
            if local_only {
                None
            } else {
                invalid("repo import requires --local-only during this roadmap milestone"@)
            },
        ),
{
    if !local_only {
        return Err(
            MirageError::invalid_argument(
                "repo import requires --local-only during this roadmap milestone",
            ),
        );
    }
    Ok(())
}

/// Refuses a verification level other than that of the metadata.
pub fn check_level(level: &str) -> (verdict: Result<(), MirageError>)
    ensures
        answers(
            verdict,
            if level@ == "metadata"@ {
                None
            } else {
                invalid("only --level metadata is implemented in this milestone"@)
            },
        ),
{
    if !same_text(level, "metadata") {
        return Err(
            MirageError::invalid_argument("only --level metadata is implemented in this milestone"),
        );
    }
    Ok(())
}

/// Decides about the publication manifest: whether it is to be written. One that
/// is there already has to be the same.
pub fn write_new_or_identical(existing: Option<&[u8]>, bytes: &[u8]) -> (write: Result<
    bool,
    MirageError,
>)
    ensures
        answers(
            write,
            if existing is Some && existing->Some_0@ != bytes@ {
                conflict("Drive publication manifest already exists with different bytes"@)
            } else {
                None
            },
        ),
        write matches Ok(write) ==> write == existing is None,
{
    match existing {
        Some(existing) => if same_bytes(existing, bytes) {
            Ok(false)
        } else {
            Err(
                MirageError::repository_conflict(
                    "Drive publication manifest already exists with different bytes",
                ),
            )
        },
        None => Ok(true),
    }
}

// ---------------------------------------------------------------------------
// Reports
// ---------------------------------------------------------------------------

/// Whether a path stands below another, both as lists of components.
pub open spec fn path_below(path: Seq<Seq<char>>, root: Seq<Seq<char>>) -> bool {
    root.len() <= path.len() && path.take(root.len() as int) == root
}

/// Refuses an inventory report inside the tree that is scanned. `root` and
/// `parent` are the components of the resolved source and of the resolved
/// directory of the report.
pub fn ensure_report_outside_source(
    root: &Vec<String>,
    parent: &Vec<String>,
    file_name: Option<&str>,
) -> (verdict: Result<(), MirageError>)
    ensures
        answers(
            verdict,
            match file_name {
                None => invalid("report path has no file name"@),
                Some(name) => if path_below(texts(parent@).push(name@), texts(root@)) {
                    invalid("inventory report must be outside the scanned source tree"@)
                } else {
                    None
                },
            },
        ),
{
    let name = match file_name {
        Some(name) => name,
        None => {
            return Err(MirageError::invalid_argument("report path has no file name"));
        },
    };
    let ghost path = texts(parent@).push(name@);
    let ghost tree = texts(root@);
    let length: usize = root.len();
    if length > 0 && length - 1 > parent.len() {
        assert(!path_below(path, tree));
        return Ok(());
    }
    let mut at: usize = 0;
    while at < length
        invariant
            at <= length,
            length == root@.len(),
            length <= parent@.len() + 1,
            file_name == Some(name),
            path == texts(parent@).push(name@),
            tree == texts(root@),
            forall|i: int| 0 <= i < at ==> path[i] == #[trigger] tree[i],
        decreases length - at,
    {
        assert(tree[at as int] == root@[at as int]@);
        if at < parent.len() {
            assert(path[at as int] == parent@[at as int]@);
        }
        let component = if at < parent.len() {
            parent[at].as_str()
        } else {
            name
        };
        if !same_text(component, root[at].as_str()) {
            proof {
                if path_below(path, tree) {
                    assert(path.take(length as int)[at as int] == tree[at as int]);
                }
            }
            return Ok(());
        }
        at = at + 1;
    }
    assert(path.take(length as int) =~= tree);
    Err(MirageError::invalid_argument("inventory report must be outside the scanned source tree"))
}

/// The temporary name of a report.
pub open spec fn temporary_name(name: Seq<char>, suffix: int) -> Seq<char> {
    "."@ + name + ".mirage-tmp-"@ + decimal_text(suffix as nat)
}

/// Whether a suffix is the first whose temporary name is not taken.
pub open spec fn first_free_suffix(name: Seq<char>, taken: Seq<Seq<char>>, suffix: int) -> bool {
    &&& !taken.contains(temporary_name(name, suffix))
    &&& forall|earlier: int|
        0 <= earlier < suffix ==> taken.contains(#[trigger] temporary_name(name, earlier))
}

fn is_listed(names: &Vec<String>, name: &str) -> (yes: bool)
    ensures
        yes == texts(names@).contains(name@),
{
    let ghost all = texts(names@);
    let mut at: usize = 0;
    while at < names.len()
        invariant
            at <= names@.len(),
            all == texts(names@),
            forall|i: int| 0 <= i < at ==> #[trigger] all[i] != name@,
        decreases names@.len() - at,
    {
        assert(all[at as int] == names@[at as int]@);
        if same_text(names[at].as_str(), name) {
            assert(all[at as int] == name@);
            return true;
        }
        at = at + 1;
    }
    false
}

/// Whether a result is the first temporary name that is not taken, or says that
/// every one is taken.
pub open spec fn is_temporary(
    temporary: Result<String, MirageError>,
    name: Seq<char>,
    taken: Seq<Seq<char>>,
) -> bool {
    match temporary {
        Ok(temporary) => exists|suffix: int|
            0 <= suffix <= 65535 && #[trigger] first_free_suffix(name, taken, suffix)
                && temporary@ == temporary_name(name, suffix),
        Err(error) => {
            &&& error.kind == MirageErrorKind::Io
            &&& error.message@ == "no temporary report name is available"@
            &&& forall|suffix: int|
                0 <= suffix <= 65535 ==> taken.contains(#[trigger] temporary_name(name, suffix))
        },
    }
}

fn first_free_name(name: &str, taken: &Vec<String>) -> (temporary: Result<String, MirageError>)
    ensures
        is_temporary(temporary, name@, texts(taken@)),
{
    let mut suffix: u64 = 0;
    while suffix <= 65535
        invariant
            suffix <= 65536,
            forall|earlier: int|
                0 <= earlier < suffix ==> texts(taken@).contains(
                    #[trigger] temporary_name(name@, earlier),
                ),
        decreases 65536 - suffix,
    {
        let mut candidate = joined(".", name);
        candidate.append(".mirage-tmp-");
        candidate.append(decimal(suffix).as_str());
        assert(candidate@ == temporary_name(name@, suffix as int));
        if !is_listed(taken, candidate.as_str()) {
            assert(first_free_suffix(name@, texts(taken@), suffix as int));
            return Ok(candidate);
        }
        suffix = suffix + 1;
    }
    Err(MirageError::new(MirageErrorKind::Io, "no temporary report name is available"))
}

/// The first temporary name of a report that is not taken. A report whose name
/// is no text has none.
pub fn temporary_report_name(name: Option<&str>, taken: &Vec<String>) -> (temporary: Result<
    String,
    MirageError,
>)
    ensures
        match name {
            Some(name) => is_temporary(temporary, name@, texts(taken@)),
            None => answers(temporary, invalid("report file name must be valid UTF-8"@)),
        },
{
    match name {
        Some(name) => first_free_name(name, taken),
        None => Err(MirageError::invalid_argument("report file name must be valid UTF-8")),
    }
}

} // verus!
