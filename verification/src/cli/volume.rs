//! Managed Drive-backed volumes: letters, budgets, names, and the steps of
//! creating one.

use vstd::prelude::*;
use crate::cli::commands::RepoCommand;
use crate::cli::components::{first_component, leading_component};
use crate::cli::device_drive::drive_root;
use crate::cli::host::{below, join_path, HostPath};
use crate::cli::ipc::{SensitiveString, ServiceCommand};
use crate::config::validate::PathPolicy;
use crate::crypto::primitives::{draw_random, is_draw};
use crate::bytes::{array16, array32};
use crate::error::{
    answers, broken, description, failure_of, fails_with, invalid, MirageError, MirageErrorKind, Refusal,
};
use crate::ids::RepositoryId;
use crate::text::{
    alphabetic, chars_of, contains_text, control, has_text, hex_text, is_alphabetic, is_control,
    joined, new_texts, same_text, texts, to_upper, trim, trim_trailing, trimmed, upper_char,
    without_trailing,
};

verus! {

pub const GIB: u64 = 1073741824;

pub const MAX_VOLUME_NAME_CHARS: usize = 64;

/// What a volume is to be like.
#[derive(Debug, Clone, PartialEq, Eq)]
pub struct VolumeSpec {
    pub name: String,
    pub drive_letter: String,
    pub budget_bytes: u64,
    pub floor_bytes: Option<u64>,
}

/// A volume that was created and mounted.
#[derive(Debug, Clone)]
pub struct VolumeCreated {
    pub repository_id: RepositoryId,
    pub name: String,
    pub drive_letter: String,
    pub budget_bytes: u64,
    pub floor_bytes: Option<u64>,
    /// Set when the free-space floor could not be applied. The volume is still
    /// usable.
    pub floor_error: Option<String>,
    pub account_id: String,
    pub mount_point: String,
    pub state: String,
}

/// A disk with its sizes.
#[derive(Debug, Clone)]
pub struct DiskInfo {
    pub volume_root: String,
    pub total_bytes: u64,
    pub free_bytes: u64,
}

/// What the host reports of a drive letter: total and free bytes, if it has any.
#[derive(Debug, Clone, Copy)]
pub struct DriveReport {
    pub letter: char,
    pub space: Option<(u64, u64)>,
}

// ---------------------------------------------------------------------------
// Drive letters
// ---------------------------------------------------------------------------

/// Whether a letter from A to Z is in use, by the host's mask of drives.
pub open spec fn letter_used(used: u32, letter: char) -> bool {
    (used >> ((letter as u32) - 65) as u32) & 1 == 1
}

fn is_used(used: u32, letter: char) -> (yes: bool)
    requires
        'A' <= letter <= 'Z',
    ensures
        yes == letter_used(used, letter),
{
    let bit: u32 = (letter as u32) - 65;
    (used >> bit) & 1 == 1
}

fn next_letter(letter: char) -> (next: char)
    requires
        'A' <= letter <= 'Z',
    ensures
        next as u32 == letter as u32 + 1,
{
    ((letter as u8) + 1) as char
}

/// Whether every letter from M: to Z: is in use.
pub open spec fn none_free(used: u32) -> bool {
    forall|c: char| 'M' <= c <= 'Z' ==> #[trigger] letter_used(used, c)
}

/// The first free drive letter, scanning M: toward Z:.
pub fn first_free_letter(used: u32) -> (letter: Result<char, MirageError>)
    ensures
        match letter {
            Ok(letter) => {
                &&& 'M' <= letter <= 'Z'
                &&& !letter_used(used, letter)
                &&& forall|c: char| 'M' <= c < letter ==> #[trigger] letter_used(used, c)
            },
            Err(_) => forall|c: char| 'M' <= c <= 'Z' ==> #[trigger] letter_used(used, c),
        },
        letter is Err ==> fails_with(
            letter,
            MirageErrorKind::InvalidArgument,
            "no free Explorer drive letter between M: and Z:"@,
        ),
        letter is Err ==> none_free(used),
{
    let mut letter = 'M';
    while letter <= 'Z'
        invariant
            'M' <= letter,
            letter as u32 <= 'Z' as u32 + 1,
            forall|c: char| 'M' <= c < letter ==> #[trigger] letter_used(used, c),
        decreases 91 - letter as u32,
    {
        if !is_used(used, letter) {
            return Ok(letter);
        }
        letter = next_letter(letter);
    }
    Err(MirageError::invalid_argument("no free Explorer drive letter between M: and Z:"))
}

/// The letters in use from a code point on, up to Z:, in order.
pub open spec fn used_letters(used: u32, from: int) -> Seq<char>
    decreases 91 - from,
{
    if from > 90 {
        Seq::empty()
    } else if letter_used(used, from as u8 as char) {
        seq![from as u8 as char] + used_letters(used, from + 1)
    } else {
        used_letters(used, from + 1)
    }
}

/// The drive letters whose space is to be asked for: C: to Z:, as far as in use.
pub fn disk_letters(used: u32) -> (letters: Vec<char>)
    ensures
        letters@ == used_letters(used, 'C' as int),
{
    let mut letters: Vec<char> = Vec::new();
    let mut letter = 'C';
    while letter <= 'Z'
        invariant
            'C' <= letter,
            letter as u32 <= 'Z' as u32 + 1,
            used_letters(used, 'C' as int) == letters@ + used_letters(used, letter as int),
        decreases 91 - letter as u32,
    {
        let ghost before = letters@;
        if is_used(used, letter) {
            letters.push(letter);
            assert(before + (seq![letter] + used_letters(used, letter as int + 1)) == letters@
                + used_letters(used, letter as int + 1));
        }
        letter = next_letter(letter);
    }
    assert(used_letters(used, letter as int) == Seq::<char>::empty());
    letters
}

/// The disk of a report, unless it has no size.
pub open spec fn disk_of(report: DriveReport) -> Option<(Seq<char>, u64, u64)> {
    match report.space {
        Some((total, free)) => if total == 0 {
            None
        } else {
            Some((drive_root(report.letter), total, free))
        },
        None => None,
    }
}

/// The disks of some reports, in order.
pub open spec fn disks_of(reports: Seq<DriveReport>) -> Seq<(Seq<char>, u64, u64)>
    decreases reports.len(),
{
    if reports.len() == 0 {
        Seq::empty()
    } else if disk_of(reports.last()) is Some {
        disks_of(reports.drop_last()).push(disk_of(reports.last())->Some_0)
    } else {
        disks_of(reports.drop_last())
    }
}

/// Disks as values.
pub open spec fn disk_views(disks: Seq<DiskInfo>) -> Seq<(Seq<char>, u64, u64)> {
    disks.map_values(
        |disk: DiskInfo| (disk.volume_root@, disk.total_bytes, disk.free_bytes),
    )
}

/// The disks that have a size, out of the host's reports.
pub fn disks(reports: &Vec<DriveReport>) -> (disks: Vec<DiskInfo>)
    ensures
        disk_views(disks@) == disks_of(reports@),
{
    let mut disks: Vec<DiskInfo> = Vec::new();
    let mut at: usize = 0;
    assert(disk_views(disks@) == disks_of(reports@.take(0)));
    while at < reports.len()
        invariant
            at <= reports@.len(),
            disk_views(disks@) == disks_of(reports@.take(at as int)),
        decreases reports@.len() - at,
    {
        let ghost before = disk_views(disks@);
        proof {
            assert(reports@.take(at + 1).drop_last() == reports@.take(at as int));
            assert(reports@.take(at + 1).last() == reports@[at as int]);
        }
        let report = reports[at];
        if let Some((total, free)) = report.space {
            if total != 0 {
                let mut root: String = String::new();
                root.push(report.letter);
                assert(root@ == seq![report.letter]);
                root.append(":\\");
                disks.push(DiskInfo { volume_root: root, total_bytes: total, free_bytes: free });
                assert(disk_views(disks@) == before.push(
                    (drive_root(report.letter), total, free),
                ));
            }
        }
        at = at + 1;
    }
    assert(reports@.take(at as int) == reports@);
    disks
}

/// The free letters from a code point on, up to Z:, in order.
pub open spec fn unused_letters(used: u32, from: int) -> Seq<Seq<char>>
    decreases 91 - from,
{
    if from > 90 {
        Seq::empty()
    } else if letter_used(used, from as u8 as char) {
        unused_letters(used, from + 1)
    } else {
        seq![seq![from as u8 as char]] + unused_letters(used, from + 1)
    }
}

/// Every free drive letter from D: through Z:.
pub fn free_letters(used: u32) -> (letters: Vec<String>)
    ensures
        texts(letters@) == unused_letters(used, 'D' as int),
{
    let mut letters = new_texts();
    let mut letter = 'D';
    assert(unused_letters(used, 'D' as int) == texts(letters@) + unused_letters(used, 'D' as int));
    while letter <= 'Z'
        invariant
            'D' <= letter,
            letter as u32 <= 'Z' as u32 + 1,
            unused_letters(used, 'D' as int) == texts(letters@) + unused_letters(
                used,
                letter as int,
            ),
        decreases 91 - letter as u32,
    {
        let ghost before = texts(letters@);
        if !is_used(used, letter) {
            let mut text: String = String::new();
            text.push(letter);
            assert(text@ == seq![letter]);
            letters.push(text);
            assert(texts(letters@) == before.push(seq![letter]));
            assert(before + (seq![seq![letter]] + unused_letters(used, letter as int + 1))
                == texts(letters@) + unused_letters(used, letter as int + 1));
        }
        letter = next_letter(letter);
    }
    assert(unused_letters(used, letter as int) == Seq::<Seq<char>>::empty());
    letters
}

// ---------------------------------------------------------------------------
// Budgets and floors
// ---------------------------------------------------------------------------

/// The most free bytes of any disk.
pub open spec fn most_free(disks: Seq<DiskInfo>) -> u64
    decreases disks.len(),
{
    if disks.len() == 0 {
        0
    } else if disks.last().free_bytes >= most_free(disks.drop_last()) {
        disks.last().free_bytes
    } else {
        most_free(disks.drop_last())
    }
}

/// The default local budget, given the most free bytes of any disk: a quarter of
/// them, but at most 64 GiB.
pub open spec fn default_budget(most_free: u64) -> u64 {
    if most_free / 4 < 64 * GIB {
        most_free / 4
    } else {
        (64 * GIB) as u64
    }
}

/// Default local budget: a quarter of the free space of the disk with the most
/// of it, but at most 64 GiB.
pub fn default_budget_bytes(disks: &Vec<DiskInfo>) -> (budget: Result<u64, MirageError>)
    ensures
        answers(
            budget,
            if disks@.len() == 0 {
                invalid("no fixed disk has free space"@)
            } else {
                None
            },
        ),
        budget matches Ok(budget) ==> budget == default_budget(most_free(disks@)),
{
    if disks.len() == 0 {
        return Err(MirageError::invalid_argument("no fixed disk has free space"));
    }
    let mut most: u64 = 0;
    let mut at: usize = 0;
    assert(most_free(disks@.take(0)) == 0);
    while at < disks.len()
        invariant
            at <= disks@.len(),
            most == most_free(disks@.take(at as int)),
        decreases disks@.len() - at,
    {
        proof {
            assert(disks@.take(at + 1).drop_last() == disks@.take(at as int));
            assert(disks@.take(at + 1).last() == disks@[at as int]);
        }
        if disks[at].free_bytes >= most {
            most = disks[at].free_bytes;
        }
        at = at + 1;
    }
    assert(disks@.take(at as int) == disks@);
    let quarter: u64 = most / 4;
    if quarter < 64 * GIB {
        Ok(quarter)
    } else {
        Ok(64 * GIB)
    }
}

/// Default free-space floor of a disk: a tenth of it, but at least 20 GiB.
pub fn default_floor_bytes(disk: &DiskInfo) -> (floor: u64)
    ensures
        floor == if disk.total_bytes / 10 > 20 * GIB {
            (disk.total_bytes / 10) as int
        } else {
            20 * GIB
        },
{
    let tenth: u64 = disk.total_bytes / 10;
    if tenth > 20 * GIB {
        tenth
    } else {
        20 * GIB
    }
}

pub fn default_volume_name() -> (name: &'static str)
    ensures
        name@ == "MirageSSD"@,
{
    "MirageSSD"
}

/// The program data directory, where it is not said.
pub open spec fn program_data_text(program_data: Option<&str>) -> Seq<char> {
    match program_data {
        Some(path) => path@,
        None => "C:\\ProgramData"@,
    }
}

/// The root of the volume that holds the service state: the first component of
/// the program data directory.
pub fn state_volume_root(program_data: Option<&str>, policy: PathPolicy) -> (root: Result<
    String,
    MirageError,
>)
    ensures
        match first_component(program_data_text(program_data), policy) {
            Some(component) => root is Ok && root->Ok_0@ == component + "\\"@,
            None => answers(root, invalid("ProgramData path has no volume root"@)),
        },
{
    let path = match program_data {
        Some(path) => path,
        None => "C:\\ProgramData",
    };
    match leading_component(path, policy) {
        Some(component) => Ok(joined(component.as_str(), "\\")),
        None => Err(MirageError::invalid_argument("ProgramData path has no volume root")),
    }
}

/// The disk that holds the service state, as the host reports it.
pub fn state_volume(root: String, space: Option<(u64, u64)>) -> (disk: Result<DiskInfo, MirageError>)
    ensures
        answers(
            disk,
            if space is Some {
                None
            } else {
                invalid("the service state disk could not be inspected"@)
            },
        ),
        disk matches Ok(disk) ==> disk == (DiskInfo {
            volume_root: root,
            total_bytes: space->Some_0.0,
            free_bytes: space->Some_0.1,
        }),
{
    match space {
        Some((total, free)) => Ok(
            DiskInfo { volume_root: root, total_bytes: total, free_bytes: free },
        ),
        None => Err(
            MirageError::invalid_argument("the service state disk could not be inspected"),
        ),
    }
}

/// Where the local directories of volumes are.
pub fn volumes_root(local_app_data: Option<&str>, separator: char) -> (root: Result<
    String,
    MirageError,
>)
    ensures
        answers(
            root,
            if local_app_data is Some {
                None
            } else {
                invalid("LOCALAPPDATA is unavailable"@)
            },
        ),
        root matches Ok(root) ==> root@ == below(
            below(local_app_data->Some_0@, separator, "MirageSSD"@),
            separator,
            "volumes"@,
        ),
{
    match local_app_data {
        Some(local) => {
            let product = join_path(local, separator, "MirageSSD");
            Ok(join_path(product.as_str(), separator, "volumes"))
        },
        None => Err(MirageError::invalid_argument("LOCALAPPDATA is unavailable")),
    }
}

/// Why the open choices of a volume cannot be filled in, given what reading the
/// sizes and asking for the used letters came to. The letter is chosen before the
/// budget, and the budget before the floor.
pub open spec fn choice_refusal(
    letter_is_open: bool,
    budget: Option<Result<u64, MirageError>>,
    floor: Result<u64, MirageError>,
    used: Result<u32, MirageError>,
    disks: Seq<DiskInfo>,
) -> Refusal {
    if letter_is_open && failure_of(used) is Some {
        failure_of(used)
    } else if letter_is_open && (forall|c: char|
        'M' <= c <= 'Z' ==> #[trigger] letter_used(used->Ok_0, c)) {
        invalid("no free Explorer drive letter between M: and Z:"@)
    } else if budget is Some && failure_of(budget->Some_0) is Some {
        failure_of(budget->Some_0)
    } else if budget is None && failure_of(used) is Some {
        failure_of(used)
    } else if budget is None && disks.len() == 0 {
        invalid("no fixed disk has free space"@)
    } else {
        failure_of(floor)
    }
}

/// Fills in what a request for a volume leaves open: the first free letter and
/// the default budget. The name and the floor are as they are given.
pub fn resolve_spec(
    name: String,
    letter: Option<String>,
    budget: Option<Result<u64, MirageError>>,
    floor: Result<u64, MirageError>,
    used: Result<u32, MirageError>,
    disks: &Vec<DiskInfo>,
) -> (spec: Result<VolumeSpec, MirageError>)
    ensures
        answers(spec, choice_refusal(letter is None, budget, floor, used, disks@)),
        spec matches Ok(spec) ==> {
            &&& spec.name == name
            &&& match letter {
                Some(letter) => spec.drive_letter == letter,
                None => exists|c: char|
                    #![trigger letter_used(used->Ok_0, c)]
                    {
                        &&& 'M' <= c <= 'Z'
                        &&& !letter_used(used->Ok_0, c)
                        &&& spec.drive_letter@ == seq![c]
                        &&& forall|d: char|
                            'M' <= d < c ==> #[trigger] letter_used(used->Ok_0, d)
                    },
            }
            &&& spec.budget_bytes == match budget {
                Some(bytes) => bytes->Ok_0,
                None => default_budget(most_free(disks@)),
            }
            &&& spec.floor_bytes == Some(floor->Ok_0)
        },
{
    let drive_letter = match letter {
        Some(letter) => letter,
        None => {
            let mask: u32 = match used {
                Ok(mask) => mask,
                Err(error) => {
                    return Err(error);
                },
            };
            let free = first_free_letter(mask)?;
            let mut text: String = String::new();
            text.push(free);
            assert(text@ == seq![free]);
            text
        },
    };
    let budget_bytes: u64 = match budget {
        Some(Ok(bytes)) => bytes,
        Some(Err(error)) => {
            return Err(error);
        },
        None => {
            if let Err(error) = used {
                return Err(error);
            }
            default_budget_bytes(disks)?
        },
    };
    match floor {
        Ok(floor) => Ok(
            VolumeSpec { name, drive_letter, budget_bytes, floor_bytes: Some(floor) },
        ),
        Err(error) => Err(error),
    }
}

// ---------------------------------------------------------------------------
// Names and letters of a new volume
// ---------------------------------------------------------------------------

/// Characters that a volume name may not hold.
pub open spec fn forbidden_in_name(c: char) -> bool {
    is_control(c) || c == '<' || c == '>' || c == ':' || c == '"' || c == '/' || c == '\\' || c
        == '|' || c == '?' || c == '*'
}

/// Whether a trimmed text can be a volume name.
pub open spec fn name_shaped(name: Seq<char>) -> bool {
    1 <= name.len() <= MAX_VOLUME_NAME_CHARS && forall|i: int|
        0 <= i < name.len() ==> !forbidden_in_name(#[trigger] name[i])
}

/// Why a name is refused, if it is.
pub open spec fn name_refusal(name: Seq<char>) -> Refusal {
    if name_shaped(trimmed(name)) {
        None
    } else {
        invalid("volume name must be 1-64 characters without Windows filename symbols"@)
    }
}

fn shaped_name(name: &str) -> (shaped: bool)
    ensures
        shaped == name_shaped(name@),
{
    let chars = chars_of(name);
    let length: usize = chars.len();
    if length == 0 || length > MAX_VOLUME_NAME_CHARS {
        return false;
    }
    for at in 0..length
        invariant
            length == chars@.len(),
            chars@ == name@,
            1 <= length <= MAX_VOLUME_NAME_CHARS,
            forall|i: int| 0 <= i < at ==> !forbidden_in_name(#[trigger] name@[i]),
    {
        let c = chars[at];
        if control(c) || c == '<' || c == '>' || c == ':' || c == '"' || c == '/' || c == '\\' || c
            == '|' || c == '?' || c == '*' {
            assert(forbidden_in_name(name@[at as int]));
            return false;
        }
    }
    true
}

/// Checks the name of a trimmed text.
pub fn validate_trimmed_name(name: &str) -> (checked: Result<String, MirageError>)
    ensures
        answers(
            checked,
            if name_shaped(name@) {
                None
            } else {
                invalid("volume name must be 1-64 characters without Windows filename symbols"@)
            },
        ),
        checked matches Ok(checked) ==> checked@ == name@,
{
    if shaped_name(name) {
        Ok(name.to_owned())
    } else {
        Err(
            MirageError::invalid_argument(
                "volume name must be 1-64 characters without Windows filename symbols",
            ),
        )
    }
}

/// Checks a volume name, without the white space around it.
pub fn validate_name(name: &str) -> (checked: Result<String, MirageError>)
    ensures
        answers(checked, name_refusal(name@)),
        checked matches Ok(checked) ==> checked@ == trimmed(name@),
{
    validate_trimmed_name(trim(name).as_str())
}

/// What is left of a trimmed drive argument without colons and backslashes.
pub open spec fn bare_letter(letter: Seq<char>) -> Seq<char> {
    without_trailing(without_trailing(letter, ':', ':'), '\\', '\\')
}

/// Why a trimmed drive argument is refused, if it is.
pub open spec fn trimmed_letter_refusal(letter: Seq<char>) -> Refusal {
    if bare_letter(letter).len() == 1 && is_alphabetic(bare_letter(letter)[0]) {
        None
    } else {
        invalid("drive letter must be one ASCII letter, for example M"@)
    }
}

/// The letter of a trimmed drive argument, in upper case.
pub fn normalize_trimmed_letter(letter: &str) -> (normal: Result<String, MirageError>)
    ensures
        answers(normal, trimmed_letter_refusal(letter@)),
        normal matches Ok(normal) ==> normal@ == seq![upper_char(bare_letter(letter@)[0])],
{
    let without_colons = trim_trailing(letter, ':', ':');
    let bare = trim_trailing(without_colons.as_str(), '\\', '\\');
    let chars = chars_of(bare.as_str());
    if chars.len() != 1 || !alphabetic(chars[0]) {
        return Err(
            MirageError::invalid_argument("drive letter must be one ASCII letter, for example M"),
        );
    }
    let mut normal: String = String::new();
    normal.push(to_upper(chars[0]));
    assert(normal@ == seq![upper_char(bare_letter(letter@)[0])]);
    Ok(normal)
}

/// The letter of a drive argument, in upper case, without the white space around
/// it.
pub fn normalize_letter(letter: &str) -> (normal: Result<String, MirageError>)
    ensures
        answers(normal, trimmed_letter_refusal(trimmed(letter@))),
        normal matches Ok(normal) ==> normal@ == seq![
            upper_char(bare_letter(trimmed(letter@))[0]),
        ],
{
    normalize_trimmed_letter(trim(letter).as_str())
}

/// Why a budget is refused, if it is.
pub open spec fn budget_refusal(budget_bytes: u64) -> Refusal {
    if GIB <= budget_bytes <= 1125899906842624 {
        None
    } else {
        invalid("volume budget must be between 1 GiB and 1 PiB"@)
    }
}

/// Why a volume is not created as specified, if it is not.
pub open spec fn spec_refusal(spec: VolumeSpec) -> Refusal {
    if name_refusal(spec.name@) is Some {
        name_refusal(spec.name@)
    } else if trimmed_letter_refusal(trimmed(spec.drive_letter@)) is Some {
        trimmed_letter_refusal(trimmed(spec.drive_letter@))
    } else {
        budget_refusal(spec.budget_bytes)
    }
}

/// Checks a specification and gives the name and the letter of the volume.
pub fn check_spec(spec: &VolumeSpec) -> (checked: Result<(String, String), MirageError>)
    ensures
        answers(checked, spec_refusal(*spec)),
        checked matches Ok((name, letter)) ==> {
            &&& name@ == trimmed(spec.name@)
            &&& letter@ == seq![upper_char(bare_letter(trimmed(spec.drive_letter@))[0])]
        },
{
    let name = validate_name(spec.name.as_str())?;
    let letter = normalize_letter(spec.drive_letter.as_str())?;
    if spec.budget_bytes < GIB || spec.budget_bytes > 1125899906842624 {
        return Err(MirageError::invalid_argument("volume budget must be between 1 GiB and 1 PiB"));
    }
    Ok((name, letter))
}

/// The identity that a draw of the operating system's randomness gives: its
/// first 16 bytes. Without a draw, or with a shorter one, there is none.
pub fn drawn_repository_id(random: Option<&[u8]>) -> (id: Result<RepositoryId, MirageError>)
    ensures
        answers(
            id,
            if random is Some && random->Some_0@.len() >= 16 {
                None
            } else {
                broken("operating-system randomness failed"@)
            },
        ),
        id matches Ok(id) ==> id@ == random->Some_0@.subrange(0, 16),
{
    match random {
        Some(random) if random.len() >= 16 => Ok(RepositoryId::from_bytes(array16(random, 0))),
        _ => Err(MirageError::internal_invariant("operating-system randomness failed")),
    }
}

/// A new repository identity: the 16 bytes of one draw of the operating system's
/// randomness. It fails exactly where that draw does.
pub fn random_repository_id() -> (id: Result<RepositoryId, MirageError>)
    ensures
        exists|draw: Result<Vec<u8>, getrandom::Error>|
            #[trigger] is_draw(16, draw) && match draw {
                Ok(random) => random@.len() == 16 && id is Ok && id->Ok_0@ == random@,
                Err(_) => answers(id, broken("operating-system randomness failed"@)),
            },
{
    let draw = draw_random(16);
    let ghost seen = draw;
    let id = match &draw {
        Ok(random) => drawn_repository_id(Some(random.as_slice())),
        Err(_) => drawn_repository_id(None),
    };
    proof {
        if let Ok(random) = seen {
            assert(random@.subrange(0, 16) == random@);
        }
        assert(is_draw(16, seen));
    }
    id
}

// ---------------------------------------------------------------------------
// Creating a volume
// ---------------------------------------------------------------------------

/// A step of creating a volume.
#[derive(Debug, Clone, Copy, PartialEq, Eq, Structural)]
pub enum CreateStep {
    CreateDirectories,
    WriteMarker,
    BuildIndex,
    DrawSigner,
    Publish,
    PrepareToken,
    Register,
    SetDriveOrigin,
    SetManagedMode,
    Mount,
    ReadStateDisk,
    SetFloor,
    Done,
}

/// The step that follows, given whether a free-space floor is wanted.
pub open spec fn step_after(step: CreateStep, wants_floor: bool) -> CreateStep {
    match step {
        CreateStep::CreateDirectories => CreateStep::WriteMarker,
        CreateStep::WriteMarker => CreateStep::BuildIndex,
        CreateStep::BuildIndex => CreateStep::DrawSigner,
        CreateStep::DrawSigner => CreateStep::Publish,
        CreateStep::Publish => CreateStep::PrepareToken,
        CreateStep::PrepareToken => CreateStep::Register,
        CreateStep::Register => CreateStep::SetDriveOrigin,
        CreateStep::SetDriveOrigin => CreateStep::SetManagedMode,
        CreateStep::SetManagedMode => CreateStep::Mount,
        CreateStep::Mount => if wants_floor {
            CreateStep::ReadStateDisk
        } else {
            CreateStep::Done
        },
        CreateStep::ReadStateDisk => CreateStep::SetFloor,
        CreateStep::SetFloor => CreateStep::Done,
        CreateStep::Done => CreateStep::Done,
    }
}

/// Whether a generation was published before a step began.
pub open spec fn published_before(step: CreateStep) -> bool {
    match step {
        CreateStep::CreateDirectories
        | CreateStep::WriteMarker
        | CreateStep::BuildIndex
        | CreateStep::DrawSigner
        | CreateStep::Publish => false,
        _ => true,
    }
}

/// Whether the volume was mounted before a step began.
pub open spec fn mounted_before(step: CreateStep) -> bool {
    step == CreateStep::ReadStateDisk || step == CreateStep::SetFloor || step == CreateStep::Done
}

/// How a step is called in an error.
pub open spec fn step_label(step: CreateStep) -> Seq<char> {
    match step {
        CreateStep::CreateDirectories => "creating volume directories"@,
        CreateStep::WriteMarker => "creating the launcher marker"@,
        CreateStep::BuildIndex => "creating the volume index"@,
        CreateStep::DrawSigner => "initializing the signer"@,
        CreateStep::Publish => "publishing to Google Drive"@,
        CreateStep::PrepareToken => "preparing the mount token"@,
        CreateStep::Register
        | CreateStep::SetDriveOrigin
        | CreateStep::SetManagedMode
        | CreateStep::Mount => "onboarding with the service"@,
        CreateStep::ReadStateDisk => "reading the state disk"@,
        CreateStep::SetFloor | CreateStep::Done => "setting the free-space floor"@,
    }
}

/// The next step after one that succeeded.
pub fn next_step(step: CreateStep, wants_floor: bool) -> (next: CreateStep)
    ensures
        next == step_after(step, wants_floor),
{
    match step {
        CreateStep::CreateDirectories => CreateStep::WriteMarker,
        CreateStep::WriteMarker => CreateStep::BuildIndex,
        CreateStep::BuildIndex => CreateStep::DrawSigner,
        CreateStep::DrawSigner => CreateStep::Publish,
        CreateStep::Publish => CreateStep::PrepareToken,
        CreateStep::PrepareToken => CreateStep::Register,
        CreateStep::Register => CreateStep::SetDriveOrigin,
        CreateStep::SetDriveOrigin => CreateStep::SetManagedMode,
        CreateStep::SetManagedMode => CreateStep::Mount,
        CreateStep::Mount => {
            if wants_floor {
                CreateStep::ReadStateDisk
            } else {
                CreateStep::Done
            }
        },
        CreateStep::ReadStateDisk => CreateStep::SetFloor,
        CreateStep::SetFloor => CreateStep::Done,
        CreateStep::Done => CreateStep::Done,
    }
}

/// What is shown when a step begins, if anything.
pub fn progress_label(step: CreateStep, letter: &str) -> (label: Option<String>)
    ensures
        match step {
            CreateStep::BuildIndex => label is Some && label->Some_0@
                == "Creating the volume index"@,
            CreateStep::Publish => label is Some && label->Some_0@ == "Publishing to Google Drive"@,
            CreateStep::Register => label is Some && label->Some_0@ == "Registering the volume"@,
            CreateStep::Mount => label is Some && label->Some_0@ == "Mounting "@ + letter@ + ":"@,
            _ => label is None,
        },
{
    match step {
        CreateStep::BuildIndex => Some("Creating the volume index".to_owned()),
        CreateStep::Publish => Some("Publishing to Google Drive".to_owned()),
        CreateStep::Register => Some("Registering the volume".to_owned()),
        CreateStep::Mount => {
            let mut label = joined("Mounting ", letter);
            label.append(":");
            Some(label)
        },
        _ => None,
    }
}

/// How a failed creation is undone and reported.
#[derive(Debug)]
pub struct Rollback {
    /// The volume must not stay mounted over removed files.
    pub unmount: bool,
    pub error: MirageError,
}

/// The message of a failed creation.
pub open spec fn failure_text(
    step: CreateStep,
    repository_id: Seq<u8>,
    error: MirageError,
) -> Seq<char> {
    "volume create failed at \""@ + step_label(step) + "\" (repository "@ + hex_text(repository_id)
        + "): "@ + description(error) + "."@ + (if published_before(step) {
        " A Drive folder for this repository may have been left behind and can be deleted from Google Drive."@
    } else {
        ""@
    }) + (if mounted_before(step) {
        " The repository is still registered with the service; its native/import files were removed."@
    } else {
        ""@
    })
}

fn label_of(step: CreateStep) -> (label: &'static str)
    ensures
        label@ == step_label(step),
{
    match step {
        CreateStep::CreateDirectories => "creating volume directories",
        CreateStep::WriteMarker => "creating the launcher marker",
        CreateStep::BuildIndex => "creating the volume index",
        CreateStep::DrawSigner => "initializing the signer",
        CreateStep::Publish => "publishing to Google Drive",
        CreateStep::PrepareToken => "preparing the mount token",
        CreateStep::Register
        | CreateStep::SetDriveOrigin
        | CreateStep::SetManagedMode
        | CreateStep::Mount => "onboarding with the service",
        CreateStep::ReadStateDisk => "reading the state disk",
        CreateStep::SetFloor | CreateStep::Done => "setting the free-space floor",
    }
}

/// Decides how a failed step is undone and reported. The local directory of the
/// volume, and nothing else, is removed by the caller in any case.
pub fn roll_back(step: CreateStep, repository_id: RepositoryId, error: &MirageError) -> (rollback:
    Rollback)
    ensures
        rollback.unmount == mounted_before(step),
        rollback.error.kind == MirageErrorKind::InvalidArgument,
        rollback.error.message@ == failure_text(step, repository_id@, *error),
{
    let published = match step {
        CreateStep::CreateDirectories
        | CreateStep::WriteMarker
        | CreateStep::BuildIndex
        | CreateStep::DrawSigner
        | CreateStep::Publish => false,
        _ => true,
    };
    let mounted = step == CreateStep::ReadStateDisk || step == CreateStep::SetFloor || step
        == CreateStep::Done;
    let mut message: String = "volume create failed at \"".to_owned();
    message.append(label_of(step));
    message.append("\" (repository ");
    message.append(repository_id.to_text().as_str());
    message.append("): ");
    message.append(error.describe().as_str());
    message.append(".");
    message.append(
        if published {
            " A Drive folder for this repository may have been left behind and can be deleted from Google Drive."
        } else {
            ""
        },
    );
    message.append(
        if mounted {
            " The repository is still registered with the service; its native/import files were removed."
        } else {
            ""
        },
    );
    Rollback { unmount: mounted, error: MirageError::invalid_argument(message.as_str()) }
}

/// The signer of a volume's first and only signed generation. It is not kept,
/// because no later commit signs that generation again.
#[derive(Debug)]
pub struct VolumeSigner {
    pub key_id: [u8; 16],
    pub key: [u8; 32],
}

/// What the draw of a signer comes to, given what the draw of its identity came
/// back with. Without an identity there is none; otherwise the key is drawn, and
/// without a key there is none either.
pub open spec fn signer_drawn(
    signer: Result<VolumeSigner, MirageError>,
    key_id: Result<Vec<u8>, getrandom::Error>,
) -> bool {
    match key_id {
        Err(_) => answers(signer, broken("operating-system randomness failed"@)),
        Ok(key_id) => exists|key: Result<Vec<u8>, getrandom::Error>|
            #[trigger] is_draw(32, key) && match key {
                Err(_) => answers(signer, broken("operating-system randomness failed"@)),
                Ok(key) => signer is Ok && signer->Ok_0.key_id@ == key_id@ && signer->Ok_0.key@
                    == key@,
            },
    }
}

/// Draws the signer of a new volume: an identity of the 16 bytes of one draw of
/// the operating system's randomness and a key of the 32 bytes of another.
pub fn draw_signer() -> (signer: Result<VolumeSigner, MirageError>)
    ensures
        exists|key_id: Result<Vec<u8>, getrandom::Error>|
            #[trigger] is_draw(16, key_id) && signer_drawn(signer, key_id),
{
    let drawn_id = draw_random(16);
    let ghost seen_id = drawn_id;
    assert(is_draw(16, seen_id));
    let key_id: [u8; 16] = match &drawn_id {
        Ok(random) => array16(random.as_slice(), 0),
        Err(_) => {
            return Err(MirageError::internal_invariant("operating-system randomness failed"));
        },
    };
    let drawn_key = draw_random(32);
    let ghost seen_key = drawn_key;
    assert(is_draw(32, seen_key));
    let key: [u8; 32] = match &drawn_key {
        Ok(random) => array32(random.as_slice(), 0),
        Err(_) => {
            return Err(MirageError::internal_invariant("operating-system randomness failed"));
        },
    };
    proof {
        assert(key_id@ == seen_id->Ok_0@);
        assert(key@ == seen_key->Ok_0@);
    }
    Ok(VolumeSigner { key_id, key })
}

/// The import that makes the index of a new volume: an encrypted one of an empty
/// folder, with pages of 1 MiB and packs of 512 MiB.
pub fn index_request(repository_id: RepositoryId, empty: HostPath, import: HostPath) -> (request:
    RepoCommand)
    ensures
        request matches RepoCommand::Import {
            local_only,
            source,
            output,
            repository_id: id,
            generation,
            page_size,
            pack_target,
            virtual_extensions,
            minimum_virtual_asset_bytes,
            unencrypted,
            pack_all,
        } && {
            &&& local_only
            &&& source == empty
            &&& output == import
            &&& id == repository_id
            &&& generation == 0
            &&& page_size == 1048576
            &&& pack_target == 536870912
            &&& virtual_extensions@.len() == 0
            &&& minimum_virtual_asset_bytes == 1048576
            &&& !unencrypted
            &&& !pack_all
        },
{
    RepoCommand::Import {
        local_only: true,
        source: empty,
        output: import,
        repository_id,
        generation: 0,
        page_size: 1048576,
        pack_target: 536870912,
        virtual_extensions: Vec::new(),
        minimum_virtual_asset_bytes: 1048576,
        unencrypted: false,
        pack_all: false,
    }
}

/// What is said before the session is opened that a new volume needs.
pub fn connecting_label() -> (label: &'static str)
    ensures
        label@ == "Connecting to Google Drive"@,
{
    "Connecting to Google Drive"
}

/// What is said of a free-space floor that was declined.
pub fn floor_label(outcome: &FloorOutcome) -> (label: Option<&'static str>)
    ensures
        match label {
            Some(label) => outcome.declined is Some && label@
                == "Free-space floor not applied (permission denied)"@,
            None => outcome.declined is None,
        },
{
    match &outcome.declined {
        Some(_) => Some("Free-space floor not applied (permission denied)"),
        None => None,
    }
}

/// What came of asking for a free-space floor.
#[derive(Debug)]
pub struct FloorOutcome {
    pub applied: Option<u64>,
    pub declined: Option<String>,
}

/// Judges the service's answer to a free-space floor. An older service that
/// denies it does not undo the volume.
pub fn floor_outcome(floor: u64, answer: Result<(), MirageError>) -> (outcome: Result<
    FloorOutcome,
    MirageError,
>)
    ensures
        match answer {
            Ok(_) => outcome matches Ok(outcome) && outcome.applied == Some(floor)
                && outcome.declined is None,
            Err(error) => if contains_text(description(error), "PERMISSION_DENIED"@) {
                outcome matches Ok(outcome) && outcome.applied is None && outcome.declined is Some
                    && outcome.declined->Some_0@ == "the service declined the free-space floor: "@
                    + description(error)
            } else {
                outcome == Err::<FloorOutcome, MirageError>(error)
            },
        },
{
    match answer {
        Ok(_) => Ok(FloorOutcome { applied: Some(floor), declined: None }),
        Err(error) => {
            let text = error.describe();
            if has_text(text.as_str(), "PERMISSION_DENIED") {
                let declined = joined(
                    "the service declined the free-space floor: ",
                    text.as_str(),
                );
                Ok(FloorOutcome { applied: None, declined: Some(declined) })
            } else {
                Err(error)
            }
        },
    }
}

/// The request of an onboarding step, if the step is one.
pub open spec fn is_onboarding_request(
    step: CreateStep,
    request: Option<ServiceCommand>,
    plan: OnboardingPlan,
) -> bool {
    match step {
        CreateStep::Register => request matches Some(
            ServiceCommand::RepositoryRegister {
                repository_id,
                display_name,
                native_root,
                mount_subtree,
                import_root,
                launcher_relative,
                arguments,
                version_label,
                configuration_label,
                cache_bytes,
            },
        ) && {
            &&& repository_id == plan.repository_id
            &&& display_name@ == plan.name@
            &&& native_root@ == plan.native@
            &&& mount_subtree@ == "."@
            &&& import_root@ == plan.import@
            &&& launcher_relative@ == plan.launcher@
            &&& arguments@.len() == 0
            &&& version_label@ == "0"@
            &&& configuration_label@ == "managed"@
            &&& cache_bytes == plan.budget_bytes
        },
        CreateStep::SetDriveOrigin => request == Some(
            ServiceCommand::RepositorySetDriveOrigin {
                repository_id: plan.repository_id,
                drive: true,
            },
        ),
        CreateStep::SetManagedMode => request == Some(
            ServiceCommand::RepositorySetVolumeMode {
                repository_id: plan.repository_id,
                managed: true,
            },
        ),
        CreateStep::Mount => request matches Some(
            ServiceCommand::Mount { repository_id, generation, drive_letter, drive_access_token },
        ) && {
            &&& repository_id == plan.repository_id
            &&& generation == plan.generation
            &&& drive_letter is Some
            &&& drive_letter->Some_0@ == plan.letter@
            &&& drive_access_token is Some
            &&& drive_access_token->Some_0.secret() == plan.token@
        },
        _ => request is None,
    }
}

/// What the service is told of a new volume.
pub struct OnboardingPlan {
    pub repository_id: RepositoryId,
    pub name: String,
    pub native: String,
    pub import: String,
    pub launcher: String,
    pub generation: u64,
    pub letter: String,
    pub budget_bytes: u64,
    pub token: String,
}

/// The request of an onboarding step: registration, then the Drive origin, then
/// managed mode, then the mount with a fresh token.
pub fn onboard(plan: &OnboardingPlan, step: CreateStep) -> (request: Option<ServiceCommand>)
    ensures
        is_onboarding_request(step, request, *plan),
{
    match step {
        CreateStep::Register => Some(
            ServiceCommand::RepositoryRegister {
                repository_id: plan.repository_id,
                display_name: plan.name.clone(),
                native_root: plan.native.clone(),
                mount_subtree: ".".to_owned(),
                import_root: plan.import.clone(),
                launcher_relative: plan.launcher.clone(),
                arguments: Vec::new(),
                version_label: "0".to_owned(),
                configuration_label: "managed".to_owned(),
                cache_bytes: plan.budget_bytes,
            },
        ),
        CreateStep::SetDriveOrigin => Some(
            ServiceCommand::RepositorySetDriveOrigin {
                repository_id: plan.repository_id,
                drive: true,
            },
        ),
        CreateStep::SetManagedMode => Some(
            ServiceCommand::RepositorySetVolumeMode {
                repository_id: plan.repository_id,
                managed: true,
            },
        ),
        CreateStep::Mount => Some(
            ServiceCommand::Mount {
                repository_id: plan.repository_id,
                generation: plan.generation,
                drive_letter: Some(plan.letter.clone()),
                drive_access_token: Some(SensitiveString::new(plan.token.clone())),
            },
        ),
        _ => None,
    }
}

/// The steps of a creation from a step on.
pub open spec fn remaining_steps(step: CreateStep, wants_floor: bool, fuel: nat) -> Seq<CreateStep>
    decreases fuel,
{
    if fuel == 0 || step == CreateStep::Done {
        Seq::empty()
    } else {
        seq![step] + remaining_steps(step_after(step, wants_floor), wants_floor, (fuel - 1) as nat)
    }
}

/// Every creation runs the same ten steps in the same order, and with a floor two
/// more. Nothing is told to the service before the generation is published, and
/// the service is asked to register, set the origin, set the mode and mount, in
/// this order.
pub proof fn law_creation_order(wants_floor: bool)
    ensures
        remaining_steps(CreateStep::CreateDirectories, wants_floor, 12) == seq![
            CreateStep::CreateDirectories,
            CreateStep::WriteMarker,
            CreateStep::BuildIndex,
            CreateStep::DrawSigner,
            CreateStep::Publish,
            CreateStep::PrepareToken,
            CreateStep::Register,
            CreateStep::SetDriveOrigin,
            CreateStep::SetManagedMode,
            CreateStep::Mount,
        ] + (if wants_floor {
            seq![CreateStep::ReadStateDisk, CreateStep::SetFloor]
        } else {
            Seq::empty()
        }),
        forall|step: CreateStep, request: Option<ServiceCommand>, plan: OnboardingPlan|
            #[trigger] is_onboarding_request(step, request, plan) && request is Some
                ==> published_before(step),
{
    reveal_with_fuel(remaining_steps, 13);
    assert(remaining_steps(CreateStep::CreateDirectories, wants_floor, 12) =~= seq![
        CreateStep::CreateDirectories,
        CreateStep::WriteMarker,
        CreateStep::BuildIndex,
        CreateStep::DrawSigner,
        CreateStep::Publish,
        CreateStep::PrepareToken,
        CreateStep::Register,
        CreateStep::SetDriveOrigin,
        CreateStep::SetManagedMode,
        CreateStep::Mount,
    ] + (if wants_floor {
        seq![CreateStep::ReadStateDisk, CreateStep::SetFloor]
    } else {
        Seq::empty()
    }));
}

/// What a finished creation reports.
pub fn created(
    spec: &VolumeSpec,
    repository_id: RepositoryId,
    name: String,
    letter: String,
    floor: FloorOutcome,
    account_id: String,
    mount_point: Option<String>,
    state: Option<String>,
) -> (created: VolumeCreated)
    ensures
        created.repository_id == repository_id,
        created.name == name,
        created.drive_letter == letter,
        created.budget_bytes == spec.budget_bytes,
        created.floor_bytes == floor.applied,
        created.floor_error == floor.declined,
        created.account_id == account_id,
        created.mount_point@ == match mount_point {
            Some(point) => point@,
            None => letter@ + ":"@,
        },
        created.state@ == match state {
            Some(state) => state@,
            None => "ready_mounted"@,
        },
{
    let mount_point = match mount_point {
        Some(point) => point,
        None => joined(letter.as_str(), ":"),
    };
    let state = match state {
        Some(state) => state,
        None => "ready_mounted".to_owned(),
    };
    VolumeCreated {
        repository_id,
        name,
        drive_letter: letter,
        budget_bytes: spec.budget_bytes,
        floor_bytes: floor.applied,
        floor_error: floor.declined,
        account_id,
        mount_point,
        state,
    }
}

// ---------------------------------------------------------------------------
// Listing volumes
// ---------------------------------------------------------------------------

/// Whether a repository is a managed Drive-backed volume.
pub open spec fn managed_drive(origin: Option<Seq<char>>, mode: Option<Seq<char>>) -> bool {
    origin == Some("drive"@) && mode == Some("managed"@)
}

/// Whether a repository, by the origin and the mode that the service reports, is
/// a managed Drive-backed volume.
pub fn is_managed_drive(origin: Option<&str>, mode: Option<&str>) -> (yes: bool)
    ensures
        yes == managed_drive(
            crate::cli::host::optional_text(origin),
            crate::cli::host::optional_text(mode),
        ),
{
    let from_drive = match origin {
        Some(origin) => same_text(origin, "drive"),
        None => false,
    };
    let managed = match mode {
        Some(mode) => same_text(mode, "managed"),
        None => false,
    };
    from_drive && managed
}

/// A repository as the service lists and details it.
#[derive(Debug)]
pub struct ListedRepository {
    pub id_text: String,
    pub state: Option<String>,
    pub origin: Option<String>,
    pub volume_mode: Option<String>,
}

/// Whether a listed repository is shown as a volume.
pub open spec fn shown(repository: ListedRepository) -> bool {
    &&& crate::ids::hex_shaped(repository.id_text@, 16)
    &&& repository.origin is Some
    &&& repository.origin->Some_0@ == "drive"@
    &&& repository.volume_mode is Some
    &&& repository.volume_mode->Some_0@ == "managed"@
}

/// The listed repositories that are shown as volumes, in order.
pub open spec fn shown_of(repositories: Seq<ListedRepository>) -> Seq<ListedRepository> {
    repositories.filter(|repository: ListedRepository| shown(repository))
}

fn is_shown(repository: &ListedRepository) -> (yes: bool)
    ensures
        yes == shown(*repository),
{
    let named = RepositoryId::parse(repository.id_text.as_str()).is_some();
    let origin = match &repository.origin {
        Some(origin) => Some(origin.as_str()),
        None => None,
    };
    let mode = match &repository.volume_mode {
        Some(mode) => Some(mode.as_str()),
        None => None,
    };
    named && is_managed_drive(origin, mode)
}

/// Keeps the managed Drive-backed volumes.
pub fn list(repositories: Vec<ListedRepository>) -> (volumes: Vec<ListedRepository>)
    ensures
        volumes@ == shown_of(repositories@),
{
    let ghost all = repositories@;
    let mut rest = repositories;
    let mut volumes: Vec<ListedRepository> = Vec::new();
    let ghost mut done: int = 0;
    proof {
        reveal(Seq::filter);
        assert(all.take(0).filter(|repository: ListedRepository| shown(repository)) =~= Seq::empty());
        assert(rest@ =~= all.skip(0));
    }
    while rest.len() > 0
        invariant
            0 <= done <= all.len(),
            rest@ == all.skip(done),
            volumes@ == shown_of(all.take(done)),
        decreases rest@.len(),
    {
        let ghost before = volumes@;
        let repository = rest.remove(0);
        proof {
            assert(repository == all[done]);
            assert(all.take(done + 1).drop_last() =~= all.take(done));
            assert(all.take(done + 1).last() == all[done]);
            reveal(Seq::filter);
        }
        if is_shown(&repository) {
            volumes.push(repository);
        }
        proof {
            assert(all.skip(done).skip(1) =~= all.skip(done + 1));
            done = done + 1;
        }
    }
    assert(all.take(done) =~= all);
    volumes
}

} // verus!
