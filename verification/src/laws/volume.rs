//! Managed volumes.

use vstd::prelude::*;
use crate::cli::commands::RepoCommand;
use crate::cli::host::HostPath;
use crate::cli::ipc::ServiceCommand;
use crate::cli::volume::{
    check_spec, created, default_budget_bytes, default_floor_bytes, disk_letters, disks,
    drawn_repository_id, first_free_letter, floor_outcome, index_request, is_managed_drive,
    letter_used, list, most_free, next_step, normalize_letter, onboard, resolve_spec, roll_back,
    state_volume, state_volume_root, used_letters, validate_name, CreateStep, DiskInfo, DriveReport,
    FloorOutcome, ListedRepository, OnboardingPlan, Rollback, VolumeCreated, VolumeSpec,
};
use crate::config::validate::PathPolicy;
use crate::error::{description, MirageError};
use crate::ids::RepositoryId;
use crate::text::{begins_with, contains_text, finishes_with, hex_text, occurs_at};

verus! {

/// The service registers a new volume with the directories of its plan: the native one as
/// the native root, and the one that the index was imported into as the import root, under
/// the name, the launcher and the budget of the plan.
pub proof fn law_registration_names_the_directories_of_the_plan(
    plan: &OnboardingPlan,
    request: Option<ServiceCommand>,
)
    requires
        call_ensures(onboard, (plan, CreateStep::Register), request),
    ensures
        request is Some,
        request->Some_0 is RepositoryRegister,
        request->Some_0->RepositoryRegister_native_root@ == plan.native@,
        request->Some_0->RepositoryRegister_import_root@ == plan.import@,
        request->Some_0->RepositoryRegister_display_name@ == plan.name@,
        request->Some_0->RepositoryRegister_launcher_relative@ == plan.launcher@,
        request->Some_0->RepositoryRegister_cache_bytes == plan.budget_bytes,
        request->Some_0->RepositoryRegister_repository_id == plan.repository_id,
        request->Some_0->RepositoryRegister_arguments@.len() == 0,
        request->Some_0->RepositoryRegister_mount_subtree@ == "."@,
{
}

/// The index of a volume is imported, encrypted and from an empty folder, into the
/// directory that is then registered as its import root.
pub proof fn law_registered_import_is_the_index(
    plan: &OnboardingPlan,
    empty: HostPath,
    import: HostPath,
    index: RepoCommand,
    request: Option<ServiceCommand>,
)
    requires
        import.text@ == plan.import@,
        call_ensures(index_request, (plan.repository_id, empty, import), index),
        call_ensures(onboard, (plan, CreateStep::Register), request),
    ensures
        index is Import,
        index->Import_output.text@ == request->Some_0->RepositoryRegister_import_root@,
        index->Import_source.text@ == empty.text@,
        index->Import_repository_id == request->Some_0->RepositoryRegister_repository_id,
        !index->Import_unencrypted,
        index->Import_local_only,
        index->Import_generation == 0,
        index->Import_page_size == 1024 * 1024,
        index->Import_pack_target == 512 * 1024 * 1024,
        index->Import_virtual_extensions@.len() == 0,
{
}

/// A new volume is mounted at its letter, in its generation, with its token; and the
/// service is told that it is Drive-backed and managed. Only these four steps are told to
/// the service, all of them of the one repository.
pub proof fn law_onboarding_is_of_the_plan(
    plan: &OnboardingPlan,
    step: CreateStep,
    request: Option<ServiceCommand>,
)
    requires
        call_ensures(onboard, (plan, step), request),
    ensures
        request is Some <==> step == CreateStep::Register || step == CreateStep::SetDriveOrigin
            || step == CreateStep::SetManagedMode || step == CreateStep::Mount,
        step == CreateStep::Mount ==> {
            &&& request->Some_0 is Mount
            &&& request->Some_0->Mount_repository_id == plan.repository_id
            &&& request->Some_0->Mount_generation == plan.generation
            &&& request->Some_0->Mount_drive_letter is Some
            &&& request->Some_0->Mount_drive_letter->Some_0@ == plan.letter@
        },
        step == CreateStep::SetDriveOrigin ==> {
            &&& request->Some_0 is RepositorySetDriveOrigin
            &&& request->Some_0->RepositorySetDriveOrigin_repository_id == plan.repository_id
            &&& request->Some_0->RepositorySetDriveOrigin_drive
        },
        step == CreateStep::SetManagedMode ==> {
            &&& request->Some_0 is RepositorySetVolumeMode
            &&& request->Some_0->RepositorySetVolumeMode_repository_id == plan.repository_id
            &&& request->Some_0->RepositorySetVolumeMode_managed
        },
{
}

/// A creation goes through its steps one by one: the index before it is published, the
/// publication before anything is registered, the registration before the mount, and the
/// floor last and only if it is wanted.
pub proof fn law_creation_goes_on(step: CreateStep, wants_floor: bool, next: CreateStep)
    requires
        call_ensures(next_step, (step, wants_floor), next),
    ensures
        next != step || step == CreateStep::Done,
        next == CreateStep::Publish ==> step == CreateStep::DrawSigner,
        next == CreateStep::DrawSigner ==> step == CreateStep::BuildIndex,
        next == CreateStep::Register ==> step == CreateStep::PrepareToken,
        next == CreateStep::PrepareToken ==> step == CreateStep::Publish,
        next == CreateStep::Mount ==> step == CreateStep::SetManagedMode,
        next == CreateStep::SetManagedMode ==> step == CreateStep::SetDriveOrigin,
        next == CreateStep::SetDriveOrigin ==> step == CreateStep::Register,
        next == CreateStep::ReadStateDisk ==> step == CreateStep::Mount && wants_floor,
        next == CreateStep::SetFloor ==> step == CreateStep::ReadStateDisk,
        next == CreateStep::Done ==> step == CreateStep::Done || step == CreateStep::SetFloor
            || step == CreateStep::Mount && !wants_floor,
{
}

/// A creation that fails is undone as far as it came: a volume that was mounted is
/// unmounted, what may be left on Drive is said, and the error names the repository and
/// its cause.
pub proof fn law_failed_creation_says_what_is_left(
    step: CreateStep,
    repository_id: RepositoryId,
    error: &MirageError,
    rollback: Rollback,
)
    requires
        call_ensures(roll_back, (step, repository_id, error), rollback),
    ensures
        rollback.unmount <==> step == CreateStep::ReadStateDisk || step == CreateStep::SetFloor
            || step == CreateStep::Done,
        contains_text(
            rollback.error.message@,
            "(repository "@ + hex_text(repository_id@) + "): "@ + description(*error),
        ),
        begins_with(rollback.error.message@, "volume create failed at \""@),
        step == CreateStep::CreateDirectories || step == CreateStep::WriteMarker || step
            == CreateStep::BuildIndex || step == CreateStep::DrawSigner || step
            == CreateStep::Publish ==> finishes_with(
            rollback.error.message@,
            description(*error) + "."@,
        ),
        step == CreateStep::PrepareToken || step == CreateStep::Register || step
            == CreateStep::Mount ==> finishes_with(
            rollback.error.message@,
            "can be deleted from Google Drive."@,
        ),
{
    reveal_strlit("volume create failed at \"");
    reveal_strlit("\" (repository ");
    reveal_strlit("(repository ");
    reveal_strlit("");
    let message = rollback.error.message@;
    let head = "volume create failed at \""@;
    let label = crate::cli::volume::step_label(step);
    assert(message.take(head.len() as int) =~= head);
    let part = "(repository "@ + hex_text(repository_id@) + "): "@ + description(*error);
    let start = (head.len() + label.len() + 2) as int;
    assert(message.subrange(start, start + part.len()) =~= part);
    assert(occurs_at(message, part, start));
    let end = description(*error) + "."@;
    if !crate::cli::volume::published_before(step) {
        assert(message.skip(message.len() - end.len()) =~= end);
    } else if !crate::cli::volume::mounted_before(step) {
        reveal_strlit(
            " A Drive folder for this repository may have been left behind and can be deleted from Google Drive.",
        );
        reveal_strlit("can be deleted from Google Drive.");
        let note = "can be deleted from Google Drive."@;
        assert(message.skip(message.len() - note.len()) =~= note);
    }
}

/// The report on a volume is of what was made: its identity, name, letter, budget and
/// account, the floor only if it was applied, and the reason only if it was declined.
pub proof fn law_created_volume_is_the_asked_one(
    spec: &VolumeSpec,
    repository_id: RepositoryId,
    name: String,
    letter: String,
    floor: FloorOutcome,
    account_id: String,
    mount_point: Option<String>,
    state: Option<String>,
    report: VolumeCreated,
)
    requires
        call_ensures(
            created,
            (spec, repository_id, name, letter, floor, account_id, mount_point, state),
            report,
        ),
    ensures
        report.repository_id == repository_id,
        report.name@ == name@,
        report.drive_letter@ == letter@,
        report.budget_bytes == spec.budget_bytes,
        report.account_id@ == account_id@,
        report.floor_bytes == floor.applied,
        report.floor_error is Some <==> floor.declined is Some,
        mount_point is Some ==> report.mount_point@ == mount_point->Some_0@,
        mount_point is None ==> begins_with(report.mount_point@, letter@),
        state is Some ==> report.state@ == state->Some_0@,
{
    if mount_point is None {
        assert(report.mount_point@.take(letter@.len() as int) =~= letter@);
    }
}

/// A floor that the service takes is applied as it was asked for. One that it denies is
/// told and undoes nothing; every other error is one.
pub proof fn law_denied_floor_undoes_nothing(
    floor: u64,
    answer: Result<(), MirageError>,
    outcome: Result<FloorOutcome, MirageError>,
)
    requires
        call_ensures(floor_outcome, (floor, answer), outcome),
    ensures
        answer is Ok ==> outcome is Ok && outcome->Ok_0.applied == Some(floor)
            && outcome->Ok_0.declined is None,
        answer is Err && contains_text(description(answer->Err_0), "PERMISSION_DENIED"@)
            ==> outcome is Ok && outcome->Ok_0.applied is None && outcome->Ok_0.declined is Some
            && finishes_with(outcome->Ok_0.declined->Some_0@, description(answer->Err_0)),
        answer is Err && !contains_text(description(answer->Err_0), "PERMISSION_DENIED"@)
            ==> outcome is Err && outcome->Err_0 == answer->Err_0,
{
    if answer is Err && contains_text(description(answer->Err_0), "PERMISSION_DENIED"@) {
        let text = outcome->Ok_0.declined->Some_0@;
        let cause = description(answer->Err_0);
        assert(text.skip(text.len() - cause.len()) =~= cause);
    }
}

/// A letter is in use exactly if the bit of that letter is set, and no other bit matters.
pub proof fn law_each_letter_has_its_bit(letter: char, other: char)
    requires
        'A' <= letter <= 'Z',
        'A' <= other <= 'Z',
    ensures
        !letter_used(0, letter),
        letter_used(1u32 << ((letter as u32 - 65) as u32), other) <==> letter == other,
{
    let bit = (letter as u32 - 65) as u32;
    let place = (other as u32 - 65) as u32;
    assert(bit < 26 && place < 26 ==> (((1u32 << bit) >> place) & 1 == 1 <==> bit == place))
        by (bit_vector);
    assert((0u32 >> bit) & 1 == 0) by (bit_vector);
}

/// A letter that is chosen is free, and none from M: on before it is.
pub proof fn law_chosen_letter_is_the_first_free_one(
    used: u32,
    letter: Result<char, MirageError>,
    other: char,
)
    requires
        call_ensures(first_free_letter, (used,), letter),
        'M' <= other <= 'Z',
        !letter_used(used, other),
    ensures
        letter is Ok,
        'M' <= letter->Ok_0 <= other,
        !letter_used(used, letter->Ok_0),
{
    if letter is Err {
        assert(crate::cli::volume::none_free(used));
        assert(letter_used(used, other));
    } else if other < letter->Ok_0 {
        assert(letter_used(used, other));
    }
}

/// The space of every disk from C: to Z: that is in use is asked for, and of no other.
pub proof fn law_every_used_disk_is_asked(used: u32, letters: Vec<char>, letter: char)
    requires
        call_ensures(disk_letters, (used,), letters),
    ensures
        letters@.contains(letter) <==> 'C' <= letter <= 'Z' && letter_used(used, letter),
{
    lemma_used_letters(used, 'C' as int, letter);
}

proof fn lemma_used_letters(used: u32, from: int, letter: char)
    requires
        67 <= from <= 91,
    ensures
        used_letters(used, from).contains(letter) <==> from <= letter as int <= 90 && letter_used(
            used,
            letter,
        ),
    decreases 91 - from,
{
    if from <= 90 {
        lemma_used_letters(used, from + 1, letter);
        let c = from as u8 as char;
        let rest = used_letters(used, from + 1);
        if letter_used(used, c) {
            let all = seq![c] + rest;
            if all.contains(letter) {
                let i = all.index_of(letter);
                if i > 0 {
                    assert(rest[i - 1] == letter);
                }
            }
            if rest.contains(letter) {
                assert(all[rest.index_of(letter) + 1] == letter);
            }
            if letter == c {
                assert(all[0] == letter);
            }
        }
    }
}

/// The default budget never exceeds a quarter of the free space of any largest disk, nor
/// 64 GiB, and is one of the two.
pub proof fn law_default_budget_leaves_three_quarters_free(
    disks: &Vec<DiskInfo>,
    budget: Result<u64, MirageError>,
    at: int,
)
    requires
        call_ensures(default_budget_bytes, (disks,), budget),
        0 <= at < disks@.len(),
        forall|i: int| 0 <= i < disks@.len() ==> disks@[i].free_bytes <= disks@[at].free_bytes,
    ensures
        budget is Ok,
        budget->Ok_0 <= 64 * 1024 * 1024 * 1024,
        4 * budget->Ok_0 <= disks@[at].free_bytes,
        budget->Ok_0 < 64 * 1024 * 1024 * 1024 ==> 4 * budget->Ok_0 + 3 >= disks@[at].free_bytes,
{
    lemma_most_free(disks@, at);
}

proof fn lemma_most_free(disks: Seq<DiskInfo>, at: int)
    requires
        0 <= at < disks.len(),
        forall|i: int| 0 <= i < disks.len() ==> disks[i].free_bytes <= disks[at].free_bytes,
    ensures
        most_free(disks) == disks[at].free_bytes,
    decreases disks.len(),
{
    lemma_most_free_bound(disks);
    lemma_most_free_reached(disks);
    assert(disks[at].free_bytes <= most_free(disks));
}

proof fn lemma_most_free_bound(disks: Seq<DiskInfo>)
    ensures
        forall|i: int| 0 <= i < disks.len() ==> (#[trigger] disks[i]).free_bytes <= most_free(disks),
    decreases disks.len(),
{
    if disks.len() > 0 {
        lemma_most_free_bound(disks.drop_last());
        assert forall|i: int| 0 <= i < disks.len() implies (#[trigger] disks[i]).free_bytes
            <= most_free(disks) by {
            if i < disks.len() - 1 {
                assert(disks.drop_last()[i] == disks[i]);
            }
        }
    }
}

proof fn lemma_most_free_reached(disks: Seq<DiskInfo>)
    requires
        disks.len() > 0,
    ensures
        exists|i: int| 0 <= i < disks.len() && (#[trigger] disks[i]).free_bytes == most_free(disks),
    decreases disks.len(),
{
    if disks.last().free_bytes >= most_free(disks.drop_last()) {
        assert(disks[disks.len() - 1].free_bytes == most_free(disks));
    } else {
        if disks.len() > 1 {
            lemma_most_free_reached(disks.drop_last());
            let i = choose|i: int|
                0 <= i < disks.len() - 1 && (#[trigger] disks.drop_last()[i]).free_bytes
                    == most_free(disks.drop_last());
            assert(disks[i].free_bytes == most_free(disks));
        }
    }
}

/// The default floor keeps a tenth of the disk free, and never less than 20 GiB.
pub proof fn law_default_floor_keeps_a_tenth_free(disk: &DiskInfo, floor: u64)
    requires
        call_ensures(default_floor_bytes, (disk,), floor),
    ensures
        floor >= 20 * 1024 * 1024 * 1024,
        10 * floor + 9 >= disk.total_bytes,
        floor > 20 * 1024 * 1024 * 1024 ==> 10 * floor <= disk.total_bytes,
{
}

/// What was asked for of a volume is what it gets: a letter, a budget and a floor that were
/// given are kept, and the name always is.
pub proof fn law_given_choices_are_kept(
    name: String,
    letter: Option<String>,
    budget: Option<Result<u64, MirageError>>,
    floor: Result<u64, MirageError>,
    used: Result<u32, MirageError>,
    disks: &Vec<DiskInfo>,
    spec: Result<VolumeSpec, MirageError>,
    chosen: Result<u64, MirageError>,
)
    requires
        call_ensures(resolve_spec, (name, letter, budget, floor, used, disks), spec),
        call_ensures(default_budget_bytes, (disks,), chosen),
        spec is Ok,
    ensures
        spec->Ok_0.name@ == name@,
        letter is Some ==> spec->Ok_0.drive_letter@ == letter->Some_0@,
        letter is None ==> spec->Ok_0.drive_letter@.len() == 1 && used is Ok && !letter_used(
            used->Ok_0,
            spec->Ok_0.drive_letter@[0],
        ),
        budget is Some ==> budget->Some_0 is Ok && spec->Ok_0.budget_bytes == budget->Some_0->Ok_0,
        budget is None ==> chosen is Ok && spec->Ok_0.budget_bytes == chosen->Ok_0,
        floor is Ok,
        spec->Ok_0.floor_bytes == Some(floor->Ok_0),
{
}

/// A volume that is made has a name without the characters that Windows forbids, a letter,
/// and a budget between 1 GiB and 1 PiB.
pub proof fn law_made_volumes_are_well_named(
    spec: &VolumeSpec,
    checked: Result<(String, String), MirageError>,
)
    requires
        call_ensures(check_spec, (spec,), checked),
        checked is Ok,
    ensures
        1024 * 1024 * 1024 <= spec.budget_bytes <= 1024 * 1024 * 1024 * 1024 * 1024,
        1 <= checked->Ok_0.0@.len() <= 64,
        forall|i: int|
            0 <= i < checked->Ok_0.0@.len() ==> #[trigger] checked->Ok_0.0@[i] != '/'
                && checked->Ok_0.0@[i] != '\\' && checked->Ok_0.0@[i] != ':'
                && checked->Ok_0.0@[i] != '*' && checked->Ok_0.0@[i] != '?'
                && checked->Ok_0.0@[i] != '"' && checked->Ok_0.0@[i] != '<'
                && checked->Ok_0.0@[i] != '>' && checked->Ok_0.0@[i] != '|',
        checked->Ok_0.1@.len() == 1,
        'A' <= checked->Ok_0.1@[0] <= 'Z',
{
    let name = checked->Ok_0.0@;
    assert forall|i: int| 0 <= i < name.len() implies !crate::cli::volume::forbidden_in_name(
        #[trigger] name[i],
    ) by {}
}

/// A name or letter without white space around it that is accepted is kept as it is, the
/// letter in upper case.
pub proof fn law_plain_names_are_kept(
    name: &str,
    letter: &str,
    checked: Result<String, MirageError>,
    normal: Result<String, MirageError>,
)
    requires
        call_ensures(validate_name, (name,), checked),
        call_ensures(normalize_letter, (letter,), normal),
        name@.len() > 0,
        !crate::text::is_white(name@[0]) && !crate::text::is_white(name@.last()),
        letter@.len() == 1,
        'a' <= letter@[0] <= 'z' || 'A' <= letter@[0] <= 'Z',
    ensures
        checked is Ok ==> checked->Ok_0@ == name@,
        normal is Ok,
        normal->Ok_0@.len() == 1,
        normal->Ok_0@[0] == letter@[0] || normal->Ok_0@[0] as u32 + 32 == letter@[0] as u32,
        'A' <= normal->Ok_0@[0] <= 'Z',
{
    assert(crate::text::trimmed(name@) == name@);
    assert(crate::text::trimmed(letter@) == letter@);
    let bare = crate::cli::volume::bare_letter(letter@);
    assert(bare == letter@);
}

/// Volumes lie below the local application data, and the state disk is that of the program
/// data.
pub proof fn law_state_disk_is_as_the_host_reports(
    root: String,
    space: Option<(u64, u64)>,
    disk: Result<DiskInfo, MirageError>,
)
    requires
        call_ensures(state_volume, (root, space), disk),
    ensures
        disk is Ok <==> space is Some,
        disk is Ok ==> disk->Ok_0.volume_root@ == root@ && disk->Ok_0.total_bytes
            == space->Some_0.0 && disk->Ok_0.free_bytes == space->Some_0.1,
{
}

/// A drive path of the program data gives the root of that drive.
pub proof fn law_state_root_is_the_drive_of_the_program_data(
    path: &str,
    root: Result<String, MirageError>,
)
    requires
        call_ensures(state_volume_root, (Some(path), PathPolicy::Windows), root),
        path@.len() >= 2,
        crate::text::is_alphabetic(path@[0]),
        path@[1] == ':',
    ensures
        root is Ok,
        root->Ok_0@.len() == 3,
        root->Ok_0@[0] == path@[0],
        root->Ok_0@[1] == ':',
        root->Ok_0@[2] == '\\',
{
    reveal_strlit("\\");
}

/// The identity of a repository is what was drawn for it: different bytes give different
/// identities.
pub proof fn law_identity_is_the_draw(
    random: Option<&[u8]>,
    id: Result<RepositoryId, MirageError>,
)
    requires
        call_ensures(drawn_repository_id, (random,), id),
        random is Some,
        random->Some_0@.len() == 16,
    ensures
        id is Ok,
        id->Ok_0@ == random->Some_0@,
{
    assert(random->Some_0@.subrange(0, 16) =~= random->Some_0@);
}

/// A volume is listed exactly if it is backed by Drive and managed.
pub proof fn law_only_managed_drive_volumes_are_listed(
    repositories: Vec<ListedRepository>,
    volumes: Vec<ListedRepository>,
    repository: ListedRepository,
    origin: Option<&str>,
    mode: Option<&str>,
    managed: bool,
)
    requires
        call_ensures(list, (repositories,), volumes),
        call_ensures(is_managed_drive, (origin, mode), managed),
    ensures
        volumes@.contains(repository) ==> repositories@.contains(repository)
            && repository.origin is Some && repository.origin->Some_0@ == "drive"@
            && repository.volume_mode is Some && repository.volume_mode->Some_0@ == "managed"@,
        repositories@.contains(repository) && crate::ids::hex_shaped(repository.id_text@, 16)
            && repository.origin is Some && repository.origin->Some_0@ == "drive"@
            && repository.volume_mode is Some && repository.volume_mode->Some_0@ == "managed"@
            ==> volumes@.contains(repository),
        managed <==> origin is Some && origin->Some_0@ == "drive"@ && mode is Some && mode->Some_0@
            == "managed"@,
{
    broadcast use vstd::seq_lib::group_filter_ensures;

    let keep = |repository: ListedRepository| crate::cli::volume::shown(repository);
    let kept = repositories@.filter(keep);
    assert(volumes@ == kept);
    if volumes@.contains(repository) {
        repositories@.lemma_filter_contains_rev(keep, repository);
    }
    if repositories@.contains(repository) && crate::cli::volume::shown(repository) {
        let i = repositories@.index_of(repository);
        repositories@.lemma_filter_contains(keep, i);
    }
}

/// A disk without a size is none.
pub proof fn law_disks_have_their_reported_sizes(
    reports: &Vec<DriveReport>,
    found: Vec<DiskInfo>,
    at: int,
)
    requires
        call_ensures(disks, (reports,), found),
        0 <= at < found@.len(),
    ensures
        found@[at].total_bytes > 0,
        exists|i: int|
            0 <= i < reports@.len() && (#[trigger] reports@[i]).space == Some(
                (found@[at].total_bytes, found@[at].free_bytes),
            ) && found@[at].volume_root@ == seq![reports@[i].letter] + ":\\"@,
{
    lemma_disks(reports@, at);
    let views = crate::cli::volume::disk_views(found@);
    assert(views[at] == (found@[at].volume_root@, found@[at].total_bytes, found@[at].free_bytes));
}

proof fn lemma_disks(reports: Seq<DriveReport>, at: int)
    requires
        0 <= at < crate::cli::volume::disks_of(reports).len(),
    ensures
        crate::cli::volume::disks_of(reports)[at].1 > 0,
        exists|i: int|
            0 <= i < reports.len() && (#[trigger] reports[i]).space == Some(
                (
                    crate::cli::volume::disks_of(reports)[at].1,
                    crate::cli::volume::disks_of(reports)[at].2,
                ),
            ) && crate::cli::volume::disks_of(reports)[at].0 == seq![reports[i].letter] + ":\\"@,
    decreases reports.len(),
{
    let all = crate::cli::volume::disks_of(reports);
    let rest = crate::cli::volume::disks_of(reports.drop_last());
    if at < rest.len() {
        lemma_disks(reports.drop_last(), at);
        let i = choose|i: int|
            0 <= i < reports.len() - 1 && (#[trigger] reports.drop_last()[i]).space == Some(
                (rest[at].1, rest[at].2),
            ) && rest[at].0 == seq![reports.drop_last()[i].letter] + ":\\"@;
        assert(reports[i] == reports.drop_last()[i]);
    } else {
        assert(reports[reports.len() - 1] == reports.last());
    }
}

} // verus!
