//! What a backup leaves out.

use vstd::prelude::*;
use crate::cli::components::leading_component;
use crate::cli::device_backup::{
    all_volume_exclusions, default_exclusions, is_whole_volume_source, is_windows_volume_root,
    own_exclusions, rebuildable_trees, restic_snapshot_path, state_path, step_arguments,
    validate_snapshot, volume_exclusions, BackupPaths, BackupStep,
};
use crate::cli::host::HostPath;
use crate::config::validate::PathPolicy;
use crate::error::MirageError;
use crate::laws::backup::made_by_tools;
use crate::text::{is_alphabetic, is_hex_digit, texts};

verus! {

/// A list holds a text.
pub open spec fn lists_text(list: Seq<String>, text: Seq<char>) -> bool {
    exists|i: int| 0 <= i < list.len() && (#[trigger] list[i])@ == text
}

proof fn lemma_lists(list: Seq<String>, text: Seq<char>, at: int)
    requires
        0 <= at < list.len(),
        texts(list)[at] == text,
    ensures
        lists_text(list, text),
{
    assert(list[at]@ == text);
}

/// A backup never takes its own files: those that hold its keys, its state and its log, the
/// cache, and the store of tokens. It also leaves out everything that was asked to be left out.
pub proof fn law_own_files_are_left_out(
    sources: &Vec<String>,
    requested: &Vec<String>,
    paths: &BackupPaths,
    token_store: &str,
    policy: PathPolicy,
    exclusions: Vec<String>,
    at: int,
)
    requires
        call_ensures(
            default_exclusions,
            (sources, requested, paths, token_store, policy),
            exclusions,
        ),
    ensures
        lists_text(exclusions@, paths.password_directory@),
        lists_text(exclusions@, paths.restic_cache@),
        lists_text(exclusions@, paths.log_file@),
        lists_text(exclusions@, paths.state_file@),
        lists_text(exclusions@, paths.key_store@),
        lists_text(exclusions@, token_store@),
        exclusions@.len() >= requested@.len(),
        0 <= at < requested@.len() ==> exclusions@[exclusions@.len() - requested@.len() + at]@
            == requested@[at]@,
{
    let all = texts(exclusions@);
    let system = all_volume_exclusions(texts(sources@), policy);
    let own = own_exclusions(*paths, token_store@);
    let base = system.len() as int;
    assert(all.len() == exclusions@.len());
    assert(own.len() == 7);
    assert forall|i: int| 0 <= i < 7 implies all[base + i] == #[trigger] own[i] by {
    }
    assert(own[1] == paths.password_directory@);
    assert(own[2] == paths.restic_cache@);
    assert(own[3] == paths.log_file@);
    assert(own[4] == paths.state_file@);
    assert(own[5] == paths.key_store@);
    assert(own[6] == token_store@);
    lemma_lists(exclusions@, paths.password_directory@, base + 1);
    lemma_lists(exclusions@, paths.restic_cache@, base + 2);
    lemma_lists(exclusions@, paths.log_file@, base + 3);
    lemma_lists(exclusions@, paths.state_file@, base + 4);
    lemma_lists(exclusions@, paths.key_store@, base + 5);
    lemma_lists(exclusions@, token_store@, base + 6);
    assert(texts(requested@).len() == requested@.len());
    if 0 <= at < requested@.len() {
        let place = exclusions@.len() - requested@.len() + at;
        assert(all[place] == texts(requested@)[at]);
        assert(all[place] == exclusions@[place]@);
        assert(texts(requested@)[at] == requested@[at]@);
    }
}

/// Trees that tools can make again are left out of a backup exactly if one of its sources is a
/// whole volume: a selected directory stays complete.
pub proof fn law_selected_directories_stay_complete(
    sources: &Vec<String>,
    requested: &Vec<String>,
    paths: &BackupPaths,
    token_store: &str,
    policy: PathPolicy,
    exclusions: Vec<String>,
    whole: int,
    at: int,
)
    requires
        call_ensures(
            default_exclusions,
            (sources, requested, paths, token_store, policy),
            exclusions,
        ),
    ensures
        0 <= whole < sources@.len() && crate::cli::device_backup::whole_volume(
            sources@[whole]@,
            policy,
        ) ==> forall|tree: Seq<char>|
            made_by_tools(tree) ==> #[trigger] lists_text(exclusions@, tree),
        (forall|i: int|
            0 <= i < sources@.len() ==> !crate::cli::device_backup::whole_volume(
                (#[trigger] sources@[i])@,
                policy,
            )) && 0 <= at < exclusions@.len() ==> {
            let text = exclusions@[at]@;
            ||| lists_text(requested@, text)
            ||| text == token_store@
            ||| text == paths.password_directory@
            ||| text == paths.restic_cache@
            ||| text == paths.log_file@
            ||| text == paths.state_file@
            ||| text == paths.key_store@
            ||| text == "D:\\MirageSSD-Cache"@
            ||| all_volume_exclusions(texts(sources@), policy).contains(text)
        },
{
    let all = texts(exclusions@);
    let each = texts(sources@);
    let system = all_volume_exclusions(each, policy);
    let own = own_exclusions(*paths, token_store@);
    assert(all.len() == exclusions@.len());
    if 0 <= whole < sources@.len() && crate::cli::device_backup::whole_volume(
        sources@[whole]@,
        policy,
    ) {
        assert(crate::cli::device_backup::whole_volume(each[whole], policy));
        let base = (system.len() + own.len()) as int;
        let trees = rebuildable_trees();
        assert forall|tree: Seq<char>| made_by_tools(tree) implies #[trigger] lists_text(
            exclusions@,
            tree,
        ) by {
            let i = lemma_tree_place(tree);
            assert(all[base + i] == trees[i]);
            lemma_lists(exclusions@, tree, base + i);
        }
    }
    if (forall|i: int|
        0 <= i < sources@.len() ==> !crate::cli::device_backup::whole_volume(
            (#[trigger] sources@[i])@,
            policy,
        )) && 0 <= at < exclusions@.len() {
        assert forall|i: int| 0 <= i < each.len() implies !crate::cli::device_backup::whole_volume(
            #[trigger] each[i],
            policy,
        ) by {
            assert(each[i] == sources@[i]@);
        }
        assert(all[at] == exclusions@[at]@);
        if at < system.len() {
            assert(all[at] == system[at]);
        } else if at < system.len() + own.len() {
            assert(all[at] == own[at - system.len()]);
        } else {
            let place = at - system.len() - own.len();
            assert(all[at] == texts(requested@)[place]);
            lemma_lists(requested@, all[at], place);
        }
    }
}

proof fn lemma_tree_place(tree: Seq<char>) -> (at: int)
    requires
        made_by_tools(tree),
    ensures
        0 <= at < rebuildable_trees().len(),
        rebuildable_trees()[at] == tree,
{
    let trees = rebuildable_trees();
    assert(trees.len() == 19);
    assert(trees[0] == "**/node_modules/**"@);
    assert(trees[1] == "**/.venv/**"@);
    assert(trees[2] == "**/venv/**"@);
    assert(trees[3] == "**/__pycache__/**"@);
    assert(trees[4] == "**/.pytest_cache/**"@);
    assert(trees[5] == "**/.mypy_cache/**"@);
    assert(trees[6] == "**/.ruff_cache/**"@);
    assert(trees[7] == "**/.npm/**"@);
    assert(trees[8] == "**/.pnpm-store/**"@);
    assert(trees[9] == "**/.cargo/registry/**"@);
    assert(trees[10] == "**/.rustup/**"@);
    assert(trees[11] == "**/.next/**"@);
    assert(trees[12] == "**/.turbo/**"@);
    assert(trees[13] == "**/.zephyr-workspace/**"@);
    assert(trees[14] == "**/build/**"@);
    assert(trees[15] == "**/target/debug/**"@);
    assert(trees[16] == "**/target/release/**"@);
    assert(trees[17] == "**/AppData/Local/Temp/**"@);
    assert(trees[18] == "**/Windows/Temp/**"@);
    choose|at: int| 0 <= at < 19 && #[trigger] trees[at] == tree
}

/// The files that a system keeps for itself on the volume of a source are left out, whatever the
/// source is, and nothing else is left out on its account.
pub proof fn law_system_files_are_left_out(
    sources: &Vec<String>,
    requested: &Vec<String>,
    paths: &BackupPaths,
    token_store: &str,
    exclusions: Vec<String>,
    source: &str,
    root: Option<String>,
    at: int,
)
    requires
        call_ensures(
            default_exclusions,
            (sources, requested, paths, token_store, PathPolicy::Windows),
            exclusions,
        ),
        0 <= at < sources@.len(),
        source@ == sources@[at]@,
        call_ensures(leading_component, (source, PathPolicy::Windows), root),
        root is Some,
        root->Some_0@.len() == 2,
    ensures
        lists_text(exclusions@, root->Some_0@ + "\\$Recycle.Bin"@),
        lists_text(exclusions@, root->Some_0@ + "\\System Volume Information"@),
        lists_text(exclusions@, root->Some_0@ + "\\pagefile.sys"@),
        lists_text(exclusions@, root->Some_0@ + "\\hiberfil.sys"@),
        lists_text(exclusions@, root->Some_0@ + "\\swapfile.sys"@),
{
    let all = texts(exclusions@);
    let each = texts(sources@);
    let system = all_volume_exclusions(each, PathPolicy::Windows);
    let mine = volume_exclusions(source@, PathPolicy::Windows);
    assert(each[at] == source@);
    assert(all.len() == exclusions@.len());
    let base = lemma_volume_place(each, PathPolicy::Windows, at);
    let drive = root->Some_0@;
    assert(mine.len() == 5);
    assert forall|i: int| 0 <= i < 5 implies all[base + i] == #[trigger] mine[i] by {
        assert(system[base + i] == mine[i]);
    }
    reveal_strlit("\\");
    reveal_strlit("$Recycle.Bin");
    reveal_strlit("System Volume Information");
    reveal_strlit("pagefile.sys");
    reveal_strlit("hiberfil.sys");
    reveal_strlit("swapfile.sys");
    reveal_strlit("\\$Recycle.Bin");
    reveal_strlit("\\System Volume Information");
    reveal_strlit("\\pagefile.sys");
    reveal_strlit("\\hiberfil.sys");
    reveal_strlit("\\swapfile.sys");
    reveal_strlit("\\\\?\\");
    let directory = drive + "\\"@;
    assert(directory.len() == 3);
    assert(mine[0] =~= drive + "\\$Recycle.Bin"@);
    assert(mine[1] =~= drive + "\\System Volume Information"@);
    assert(mine[2] =~= drive + "\\pagefile.sys"@);
    assert(mine[3] =~= drive + "\\hiberfil.sys"@);
    assert(mine[4] =~= drive + "\\swapfile.sys"@);
    lemma_lists(exclusions@, mine[0], base);
    lemma_lists(exclusions@, mine[1], base + 1);
    lemma_lists(exclusions@, mine[2], base + 2);
    lemma_lists(exclusions@, mine[3], base + 3);
    lemma_lists(exclusions@, mine[4], base + 4);
}

proof fn lemma_volume_place(sources: Seq<Seq<char>>, policy: PathPolicy, at: int) -> (base: int)
    requires
        0 <= at < sources.len(),
    ensures
        0 <= base,
        base + volume_exclusions(sources[at], policy).len() <= all_volume_exclusions(
            sources,
            policy,
        ).len(),
        forall|i: int|
            0 <= i < volume_exclusions(sources[at], policy).len() ==> all_volume_exclusions(
                sources,
                policy,
            )[base + i] == #[trigger] volume_exclusions(sources[at], policy)[i],
    decreases sources.len(),
{
    let before = all_volume_exclusions(sources.drop_last(), policy);
    if at == sources.len() - 1 {
        before.len() as int
    } else {
        let base = lemma_volume_place(sources.drop_last(), policy, at);
        assert forall|i: int|
            0 <= i < volume_exclusions(sources[at], policy).len() implies all_volume_exclusions(
            sources,
            policy,
        )[base + i] == #[trigger] volume_exclusions(sources[at], policy)[i] by {
            assert(before[base + i] == volume_exclusions(sources[at], policy)[i]);
        }
        base
    }
}

/// A whole Windows volume is a letter, a colon and a separator.
pub proof fn law_whole_volumes_are_roots(path: &str, root: bool, whole: bool)
    requires
        call_ensures(is_windows_volume_root, (path,), root),
        call_ensures(is_whole_volume_source, (path, PathPolicy::Windows), whole),
    ensures
        whole == root,
        root <==> path@.len() == 3 && is_alphabetic(path@[0]) && path@[1] == ':' && (path@[2]
            == '/' || path@[2] == '\\'),
{
}

/// A snapshot is named `latest` or by 4 to 64 hexadecimal digits.
pub proof fn law_snapshots_are_named_by_digits(value: &str, verdict: Result<(), MirageError>)
    requires
        call_ensures(validate_snapshot, (value,), verdict),
    ensures
        value@ == "latest"@ ==> verdict is Ok,
        value@ != "latest"@ ==> (verdict is Ok <==> 4 <= value@.len() && value@.len() <= 64 && (
        forall|i: int| 0 <= i < value@.len() ==> is_hex_digit(#[trigger] value@[i]))),
{
}

/// A path is mapped into a snapshot exactly if it starts at a drive, and the drive is what the
/// mapped path begins with.
pub proof fn law_mapped_paths_begin_with_their_drive(
    path: &str,
    mapped: Result<String, MirageError>,
)
    requires
        call_ensures(restic_snapshot_path, (path,), mapped),
    ensures
        mapped is Ok <==> path@.len() >= 3 && is_alphabetic(path@[0]) && path@[1] == ':' && (
        path@[2] == '/' || path@[2] == '\\'),
        mapped is Ok ==> mapped->Ok_0@.len() >= 2 && mapped->Ok_0@[0] == '/' && mapped->Ok_0@[1]
            == crate::text::upper_char(path@[0]),
        mapped is Ok && mapped->Ok_0@.len() > 2 ==> mapped->Ok_0@[2] == '/',
{
    reveal_strlit("/");
}

/// The path whose directory keeps the state is the one that was given, that of the keys before
/// that of the state, and that before the log.
pub proof fn law_state_stands_by_a_given_path(
    key_store: Option<&HostPath>,
    state_file: Option<&HostPath>,
    log_file: Option<&HostPath>,
    path: Option<&HostPath>,
)
    requires
        call_ensures(state_path, (key_store, state_file, log_file), path),
    ensures
        path is None <==> key_store is None && state_file is None && log_file is None,
        key_store is Some ==> path == key_store,
        key_store is None && state_file is Some ==> path == state_file,
        key_store is None && state_file is None ==> path == log_file,
{
}

/// Each step of a backup but the snapshot runs its own command.
pub proof fn law_steps_run_their_command(step: BackupStep, arguments: Vec<String>)
    requires
        call_ensures(step_arguments, (step,), arguments),
    ensures
        step == BackupStep::Unlock ==> arguments@.len() == 1 && arguments@[0]@ == "unlock"@,
        step == BackupStep::Probe ==> arguments@.len() == 2 && arguments@[0]@ == "snapshots"@
            && arguments@[1]@ == "--json"@,
        step == BackupStep::Initialize ==> arguments@.len() == 3 && arguments@[0]@ == "init"@
            && arguments@[1]@ == "--repository-version"@ && arguments@[2]@ == "2"@,
        step == BackupStep::Snapshot ==> arguments@.len() == 0,
{
    let all = texts(arguments@);
    assert(all.len() == arguments@.len());
    match step {
        BackupStep::Unlock => {
            assert(all[0] == arguments@[0]@);
        },
        BackupStep::Probe => {
            assert(all[0] == arguments@[0]@);
            assert(all[1] == arguments@[1]@);
        },
        BackupStep::Initialize => {
            assert(all[0] == arguments@[0]@);
            assert(all[1] == arguments@[1]@);
            assert(all[2] == arguments@[2]@);
        },
        BackupStep::Snapshot => {
            assert(all.len() == 0);
        },
    }
}

} // verus!
