//! Repositories, the cache, simulations and sizes.

use vstd::prelude::*;
use crate::cli::disk::{unit_bytes, unit_multiplier};
use crate::cli::maintenance::{
    check_database, count_outcomes, integrity_class, outcomes_equal, pages_to_verify, verify_line,
    DatabaseReport, IntegrityClass, PinReason, VerifyCounts, VerifyOutcome,
};
use crate::cli::repository::{
    bare_extension, check_level, check_local_only, check_manifest, check_packs,
    classification_rules, ensure_report_outside_source, key_plan, pack_files, pack_name,
    pack_names_of, reported_extensions, signer, temporary_name, temporary_report_name,
    write_new_or_identical, KeyPlan, TestSignerKey,
};
use crate::cli::simulate::{
    admit_block, check_page_size, check_quality, check_sweep, network, sweep_networks, NetworkModel,
    TraceQuality,
};
use crate::cli::version::{
    build_hash, command_error_line, valid_build_hash, version_line, VersionInfo,
};
use crate::error::{MirageError, MirageErrorKind};
use crate::ids::RepositoryId;
use crate::text::{
    begins_with, contains_text, decimal_text, finishes_with, hex_text, is_alphanumeric,
    is_hex_digit, lower_text, occurs_at, ordered, strictly_ordered, texts, upper_text,
};

verus! {

/// The extensions that are asked for are the ones that are used, without the periods before
/// them, and only names of 1 to 16 letters and digits are taken.
pub proof fn law_extensions_are_the_asked_ones(
    extensions: &Vec<String>,
    minimum_bytes: u64,
    bare: Result<Vec<String>, MirageError>,
    at: int,
)
    requires
        call_ensures(classification_rules, (extensions, minimum_bytes), bare),
        bare is Ok,
        0 <= at < extensions@.len(),
    ensures
        minimum_bytes > 0,
        extensions@.len() <= 64,
        bare->Ok_0@.len() == extensions@.len(),
        finishes_with(extensions@[at]@, bare->Ok_0@[at]@),
        1 <= bare->Ok_0@[at]@.len() <= 16,
        bare->Ok_0@[at]@[0] != '.',
        extensions@[at]@.len() > 0 && extensions@[at]@[0] != '.' ==> bare->Ok_0@[at]@
            == extensions@[at]@,
        forall|i: int|
            0 <= i < bare->Ok_0@[at]@.len() ==> is_alphanumeric(#[trigger] bare->Ok_0@[at]@[i]),
{
    let list = texts(extensions@);
    let out = texts(bare->Ok_0@);
    assert(out.len() == list.len());
    assert(list[at] == extensions@[at]@);
    assert(out[at] == bare->Ok_0@[at]@);
    assert(out[at] == bare_extension(list[at]));
    lemma_bare(list[at]);
    let text = extensions@[at]@;
    let rest = bare->Ok_0@[at]@;
    assert(crate::cli::repository::extension_shaped(bare_extension(list[at])));
    assert(text.skip(text.len() - rest.len()) == rest);
    assert(is_alphanumeric(rest[0]));
}

proof fn lemma_bare(text: Seq<char>)
    ensures
        bare_extension(text).len() <= text.len(),
        text.skip(text.len() - bare_extension(text).len()) == bare_extension(text),
        text.len() > 0 && text[0] != '.' ==> bare_extension(text) == text,
    decreases text.len(),
{
    let rest = bare_extension(text);
    if text.len() > 0 && text[0] == '.' {
        lemma_bare(text.skip(1));
        assert(rest == bare_extension(text.skip(1)));
        assert(text.skip(text.len() - rest.len()) =~= text.skip(1).skip(
            text.len() - 1 - rest.len(),
        ));
    } else {
        assert(text.skip(0) =~= text);
    }
}

/// A report lists each extension once, in order and in lower case.
pub proof fn law_reported_extensions_are_in_order(
    extensions: &Vec<String>,
    minimum_bytes: u64,
    reported: Result<Vec<String>, MirageError>,
    rules: Result<Vec<String>, MirageError>,
    at: int,
)
    requires
        call_ensures(reported_extensions, (extensions, minimum_bytes), reported),
        call_ensures(classification_rules, (extensions, minimum_bytes), rules),
        0 <= at < extensions@.len(),
    ensures
        reported is Ok <==> rules is Ok,
        reported is Ok ==> strictly_ordered(texts(reported->Ok_0@)),
        reported is Ok ==> texts(reported->Ok_0@).contains(lower_text(rules->Ok_0@[at]@)),
{
    if reported is Ok {
        let list = texts(extensions@);
        let out = texts(rules->Ok_0@);
        assert(out.len() == list.len());
        assert(out[at] == bare_extension(list[at]));
        assert(out[at] == rules->Ok_0@[at]@);
        assert(exists|i: int|
            0 <= i < extensions@.len() && lower_text(rules->Ok_0@[at]@) == lower_text(
                bare_extension(#[trigger] list[i]),
            ));
    }
}

/// Every pack of an import is found, in order, and nothing else is taken for one.
pub proof fn law_every_pack_is_found(names: &Vec<String>, packs: Vec<String>, name: Seq<char>)
    requires
        call_ensures(pack_files, (names,), packs),
    ensures
        ordered(texts(packs@)),
        texts(packs@).contains(name) <==> texts(names@).contains(name) && begins_with(
            name,
            "pack-"@,
        ) && finishes_with(name, ".bin"@),
{
    broadcast use vstd::seq_lib::group_to_multiset_ensures;

    lemma_pack_names(texts(names@), name);
    assert(texts(packs@).to_multiset().count(name) == pack_names_of(
        texts(names@),
    ).to_multiset().count(name));
}

proof fn lemma_pack_names(names: Seq<Seq<char>>, name: Seq<char>)
    ensures
        pack_names_of(names).contains(name) <==> names.contains(name) && pack_name(name),
    decreases names.len(),
{
    if names.len() > 0 {
        let rest = names.drop_last();
        lemma_pack_names(rest, name);
        let found = pack_names_of(rest);
        if names.contains(name) {
            let i = names.index_of(name);
            if i < rest.len() {
                assert(rest[i] == name);
            }
        }
        if rest.contains(name) {
            assert(names[rest.index_of(name)] == name);
        }
        if pack_name(names.last()) {
            let all = found.push(names.last());
            if all.contains(name) {
                let i = all.index_of(name);
                if i < found.len() {
                    assert(found[i] == name);
                }
            }
            if found.contains(name) {
                assert(all[found.index_of(name)] == name);
            }
            assert(all[found.len() as int] == names.last());
        }
        assert(names[names.len() - 1] == names.last());
    }
}

/// An import of another repository is refused, and so is one with pages and no packs.
pub proof fn law_imports_belong_to_their_repository(
    manifest: &RepositoryId,
    repository: &RepositoryId,
    named: &str,
    verdict: Result<(), MirageError>,
    pack_count: usize,
    page_count: usize,
    packed: Result<(), MirageError>,
)
    requires
        call_ensures(check_manifest, (manifest, repository, named), verdict),
        call_ensures(check_packs, (pack_count, page_count), packed),
    ensures
        verdict is Ok <==> manifest@ == repository@,
        verdict is Err ==> finishes_with(verdict->Err_0.message@, named@),
        packed is Ok <==> pack_count > 0 || page_count == 0,
{
    if verdict is Err {
        let message = verdict->Err_0.message@;
        assert(message.skip(message.len() - named@.len()) =~= named@);
    }
}

/// A test signer is the one whose digits were given: the identity from the first text and the key
/// from the second.
pub proof fn law_test_signer_is_the_given_one(
    key_id: Seq<u8>,
    key: Seq<u8>,
    key_id_hex: &str,
    key_hex: &str,
    parts: Result<TestSignerKey, MirageError>,
)
    requires
        key_id.len() == 16,
        key.len() == 32,
        key_id_hex@ == hex_text(key_id),
        key_hex@ == hex_text(key),
        call_ensures(signer, (key_id_hex, key_hex), parts),
    ensures
        parts is Ok,
        parts->Ok_0.key_id@ == key_id,
        parts->Ok_0.key@ == key,
{
    crate::ids::law_hex_round_trip(key_id);
    crate::ids::law_hex_round_trip(key);
}

/// An import is encrypted unless it was asked not to be. A key that is there is used again, and
/// packs without their key are never overwritten with a new one.
pub proof fn law_keys_of_packs_are_never_replaced(
    unencrypted: bool,
    key_exists: bool,
    names: &Vec<String>,
    plan: Result<KeyPlan, MirageError>,
    pack: Seq<char>,
)
    requires
        call_ensures(key_plan, (unencrypted, key_exists, names), plan),
    ensures
        plan == Ok::<KeyPlan, MirageError>(KeyPlan::Unencrypted) <==> unencrypted,
        plan == Ok::<KeyPlan, MirageError>(KeyPlan::Load) <==> !unencrypted && key_exists,
        plan == Ok::<KeyPlan, MirageError>(KeyPlan::Create) ==> !unencrypted && !key_exists
            && !(texts(names@).contains(pack) && pack_name(pack)),
        plan is Err ==> plan->Err_0.kind == MirageErrorKind::RepositoryConflict,
{
    lemma_pack_names(texts(names@), pack);
    let packs = pack_names_of(texts(names@));
    if packs.contains(pack) {
        assert(packs.len() > 0);
    }
}

/// A manifest that is there is never changed: the same bytes are left, and others are refused.
pub proof fn law_manifests_are_never_changed(
    existing: Option<&[u8]>,
    bytes: &[u8],
    write: Result<bool, MirageError>,
)
    requires
        call_ensures(write_new_or_identical, (existing, bytes), write),
    ensures
        existing is None ==> write == Ok::<bool, MirageError>(true),
        existing is Some && existing->Some_0@ == bytes@ ==> write == Ok::<bool, MirageError>(
            false,
        ),
        existing is Some && existing->Some_0@ != bytes@ ==> write is Err,
{
}

/// A report is never written into the tree that it is of, and anywhere else it may be.
pub proof fn law_reports_stay_out_of_their_source(
    root: &Vec<String>,
    parent: &Vec<String>,
    file_name: Option<&str>,
    verdict: Result<(), MirageError>,
    at: int,
)
    requires
        call_ensures(ensure_report_outside_source, (root, parent, file_name), verdict),
    ensures
        verdict is Ok ==> file_name is Some,
        verdict is Ok && root@.len() <= parent@.len() ==> texts(parent@).take(root@.len() as int)
            != texts(root@),
        file_name is Some && 0 <= at < root@.len() && at < parent@.len() && parent@[at]@
            != root@[at]@ ==> verdict is Ok,
        file_name is Some && root@.len() > parent@.len() + 1 ==> verdict is Ok,
{
    let path = texts(parent@).push(file_name->Some_0@);
    let tree = texts(root@);
    if root@.len() <= parent@.len() && texts(parent@).take(root@.len() as int) == tree {
        assert(path.take(tree.len() as int) =~= tree);
    }
    if 0 <= at < root@.len() && at < parent@.len() && parent@[at]@ != root@[at]@ {
        assert(path[at] == parent@[at]@);
        assert(tree[at] == root@[at]@);
        if root@.len() <= path.len() {
            assert(path.take(tree.len() as int)[at] == path[at]);
        }
    }
}

/// A temporary report has a name of its own that is not taken.
pub proof fn law_temporary_reports_are_new(
    name: &str,
    taken: &Vec<String>,
    temporary: Result<String, MirageError>,
)
    requires
        call_ensures(temporary_report_name, (Some(name), taken), temporary),
        temporary is Ok,
    ensures
        !texts(taken@).contains(temporary->Ok_0@),
        begins_with(temporary->Ok_0@, "."@ + name@ + ".mirage-tmp-"@),
{
    let suffix = choose|suffix: int|
        0 <= suffix <= 65535 && #[trigger] crate::cli::repository::first_free_suffix(
            name@,
            texts(taken@),
            suffix,
        ) && temporary->Ok_0@ == temporary_name(name@, suffix);
    let head = "."@ + name@ + ".mirage-tmp-"@;
    assert(temporary->Ok_0@.take(head.len() as int) =~= head);
}

/// Temporary names with different numbers differ.
pub proof fn law_temporary_names_differ(name: Seq<char>, one: nat, other: nat)
    requires
        temporary_name(name, one as int) == temporary_name(name, other as int),
    ensures
        one == other,
{
    let head = ("."@ + name + ".mirage-tmp-"@).len() as int;
    assert(temporary_name(name, one as int).skip(head) =~= crate::text::decimal_text(one));
    assert(temporary_name(name, other as int).skip(head) =~= crate::text::decimal_text(other));
    crate::laws::text::lemma_decimal(one);
    crate::laws::text::lemma_decimal(other);
}

/// Only a local import and a check of metadata are built.
pub proof fn law_only_what_is_built_is_accepted(
    local_only: bool,
    local: Result<(), MirageError>,
    level: &str,
    leveled: Result<(), MirageError>,
)
    requires
        call_ensures(check_local_only, (local_only,), local),
        call_ensures(check_level, (level,), leveled),
    ensures
        local is Ok <==> local_only,
        leveled is Ok <==> level@ == "metadata"@,
{
}

/// A database is valid only if every check of it is.
pub proof fn law_databases_pass_every_check(
    report: &DatabaseReport,
    verdict: Result<(), MirageError>,
)
    requires
        call_ensures(check_database, (report,), verdict),
    ensures
        verdict is Ok <==> report.quick_check_ok && report.integrity_check_ok
            && report.foreign_key_violation_count == 0,
{
}

/// A page that holds bytes of its own is never taken for a clean one, whatever else pins it.
pub proof fn law_dirty_pages_are_never_clean(
    reasons: &Vec<PinReason>,
    class: IntegrityClass,
    at: int,
)
    requires
        call_ensures(integrity_class, (reasons,), class),
    ensures
        0 <= at < reasons@.len() && reasons@[at] == PinReason::Dirty ==> class
            == IntegrityClass::Dirty,
        class == IntegrityClass::Dirty ==> reasons@.contains(PinReason::Dirty),
        class == IntegrityClass::Clean <==> reasons@.len() == 0,
{
}

/// Every page that was looked at and still there is counted once, by its outcome.
pub proof fn law_outcomes_are_counted_once(
    outcomes: Seq<VerifyOutcome>,
    next: VerifyOutcome,
    of: VerifyOutcome,
    resident: usize,
    most: Option<usize>,
    count: usize,
)
    requires
        call_ensures(pages_to_verify, (resident, most), count),
    ensures
        outcomes_equal(Seq::<VerifyOutcome>::empty(), of) == 0,
        outcomes_equal(outcomes.push(next), of) == outcomes_equal(outcomes, of) + (if next == of {
            1nat
        } else {
            0
        }),
        count <= resident,
        most is None ==> count == resident,
        most is Some ==> count <= most->Some_0 && (count == resident || count == most->Some_0),
{
    assert(outcomes.push(next).drop_last() =~= outcomes);
}

/// The counts of a verification are those of its outcomes, and its line tells them in their order.
pub proof fn law_verification_tells_its_counts(
    outcomes: &Vec<VerifyOutcome>,
    counts: VerifyCounts,
    line: String,
)
    requires
        call_ensures(count_outcomes, (outcomes,), counts),
        call_ensures(verify_line, (&counts,), line),
    ensures
        counts.verified == outcomes_equal(outcomes@, VerifyOutcome::Verified),
        counts.quarantined == outcomes_equal(outcomes@, VerifyOutcome::Quarantined),
        counts.recovery_required == outcomes_equal(outcomes@, VerifyOutcome::RecoveryRequired),
        begins_with(line@, "cache verify: "@ + decimal_text(counts.verified as nat)),
        finishes_with(
            line@,
            decimal_text(counts.recovery_required as nat) + " recovery-required"@,
        ),
        contains_text(
            line@,
            ", "@ + decimal_text(counts.quarantined as nat) + " quarantined"@,
        ),
{
    reveal_strlit(" verified, ");
    reveal_strlit(", ");
    reveal_strlit(" quarantined, ");
    reveal_strlit(" quarantined");
    let head = "cache verify: "@ + decimal_text(counts.verified as nat);
    assert(line@.take(head.len() as int) =~= head);
    let tail = decimal_text(counts.recovery_required as nat) + " recovery-required"@;
    assert(line@.skip(line@.len() - tail.len()) =~= tail);
    let part = ", "@ + decimal_text(counts.quarantined as nat) + " quarantined"@;
    let start = (head.len() + 9) as int;
    assert(line@.subrange(start, start + part.len()) =~= part);
    assert(occurs_at(line@, part, start));
}

/// A network has the latency and the bandwidth that were asked for, and no jitter.
pub proof fn law_networks_are_as_asked(
    latency_ms: u64,
    bandwidth: u64,
    seed: u64,
    model: Result<NetworkModel, MirageError>,
    latencies: &Vec<u64>,
    networks: Result<Vec<NetworkModel>, MirageError>,
    at: int,
)
    requires
        call_ensures(network, (latency_ms, bandwidth, seed), model),
        call_ensures(sweep_networks, (latencies, bandwidth), networks),
        0 <= at < latencies@.len(),
    ensures
        model is Ok <==> latency_ms * 1_000_000 <= u64::MAX,
        model is Ok ==> model->Ok_0.base_latency_ns == latency_ms * 1_000_000
            && model->Ok_0.bandwidth_bytes_per_second == bandwidth && model->Ok_0.jitter_seed
            == seed && model->Ok_0.jitter_ns == 0 && model->Ok_0.max_concurrency == 1,
        networks is Ok ==> networks->Ok_0@.len() == latencies@.len()
            && networks->Ok_0@[at].base_latency_ns == latencies@[at] * 1_000_000
            && networks->Ok_0@[at].bandwidth_bytes_per_second == bandwidth,
{
    if networks is Ok {
        assert(crate::cli::simulate::latency_refusal(latencies@[at]) is None);
    }
}

/// A trace is simulated only whole: of the page size of its index, without impossible events,
/// within the bound, and in a sweep that has its page size.
pub proof fn law_traces_are_simulated_whole(
    trace_page_size: u32,
    index_page_size: u64,
    sized: Result<(), MirageError>,
    events: usize,
    block: usize,
    admitted: Result<(), MirageError>,
    quality: &TraceQuality,
    sound: Result<(), MirageError>,
    page_bytes: &Vec<u64>,
    trace_page_bytes: u64,
    swept: Result<(), MirageError>,
)
    requires
        call_ensures(check_page_size, (trace_page_size, index_page_size), sized),
        call_ensures(admit_block, (events, block), admitted),
        call_ensures(check_quality, (quality,), sound),
        call_ensures(check_sweep, (page_bytes, trace_page_bytes), swept),
    ensures
        sized is Ok <==> trace_page_size == index_page_size,
        admitted is Ok <==> events + block <= 10_000_000,
        sound is Ok <==> quality.non_monotonic_timestamps == 0 && quality.unknown_files == 0
            && quality.invalid_ranges == 0,
        swept is Ok <==> page_bytes@.contains(trace_page_bytes),
{
}

/// A unit means the same in either case of its letters.
pub proof fn law_units_ignore_case(
    unit: &str,
    other: &str,
    bytes: Result<u64, MirageError>,
    other_bytes: Result<u64, MirageError>,
)
    requires
        upper_text(unit@) == upper_text(other@),
        call_ensures(unit_multiplier, (unit,), bytes),
        call_ensures(unit_multiplier, (other,), other_bytes),
    ensures
        bytes is Ok <==> other_bytes is Ok,
        bytes is Ok ==> bytes->Ok_0 == other_bytes->Ok_0,
{
}

/// Each decimal unit is a thousand times the one before it, each binary one 1024 times; a unit
/// with and without its `B` is the same.
pub proof fn law_units_grow_by_their_base()
    ensures
        unit_bytes("B"@) == Some(1u64),
        unit_bytes("KB"@) == Some(1000u64) && unit_bytes("K"@) == unit_bytes("KB"@),
        unit_bytes("MB"@)->Some_0 == 1000 * unit_bytes("KB"@)->Some_0 && unit_bytes("M"@)
            == unit_bytes("MB"@),
        unit_bytes("GB"@)->Some_0 == 1000 * unit_bytes("MB"@)->Some_0 && unit_bytes("G"@)
            == unit_bytes("GB"@),
        unit_bytes("TB"@)->Some_0 == 1000 * unit_bytes("GB"@)->Some_0 && unit_bytes("T"@)
            == unit_bytes("TB"@),
        unit_bytes("KIB"@) == Some(1024u64),
        unit_bytes("MIB"@)->Some_0 == 1024 * unit_bytes("KIB"@)->Some_0,
        unit_bytes("GIB"@)->Some_0 == 1024 * unit_bytes("MIB"@)->Some_0,
        unit_bytes("TIB"@)->Some_0 == 1024 * unit_bytes("GIB"@)->Some_0,
{
    reveal_strlit("");
    reveal_strlit("B");
    reveal_strlit("K");
    reveal_strlit("KB");
    reveal_strlit("KIB");
    reveal_strlit("M");
    reveal_strlit("MB");
    reveal_strlit("MIB");
    reveal_strlit("G");
    reveal_strlit("GB");
    reveal_strlit("GIB");
    reveal_strlit("T");
    reveal_strlit("TB");
    reveal_strlit("TIB");
    assert(upper_text("B"@) =~= "B"@);
    assert(upper_text("K"@) =~= "K"@);
    assert(upper_text("KB"@) =~= "KB"@);
    assert(upper_text("KIB"@) =~= "KIB"@);
    assert(upper_text("M"@) =~= "M"@);
    assert(upper_text("MB"@) =~= "MB"@);
    assert(upper_text("MIB"@) =~= "MIB"@);
    assert(upper_text("G"@) =~= "G"@);
    assert(upper_text("GB"@) =~= "GB"@);
    assert(upper_text("GIB"@) =~= "GIB"@);
    assert(upper_text("T"@) =~= "T"@);
    assert(upper_text("TB"@) =~= "TB"@);
    assert(upper_text("TIB"@) =~= "TIB"@);
    lemma_units_differ();
}

proof fn lemma_units_differ()
    ensures
        "B"@[0] == 'B' && "K"@[0] == 'K' && "M"@[0] == 'M' && "G"@[0] == 'G' && "T"@[0] == 'T',
        "KB"@[0] == 'K' && "MB"@[0] == 'M' && "GB"@[0] == 'G' && "TB"@[0] == 'T',
        "KIB"@[0] == 'K' && "MIB"@[0] == 'M' && "GIB"@[0] == 'G' && "TIB"@[0] == 'T',
        ""@.len() == 0 && "B"@.len() == 1 && "K"@.len() == 1 && "KB"@.len() == 2 && "KIB"@.len()
            == 3,
{
    reveal_strlit("");
    reveal_strlit("B");
    reveal_strlit("K");
    reveal_strlit("KB");
    reveal_strlit("KIB");
    reveal_strlit("M");
    reveal_strlit("MB");
    reveal_strlit("MIB");
    reveal_strlit("G");
    reveal_strlit("GB");
    reveal_strlit("GIB");
    reveal_strlit("T");
    reveal_strlit("TB");
    reveal_strlit("TIB");
}

/// A build is told by the hash that was configured, if it is one, or else by that of the sources,
/// and never by what is no hash. The version line names the version first.
pub proof fn law_configured_builds_come_first(
    configured: Option<&str>,
    git: Option<&str>,
    hash: String,
    value: &str,
    valid: bool,
    info: &VersionInfo,
    line: String,
    error: &str,
    told: String,
)
    requires
        call_ensures(build_hash, (configured, git), hash),
        call_ensures(valid_build_hash, (value,), valid),
        call_ensures(version_line, (info,), line),
        call_ensures(command_error_line, (error,), told),
    ensures
        valid <==> 7 <= value@.len() <= 64 && forall|i: int|
            0 <= i < value@.len() ==> is_hex_digit(#[trigger] value@[i]),
        configured is Some && configured->Some_0@ == value@ && valid ==> hash@ == value@,
        configured is Some && configured->Some_0@ == value@ && !valid && git is None ==> hash@
            == "unknown"@,
        configured is None && git is Some && crate::text::trimmed(git->Some_0@) == value@ ==> hash@
            == if valid {
            value@
        } else {
            "unknown"@
        },
        configured is None && git is None ==> hash@ == "unknown"@,
        begins_with(line@, "mirage "@ + info.cli_version@ + " ("@ + info.build_hash@),
        finishes_with(line@, info.target@ + "; "@ + info.rust_version@ + ")"@),
        contains_text(told@, error@),
{
    let head = "mirage "@ + info.cli_version@ + " ("@ + info.build_hash@;
    assert(line@.take(head.len() as int) =~= head);
    let tail = info.target@ + "; "@ + info.rust_version@ + ")"@;
    assert(line@.skip(line@.len() - tail.len()) =~= tail);
    let start = "MirageSSD command error: "@.len() as int;
    assert(told@.subrange(start, start + error@.len()) =~= error@);
    assert(occurs_at(told@, error@, start));
}

} // verus!
