//! The service configuration.

use vstd::prelude::*;
use crate::config::load::{
    first_unlisted, overridden, override_refusal, parse_bool, parse_u32, unlisted,
};
use crate::config::model::{
    cache_text, redacted_text, scheduler_text, telemetry_text, ByteCount, CacheConfig,
    SchedulerConfig, ServiceConfig, TelemetryConfig,
};
use crate::config::validate::{
    config_refusal, power_of_two, validate, validate_cache, validate_program_data_root,
    validate_scheduler, validate_telemetry, PathPolicy,
};
use crate::error::MirageError;
use crate::text::{begins_with, contains_text, decimal_text, occurs_at, parsed_decimal};

verus! {

/// A page is one of the nine powers of two from 64 KiB to 16 MiB.
pub open spec fn is_page_size(page: nat) -> bool {
    page == 65536 || page == 131072 || page == 262144 || page == 524288 || page == 1048576 || page
        == 2097152 || page == 4194304 || page == 8388608 || page == 16777216
}

proof fn lemma_page_sizes_are_powers()
    ensures
        power_of_two(65536),
        power_of_two(131072),
        power_of_two(262144),
        power_of_two(524288),
        power_of_two(1048576),
        power_of_two(2097152),
        power_of_two(4194304),
        power_of_two(8388608),
        power_of_two(16777216),
{
    reveal_with_fuel(power_of_two, 26);
}

/// Between a power of two and the next there is no other.
proof fn lemma_next_power(value: nat, power: nat)
    requires
        power_of_two(value),
        power_of_two(power),
        power <= value < 2 * power,
    ensures
        value == power,
    decreases power,
{
    if power > 1 {
        lemma_next_power(value / 2, power / 2);
    }
}

proof fn lemma_page_sizes(page: nat)
    requires
        65536 <= page <= 16777216,
    ensures
        power_of_two(page) <==> is_page_size(page),
{
    lemma_page_sizes_are_powers();
    if power_of_two(page) {
        if page < 131072 {
            lemma_next_power(page, 65536);
        } else if page < 262144 {
            lemma_next_power(page, 131072);
        } else if page < 524288 {
            lemma_next_power(page, 262144);
        } else if page < 1048576 {
            lemma_next_power(page, 524288);
        } else if page < 2097152 {
            lemma_next_power(page, 1048576);
        } else if page < 4194304 {
            lemma_next_power(page, 2097152);
        } else if page < 8388608 {
            lemma_next_power(page, 4194304);
        } else if page < 16777216 {
            lemma_next_power(page, 8388608);
        }
    }
}

/// A cache is accepted exactly if its pages are of a size that is allowed, its shards and its
/// budget are whole pages, no more of them than can be addressed, and a page is left beside the
/// reserves.
pub proof fn law_cache_is_accepted_exactly_if_it_fits(
    cache: &CacheConfig,
    verdict: Result<(), MirageError>,
)
    requires
        call_ensures(validate_cache, (cache,), verdict),
        cache.budget@ <= u64::MAX,
    ensures
        verdict is Ok <==> {
            let page = cache.page_size@;
            &&& is_page_size(page)
            &&& cache.arena_shard_size@ > 0 && cache.arena_shard_size@ % page == 0
            &&& cache.budget@ > 0 && cache.budget@ % page == 0
            &&& cache.budget@ / page <= 0xffff_ffff
            &&& cache.update_reserve@ + cache.metadata_reserve@ + page <= cache.budget@
        },
{
    let page = cache.page_size@;
    if 65536 <= page <= 16777216 {
        lemma_page_sizes(page);
    }
}

/// A scheduler is accepted exactly if it has between 1 and 1024 requests, room for a page in
/// flight, and windows of whole pages that grow and fit.
pub proof fn law_scheduler_is_accepted_exactly_if_it_fits(
    scheduler: &SchedulerConfig,
    page_size: ByteCount,
    verdict: Result<(), MirageError>,
)
    requires
        call_ensures(validate_scheduler, (scheduler, page_size), verdict),
        page_size@ > 0,
    ensures
        verdict is Ok <==> {
            let page = page_size@;
            &&& 1 <= scheduler.max_concurrent_requests <= 1024
            &&& page <= scheduler.max_inflight_bytes@
            &&& scheduler.readahead_window_min@ > 0 && scheduler.readahead_window_min@ % page == 0
            &&& scheduler.readahead_window_max@ > 0 && scheduler.readahead_window_max@ % page == 0
            &&& scheduler.readahead_window_min@ <= scheduler.readahead_window_max@
            &&& scheduler.readahead_window_max@ <= scheduler.max_inflight_bytes@
        },
{
}

/// Telemetry is accepted exactly with 1 to 365 days and up to 64 GiB of logs.
pub proof fn law_telemetry_is_accepted_within_its_bounds(
    telemetry: &TelemetryConfig,
    verdict: Result<(), MirageError>,
)
    requires
        call_ensures(validate_telemetry, (telemetry,), verdict),
    ensures
        verdict is Ok <==> 1 <= telemetry.log_retention_days <= 365 && 1
            <= telemetry.max_log_bytes@ <= 64 * 1024 * 1024 * 1024,
{
}

/// A configuration is accepted exactly if its version is spoken and each of its parts is
/// accepted on its own.
pub proof fn law_configuration_is_accepted_by_its_parts(
    config: &ServiceConfig,
    policy: PathPolicy,
    verdict: Result<(), MirageError>,
    root: &str,
    of_root: Result<(), MirageError>,
    of_cache: Result<(), MirageError>,
    of_scheduler: Result<(), MirageError>,
    of_telemetry: Result<(), MirageError>,
)
    requires
        call_ensures(validate, (config, policy), verdict),
        root@ == config.program_data_root@,
        call_ensures(validate_program_data_root, (root, policy), of_root),
        call_ensures(validate_cache, (&config.cache,), of_cache),
        call_ensures(validate_scheduler, (&config.scheduler, config.cache.page_size), of_scheduler),
        call_ensures(validate_telemetry, (&config.telemetry,), of_telemetry),
    ensures
        verdict is Ok <==> config.format_version == 1 && of_root is Ok && of_cache is Ok
            && of_scheduler is Ok && of_telemetry is Ok,
{
}

/// A Windows root that is accepted starts at a drive, and a Unix one at the root; no root with a
/// NUL byte or none at all is.
pub proof fn law_accepted_roots_are_absolute(
    root: &str,
    policy: PathPolicy,
    verdict: Result<(), MirageError>,
)
    requires
        call_ensures(validate_program_data_root, (root, policy), verdict),
        verdict is Ok,
    ensures
        root@.len() > 0,
        !root@.contains('\0'),
        policy == PathPolicy::Unix ==> root@[0] == '/',
        policy == PathPolicy::Windows ==> root@.len() >= 3 && crate::text::is_alphabetic(root@[0])
            && root@[1] == ':' && (root@[2] == '\\' || root@[2] == '/'),
{
}

/// A root of one plain name below a drive or below the root is accepted.
pub proof fn law_plain_roots_are_accepted(
    windows: &str,
    unix: &str,
    name: Seq<char>,
    drive: char,
    of_windows: Result<(), MirageError>,
    of_unix: Result<(), MirageError>,
)
    requires
        crate::text::is_alphabetic(drive),
        name.len() > 0,
        forall|i: int|
            0 <= i < name.len() ==> crate::text::is_alphanumeric(#[trigger] name[i]),
        windows@ == seq![drive, ':', '\\'] + name,
        unix@ == seq!['/'] + name,
        call_ensures(validate_program_data_root, (windows, PathPolicy::Windows), of_windows),
        call_ensures(validate_program_data_root, (unix, PathPolicy::Unix), of_unix),
    ensures
        of_windows is Ok,
        of_unix is Ok,
{
    reveal_strlit(".");
    reveal_strlit("..");
    assert(windows@.skip(3) =~= name);
    lemma_plain(name, '\\', '/');
    lemma_plain(name, '/', '/');
    assert(crate::text::pieces(name, '\\', '/') == seq![name]);
    let rest = unix@.skip(1);
    assert(rest =~= name);
    assert(crate::text::run_length(unix@, '/', '/') == 0);
    assert(crate::text::pieces(unix@, '/', '/') == seq![unix@.take(0)] + crate::text::pieces(
        rest,
        '/',
        '/',
    ));
    assert(!windows@.contains('\0')) by {
        if windows@.contains('\0') {
            let i = windows@.index_of('\0');
            if i >= 3 {
                assert(windows@[i] == name[i - 3]);
            }
        }
    }
    assert(!unix@.contains('\0')) by {
        if unix@.contains('\0') {
            let i = unix@.index_of('\0');
            if i >= 1 {
                assert(unix@[i] == name[i - 1]);
            }
        }
    }
    assert(name[0] != '.');
    assert(name.last() == name[name.len() - 1]);
    assert(crate::config::validate::component_refusal(name, PathPolicy::Windows) is None);
    assert(crate::config::validate::component_refusal(name, PathPolicy::Unix) is None);
    assert(seq![name].skip(1) =~= Seq::<Seq<char>>::empty());
    reveal_with_fuel(crate::config::validate::first_component_refusal, 4);
    let parts = seq![unix@.take(0)] + seq![name];
    assert(parts.skip(1) =~= seq![name]);
    assert(crate::config::validate::first_component_refusal(seq![name], PathPolicy::Unix) is None);
    assert(parts[0] =~= Seq::<char>::empty());
}

proof fn lemma_plain(name: Seq<char>, a: char, b: char)
    requires
        forall|i: int|
            0 <= i < name.len() ==> crate::text::is_alphanumeric(#[trigger] name[i]),
        a == '\\' || a == '/',
        b == '/',
    ensures
        crate::text::run_length(name, a, b) == name.len(),
    decreases name.len(),
{
    if name.len() > 0 {
        assert(crate::text::is_alphanumeric(name[0]));
        assert forall|i: int| 0 <= i < name.len() - 1 implies crate::text::is_alphanumeric(
            #[trigger] name.skip(1)[i],
        ) by {
            assert(name.skip(1)[i] == name[i + 1]);
        }
        lemma_plain(name.skip(1), a, b);
    }
}

/// Each override sets its own field and no other, and what is not overridden stays.
pub proof fn law_overrides_set_their_own_field(
    config: ServiceConfig,
    bindings: Map<Seq<char>, Seq<char>>,
)
    ensures
        ({
            let after = overridden(config, bindings);
            let days = "MIRAGE_DEV_LOG_RETENTION_DAYS"@;
            let requests = "MIRAGE_DEV_MAX_CONCURRENT_REQUESTS"@;
            let logging = "MIRAGE_DEV_FIRST_TOUCH_LOGGING"@;
            &&& after.format_version == config.format_version
            &&& after.program_data_root == config.program_data_root
            &&& after.cache == config.cache
            &&& after.telemetry.max_log_bytes == config.telemetry.max_log_bytes
            &&& after.scheduler.max_inflight_bytes == config.scheduler.max_inflight_bytes
            &&& after.scheduler.readahead_window_min == config.scheduler.readahead_window_min
            &&& after.scheduler.readahead_window_max == config.scheduler.readahead_window_max
            &&& !bindings.dom().contains(days) ==> after.telemetry.log_retention_days
                == config.telemetry.log_retention_days
            &&& bindings.dom().contains(days) && parsed_decimal(
                bindings[days],
                u32::MAX as nat,
            ) is Some ==> after.telemetry.log_retention_days == parsed_decimal(
                bindings[days],
                u32::MAX as nat,
            )->Some_0
            &&& !bindings.dom().contains(requests) ==> after.scheduler.max_concurrent_requests
                == config.scheduler.max_concurrent_requests
            &&& bindings.dom().contains(requests) && parsed_decimal(
                bindings[requests],
                u32::MAX as nat,
            ) is Some ==> after.scheduler.max_concurrent_requests == parsed_decimal(
                bindings[requests],
                u32::MAX as nat,
            )->Some_0
            &&& !bindings.dom().contains(logging) ==> after.telemetry.first_touch_logging
                == config.telemetry.first_touch_logging
            &&& bindings.dom().contains(logging) ==> (after.telemetry.first_touch_logging
                <==> bindings[logging] == "true"@)
        }),
{
    assert forall|text: Seq<char>|
        parsed_decimal(text, u32::MAX as nat) is Some implies #[trigger] parsed_decimal(
        text,
        u32::MAX as nat,
    )->Some_0 <= u32::MAX by {}
}

/// An override that is applied leaves a configuration that is accepted, and only the two words
/// and decimal numbers are read as values.
pub proof fn law_applied_overrides_are_valid(
    config: ServiceConfig,
    bindings: Map<Seq<char>, Seq<char>>,
    policy: PathPolicy,
    key: &str,
    raw: &str,
    switch: Result<bool, MirageError>,
    number: Result<u32, MirageError>,
)
    requires
        override_refusal(config, bindings, policy) is None,
        call_ensures(parse_bool, (key, raw), switch),
        call_ensures(parse_u32, (key, raw), number),
    ensures
        config_refusal(overridden(config, bindings), policy) is None,
        switch is Ok <==> raw@ == "true"@ || raw@ == "false"@,
        switch is Ok ==> (switch->Ok_0 <==> raw@ == "true"@),
        number is Ok ==> parsed_decimal(raw@, u32::MAX as nat) == Some(number->Ok_0 as nat),
        parsed_decimal(raw@, u32::MAX as nat) is Some ==> number is Ok,
{
}

/// A variable under the reserved prefix is refused unless it is one of the three that may be set.
pub proof fn law_unknown_developer_variables_are_refused(
    names: Seq<Seq<char>>,
    key: Seq<char>,
)
    requires
        names.contains(key),
        begins_with(key, "MIRAGE_DEV_"@),
        key != "MIRAGE_DEV_LOG_RETENTION_DAYS"@,
        key != "MIRAGE_DEV_MAX_CONCURRENT_REQUESTS"@,
        key != "MIRAGE_DEV_FIRST_TOUCH_LOGGING"@,
    ensures
        first_unlisted(names) is Some,
{
    crate::config::load::law_reported_variable_is_the_first(names);
    assert(unlisted(key));
    if first_unlisted(names) is None {
        let i = names.index_of(key);
        assert(names[i] == key);
    }
}

/// The configuration of a root has the root that was given and the documented sizes: pages of
/// 1 MiB, a budget of 32 GiB, and shards of 8 GiB.
pub proof fn law_defaults_are_the_documented_ones(
    root: String,
    config: ServiceConfig,
    copy: ServiceConfig,
)
    requires
        call_ensures(ServiceConfig::with_root, (root,), config),
        call_ensures(ServiceConfig::duplicate, (&config,), copy),
    ensures
        config.program_data_root@ == root@,
        config.format_version == 1,
        config.cache.page_size@ == 1024 * 1024,
        config.cache.budget@ == 32 * 1024 * 1024 * 1024,
        config.cache.update_reserve@ == 2 * 1024 * 1024 * 1024,
        config.cache.metadata_reserve@ == 512 * 1024 * 1024,
        config.cache.arena_shard_size@ == 8 * 1024 * 1024 * 1024,
        config.scheduler.max_concurrent_requests == 16,
        config.scheduler.max_inflight_bytes@ == 64 * 1024 * 1024,
        config.scheduler.readahead_window_min@ == 2 * 1024 * 1024,
        config.scheduler.readahead_window_max@ == 16 * 1024 * 1024,
        config.telemetry.log_retention_days == 14,
        config.telemetry.max_log_bytes@ == 256 * 1024 * 1024,
        config.telemetry.first_touch_logging,
        copy == config,
{
}

/// Byte counts are added and subtracted exactly, or not at all.
pub proof fn law_byte_counts_are_exact(
    one: ByteCount,
    other: ByteCount,
    sum: Option<ByteCount>,
    difference: Option<ByteCount>,
)
    requires
        call_ensures(ByteCount::checked_add, (&one, other), sum),
        call_ensures(ByteCount::checked_sub, (&one, other), difference),
    ensures
        one@ + other@ <= u64::MAX ==> sum is Some,
        sum is Some ==> sum->Some_0@ - other@ == one@,
        difference is Some <==> other@ <= one@,
        difference is Some ==> difference->Some_0@ + other@ == one@,
{
}

/// A byte count as it is shown.
pub open spec fn byte_count(bytes: nat) -> Seq<char> {
    "ByteCount("@ + decimal_text(bytes) + ")"@
}

/// A switch as it is shown.
pub open spec fn switch_text(on: bool) -> Seq<char> {
    if on {
        "true"@
    } else {
        "false"@
    }
}

proof fn lemma_middle(head: Seq<char>, part: Seq<char>, tail: Seq<char>)
    ensures
        contains_text(head + part + tail, part),
{
    let whole = head + part + tail;
    let at = head.len() as int;
    assert(whole.subrange(at, at + part.len()) =~= part);
    assert(occurs_at(whole, part, at));
}

proof fn lemma_nested(whole: Seq<char>, middle: Seq<char>, part: Seq<char>)
    requires
        contains_text(whole, middle),
        contains_text(middle, part),
    ensures
        contains_text(whole, part),
{
    let outer = choose|at: int| occurs_at(whole, middle, at);
    let inner = choose|at: int| occurs_at(middle, part, at);
    assert(whole.subrange(outer, outer + middle.len()) == middle);
    assert(whole.subrange(outer + inner, outer + inner + part.len()) =~= middle.subrange(
        inner,
        inner + part.len(),
    ));
    assert(occurs_at(whole, part, outer + inner));
}

proof fn lemma_cache_tells(cache: CacheConfig)
    ensures
        contains_text(
            cache_text(cache),
            "CacheConfig { page_size: "@ + byte_count(cache.page_size@),
        ),
        contains_text(cache_text(cache), ", budget: "@ + byte_count(cache.budget@)),
        contains_text(cache_text(cache), ", update_reserve: "@ + byte_count(cache.update_reserve@)),
        contains_text(
            cache_text(cache),
            ", metadata_reserve: "@ + byte_count(cache.metadata_reserve@),
        ),
        contains_text(
            cache_text(cache),
            ", arena_shard_size: "@ + byte_count(cache.arena_shard_size@),
        ),
{
    let part_0 = "CacheConfig { page_size: "@ + byte_count(cache.page_size@);
    let part_1 = ", budget: "@ + byte_count(cache.budget@);
    let part_2 = ", update_reserve: "@ + byte_count(cache.update_reserve@);
    let part_3 = ", metadata_reserve: "@ + byte_count(cache.metadata_reserve@);
    let part_4 = ", arena_shard_size: "@ + byte_count(cache.arena_shard_size@);
    let whole = cache_text(cache);
    lemma_middle(Seq::<char>::empty(), part_0, part_1 + part_2 + part_3 + part_4 + " }"@);
    assert(Seq::<char>::empty() + part_0 + (part_1 + part_2 + part_3 + part_4 + " }"@) =~= whole);
    lemma_middle(part_0, part_1, part_2 + part_3 + part_4 + " }"@);
    assert(part_0 + part_1 + (part_2 + part_3 + part_4 + " }"@) =~= whole);
    lemma_middle(part_0 + part_1, part_2, part_3 + part_4 + " }"@);
    assert(part_0 + part_1 + part_2 + (part_3 + part_4 + " }"@) =~= whole);
    lemma_middle(part_0 + part_1 + part_2, part_3, part_4 + " }"@);
    assert(part_0 + part_1 + part_2 + part_3 + (part_4 + " }"@) =~= whole);
    lemma_middle(part_0 + part_1 + part_2 + part_3, part_4, " }"@);
    assert(part_0 + part_1 + part_2 + part_3 + part_4 + (" }"@) =~= whole);
}

proof fn lemma_scheduler_tells(scheduler: SchedulerConfig)
    ensures
        contains_text(
            scheduler_text(scheduler),
            "SchedulerConfig { max_concurrent_requests: "@ + decimal_text(
                scheduler.max_concurrent_requests as nat,
            ),
        ),
        contains_text(
            scheduler_text(scheduler),
            ", max_inflight_bytes: "@ + byte_count(scheduler.max_inflight_bytes@),
        ),
        contains_text(
            scheduler_text(scheduler),
            ", readahead_window_min: "@ + byte_count(scheduler.readahead_window_min@),
        ),
        contains_text(
            scheduler_text(scheduler),
            ", readahead_window_max: "@ + byte_count(scheduler.readahead_window_max@),
        ),
{
    let part_0 = "SchedulerConfig { max_concurrent_requests: "@ + decimal_text(
        scheduler.max_concurrent_requests as nat,
    );
    let part_1 = ", max_inflight_bytes: "@ + byte_count(scheduler.max_inflight_bytes@);
    let part_2 = ", readahead_window_min: "@ + byte_count(scheduler.readahead_window_min@);
    let part_3 = ", readahead_window_max: "@ + byte_count(scheduler.readahead_window_max@);
    let whole = scheduler_text(scheduler);
    lemma_middle(Seq::<char>::empty(), part_0, part_1 + part_2 + part_3 + " }"@);
    assert(Seq::<char>::empty() + part_0 + (part_1 + part_2 + part_3 + " }"@) =~= whole);
    lemma_middle(part_0, part_1, part_2 + part_3 + " }"@);
    assert(part_0 + part_1 + (part_2 + part_3 + " }"@) =~= whole);
    lemma_middle(part_0 + part_1, part_2, part_3 + " }"@);
    assert(part_0 + part_1 + part_2 + (part_3 + " }"@) =~= whole);
    lemma_middle(part_0 + part_1 + part_2, part_3, " }"@);
    assert(part_0 + part_1 + part_2 + part_3 + (" }"@) =~= whole);
}

proof fn lemma_telemetry_tells(telemetry: TelemetryConfig)
    ensures
        contains_text(
            telemetry_text(telemetry),
            "TelemetryConfig { log_retention_days: "@ + decimal_text(
                telemetry.log_retention_days as nat,
            ),
        ),
        contains_text(
            telemetry_text(telemetry),
            ", max_log_bytes: "@ + byte_count(telemetry.max_log_bytes@),
        ),
        contains_text(
            telemetry_text(telemetry),
            ", first_touch_logging: "@ + switch_text(telemetry.first_touch_logging),
        ),
{
    let part_0 = "TelemetryConfig { log_retention_days: "@ + decimal_text(
        telemetry.log_retention_days as nat,
    );
    let part_1 = ", max_log_bytes: "@ + byte_count(telemetry.max_log_bytes@);
    let part_2 = ", first_touch_logging: "@ + switch_text(telemetry.first_touch_logging);
    let whole = telemetry_text(telemetry);
    lemma_middle(Seq::<char>::empty(), part_0, part_1 + part_2 + " }"@);
    assert(Seq::<char>::empty() + part_0 + (part_1 + part_2 + " }"@) =~= whole);
    lemma_middle(part_0, part_1, part_2 + " }"@);
    assert(part_0 + part_1 + (part_2 + " }"@) =~= whole);
    lemma_middle(part_0 + part_1, part_2, " }"@);
    assert(part_0 + part_1 + part_2 + (" }"@) =~= whole);
}

/// What is shown of a configuration tells each value behind its own name.
pub proof fn law_rendered_configuration_tells_each_value(config: &ServiceConfig, shown: String)
    requires
        call_ensures(ServiceConfig::rendered, (config,), shown),
    ensures
        contains_text(shown@, "CacheConfig { page_size: "@ + byte_count(config.cache.page_size@)),
        contains_text(shown@, ", budget: "@ + byte_count(config.cache.budget@)),
        contains_text(shown@, ", update_reserve: "@ + byte_count(config.cache.update_reserve@)),
        contains_text(shown@, ", metadata_reserve: "@ + byte_count(config.cache.metadata_reserve@)),
        contains_text(shown@, ", arena_shard_size: "@ + byte_count(config.cache.arena_shard_size@)),
        contains_text(
            shown@,
            "SchedulerConfig { max_concurrent_requests: "@ + decimal_text(
                config.scheduler.max_concurrent_requests as nat,
            ),
        ),
        contains_text(
            shown@,
            ", max_inflight_bytes: "@ + byte_count(config.scheduler.max_inflight_bytes@),
        ),
        contains_text(
            shown@,
            ", readahead_window_min: "@ + byte_count(config.scheduler.readahead_window_min@),
        ),
        contains_text(
            shown@,
            ", readahead_window_max: "@ + byte_count(config.scheduler.readahead_window_max@),
        ),
        contains_text(
            shown@,
            "TelemetryConfig { log_retention_days: "@ + decimal_text(
                config.telemetry.log_retention_days as nat,
            ),
        ),
        contains_text(shown@, ", max_log_bytes: "@ + byte_count(config.telemetry.max_log_bytes@)),
        contains_text(
            shown@,
            ", first_touch_logging: "@ + switch_text(config.telemetry.first_touch_logging),
        ),
{
    let whole = shown@;
    let cache = cache_text(config.cache);
    let scheduler = scheduler_text(config.scheduler);
    let telemetry = telemetry_text(config.telemetry);
    let head = "ServiceConfig { format_version: "@ + decimal_text(config.format_version as nat)
        + ", program_data_root: "@ + redacted_text(
        vstd::utf8::encode_utf8(config.program_data_root@).len(),
    ) + ", cache: "@;
    let behind_cache = ", scheduler: "@ + scheduler + ", telemetry: "@ + telemetry + " }"@;
    lemma_middle(head, cache, behind_cache);
    assert(head + cache + behind_cache =~= whole);
    let before = head + cache + ", scheduler: "@;
    let behind = ", telemetry: "@ + telemetry + " }"@;
    lemma_middle(before, scheduler, behind);
    assert(before + scheduler + behind =~= whole);
    let last = before + scheduler + ", telemetry: "@;
    lemma_middle(last, telemetry, " }"@);
    assert(last + telemetry + " }"@ =~= whole);
    lemma_cache_tells(config.cache);
    lemma_scheduler_tells(config.scheduler);
    lemma_telemetry_tells(config.telemetry);
    lemma_nested(whole, cache, "CacheConfig { page_size: "@ + byte_count(config.cache.page_size@));
    lemma_nested(whole, cache, ", budget: "@ + byte_count(config.cache.budget@));
    lemma_nested(whole, cache, ", update_reserve: "@ + byte_count(config.cache.update_reserve@));
    lemma_nested(
        whole,
        cache,
        ", metadata_reserve: "@ + byte_count(config.cache.metadata_reserve@),
    );
    lemma_nested(
        whole,
        cache,
        ", arena_shard_size: "@ + byte_count(config.cache.arena_shard_size@),
    );
    lemma_nested(
        whole,
        scheduler,
        "SchedulerConfig { max_concurrent_requests: "@ + decimal_text(
            config.scheduler.max_concurrent_requests as nat,
        ),
    );
    lemma_nested(
        whole,
        scheduler,
        ", max_inflight_bytes: "@ + byte_count(config.scheduler.max_inflight_bytes@),
    );
    lemma_nested(
        whole,
        scheduler,
        ", readahead_window_min: "@ + byte_count(config.scheduler.readahead_window_min@),
    );
    lemma_nested(
        whole,
        scheduler,
        ", readahead_window_max: "@ + byte_count(config.scheduler.readahead_window_max@),
    );
    lemma_nested(
        whole,
        telemetry,
        "TelemetryConfig { log_retention_days: "@ + decimal_text(
            config.telemetry.log_retention_days as nat,
        ),
    );
    lemma_nested(
        whole,
        telemetry,
        ", max_log_bytes: "@ + byte_count(config.telemetry.max_log_bytes@),
    );
    lemma_nested(
        whole,
        telemetry,
        ", first_touch_logging: "@ + switch_text(config.telemetry.first_touch_logging),
    );
}

} // verus!
