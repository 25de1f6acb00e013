//! The configuration model, its validation and the developer overrides.

use miragessd::config::load::{
    apply_env_overrides, parse_bool, parse_u32, EnvSource, MapEnv, DEV_ENV_ALLOWLIST,
    DEV_ENV_PREFIX, ENV_FIRST_TOUCH_LOGGING, ENV_LOG_RETENTION_DAYS, ENV_MAX_CONCURRENT_REQUESTS,
};
use miragessd::config::model::{
    ByteCount, CacheConfig, SchedulerConfig, ServiceConfig, TelemetryConfig, CONFIG_FORMAT_VERSION,
};
use miragessd::config::validate::{
    validate, validate_cache, validate_program_data_root, validate_scheduler, validate_telemetry,
    PathPolicy,
};
use miragessd::error::MirageError;

fn windows_config() -> ServiceConfig {
    ServiceConfig::with_root(r"C:\ProgramData\MirageSSD".to_owned())
}

#[test]
fn test_allowlist_is_sorted_and_prefixed() {
    let mut sorted = DEV_ENV_ALLOWLIST.to_vec();
    sorted.sort_unstable();
    assert_eq!(sorted.as_slice(), DEV_ENV_ALLOWLIST);
    assert!(DEV_ENV_ALLOWLIST.iter().all(|k| k.starts_with(DEV_ENV_PREFIX)));
}

#[test]
fn test_overrides_are_atomic() {
    let mut config = windows_config();
    let before = config.duplicate();
    let env = MapEnv::new().with(ENV_MAX_CONCURRENT_REQUESTS, "0");
    let err = apply_env_overrides(&mut config, &env, PathPolicy::Windows)
        .expect_err("zero concurrency must fail validation");
    assert_eq!(err.code(), "MIRAGE_INVALID_ARGUMENT");
    assert!(config == before);
}

#[test]
fn test_defaults_match_architecture_units() {
    let cache = CacheConfig::default();
    assert_eq!(cache.page_size.as_u64(), 1024 * 1024);
    assert_eq!(cache.arena_shard_size.as_u64(), 8 * 1024 * 1024 * 1024);
    assert_eq!(cache.budget.as_u64() / cache.page_size.as_u64(), 32_768);

    let scheduler = SchedulerConfig::default();
    assert_eq!(scheduler.readahead_window_min.as_u64(), 2 * 1024 * 1024);
    assert_eq!(scheduler.readahead_window_max.as_u64(), 16 * 1024 * 1024);
}

#[test]
fn test_debug_redacts_program_data_root() {
    let config = ServiceConfig::with_root(r"C:\Users\alice\MirageSSD".to_owned());
    let rendered = config.rendered();
    assert!(!rendered.contains("alice"));
    assert!(!rendered.contains("MirageSSD"));
    assert!(rendered.contains("<redacted path:"));
    assert_eq!(config.redacted_root(), "<redacted path: 24 bytes>");
}

#[test]
fn test_default_sections_validate() {
    let cache = CacheConfig::default();
    assert!(validate_cache(&cache).is_ok());
    assert!(validate_scheduler(&SchedulerConfig::default(), cache.page_size).is_ok());
    assert!(validate_telemetry(&TelemetryConfig::default()).is_ok());
}

#[test]
fn test_windows_and_unix_policies_are_host_independent() {
    let windows_root = r"C:\ProgramData\MirageSSD";
    let unix_root = "/var/lib/miragessd";

    assert!(validate_program_data_root(windows_root, PathPolicy::Windows).is_ok());
    assert!(validate_program_data_root(windows_root, PathPolicy::Unix).is_err());
    assert!(validate_program_data_root(unix_root, PathPolicy::Unix).is_ok());
    assert!(validate_program_data_root(unix_root, PathPolicy::Windows).is_err());
}

#[test]
fn test_root_error_messages_never_echo_the_path() {
    let root = r"C:\Users\alice\..\secret";
    let err = validate_program_data_root(root, PathPolicy::Windows)
        .expect_err("relative component must be rejected");
    assert!(!err.message.contains("alice"));
    assert!(!err.message.contains("secret"));
}

#[test]
fn minimal_config_applies_safe_defaults() {
    let config = windows_config();
    assert_eq!(config.format_version, CONFIG_FORMAT_VERSION);
    assert_eq!(config.cache, CacheConfig::default());
    assert_eq!(config.scheduler, SchedulerConfig::default());
    assert_eq!(config.telemetry, TelemetryConfig::default());
}

#[test]
fn golden_and_minimal_agree_on_every_default() {
    let golden = ServiceConfig {
        format_version: 1,
        program_data_root: r"C:\ProgramData\MirageSSD".to_owned(),
        cache: CacheConfig {
            page_size: ByteCount::from_u64(1048576),
            budget: ByteCount::from_u64(34359738368),
            update_reserve: ByteCount::from_u64(2147483648),
            metadata_reserve: ByteCount::from_u64(536870912),
            arena_shard_size: ByteCount::from_u64(8589934592),
        },
        scheduler: SchedulerConfig {
            max_concurrent_requests: 16,
            max_inflight_bytes: ByteCount::from_u64(67108864),
            readahead_window_min: ByteCount::from_u64(2097152),
            readahead_window_max: ByteCount::from_u64(16777216),
        },
        telemetry: TelemetryConfig {
            log_retention_days: 14,
            max_log_bytes: ByteCount::from_u64(268435456),
            first_touch_logging: true,
        },
    };
    assert!(validate(&golden, PathPolicy::Windows).is_ok());
    assert!(golden == windows_config());
}

#[test]
fn unsupported_format_version_is_an_unsupported_layout() {
    let mut config = ServiceConfig::with_root("/var/lib/miragessd".to_owned());
    config.format_version = 2;
    let err = validate(&config, PathPolicy::Unix).expect_err("future format versions are not guessed");
    assert_eq!(err.code(), "MIRAGE_UNSUPPORTED_LAYOUT");
}

/// A configuration whose cache section has been mutated by `edit`.
fn cache_config(edit: impl FnOnce(&mut CacheConfig)) -> ServiceConfig {
    let mut config = windows_config();
    edit(&mut config.cache);
    config
}

#[test]
fn page_size_that_is_not_a_power_of_two_is_rejected() {
    let config = cache_config(|cache| cache.page_size = ByteCount::from_u64(3 * 1024 * 1024));
    let err = validate(&config, PathPolicy::Windows).expect_err("page size must be a power of two");
    assert_eq!(err.code(), "MIRAGE_INVALID_ARGUMENT");
}

#[test]
fn zero_page_size_is_rejected_without_dividing_by_zero() {
    let config = cache_config(|cache| cache.page_size = ByteCount::zero());
    assert!(validate(&config, PathPolicy::Windows).is_err());
}

#[test]
fn out_of_range_page_sizes_are_rejected() {
    let too_small = cache_config(|cache| cache.page_size = ByteCount::from_u64(32 * 1024));
    assert!(validate(&too_small, PathPolicy::Windows).is_err());

    let too_large = cache_config(|cache| {
        cache.page_size = ByteCount::from_u64(32 * 1024 * 1024);
        cache.arena_shard_size = ByteCount::from_u64(32 * 1024 * 1024);
    });
    assert!(validate(&too_large, PathPolicy::Windows).is_err());
}

#[test]
fn arena_shard_size_that_is_not_a_whole_number_of_pages_is_rejected() {
    let config = cache_config(|cache| {
        cache.arena_shard_size = ByteCount::from_u64(8 * 1024 * 1024 * 1024 + 1);
    });
    let err = validate(&config, PathPolicy::Windows)
        .expect_err("a shard must divide into whole page slots");
    assert_eq!(err.code(), "MIRAGE_INVALID_ARGUMENT");
}

#[test]
fn budget_smaller_than_the_reserves_is_rejected() {
    let config = cache_config(|cache| {
        cache.budget = ByteCount::from_u64(1024 * 1024 * 1024);
        cache.update_reserve = ByteCount::from_u64(2 * 1024 * 1024 * 1024);
        cache.metadata_reserve = ByteCount::from_u64(512 * 1024 * 1024);
    });
    let err = validate(&config, PathPolicy::Windows)
        .expect_err("budget must cover the metadata and update reserves");
    assert_eq!(err.code(), "MIRAGE_INVALID_ARGUMENT");
}

#[test]
fn reserves_leaving_less_than_one_page_are_rejected() {
    let page = 1024 * 1024;
    let config = cache_config(|cache| {
        cache.budget = ByteCount::from_u64(4 * page);
        cache.update_reserve = ByteCount::from_u64(3 * page + 1);
        cache.metadata_reserve = ByteCount::zero();
    });
    assert!(validate(&config, PathPolicy::Windows).is_err());
}

#[test]
fn reserve_sum_overflow_is_reported_not_wrapped() {
    let config = cache_config(|cache| {
        cache.update_reserve = ByteCount::from_u64(u64::MAX);
        cache.metadata_reserve = ByteCount::from_u64(1);
    });
    let err = validate_cache(&config.cache).expect_err("reserve overflow must be reported");
    assert_eq!(err.code(), "MIRAGE_INVALID_ARGUMENT");
    assert!(err.message.contains("overflow"));
}

#[test]
fn budget_exceeding_the_slot_index_space_is_rejected() {
    // 64 KiB pages over a 256 TiB budget needs 2^32 slots: one more than `SlotIndex` can address.
    let page: u64 = 64 * 1024;
    let config = cache_config(|cache| {
        cache.page_size = ByteCount::from_u64(page);
        cache.arena_shard_size = ByteCount::from_u64(page);
        cache.budget = ByteCount::from_u64((u64::from(u32::MAX) + 1) * page);
    });
    let err = validate(&config, PathPolicy::Windows)
        .expect_err("slot count must fit the 32-bit slot index");
    assert_eq!(err.code(), "MIRAGE_INVALID_ARGUMENT");
}

#[test]
fn inverted_and_oversized_readahead_windows_are_rejected() {
    let mut inverted = windows_config();
    inverted.scheduler.readahead_window_min = ByteCount::from_u64(16 * 1024 * 1024);
    inverted.scheduler.readahead_window_max = ByteCount::from_u64(2 * 1024 * 1024);
    assert!(validate(&inverted, PathPolicy::Windows).is_err());

    let mut oversized = windows_config();
    oversized.scheduler.readahead_window_max = ByteCount::from_u64(128 * 1024 * 1024);
    assert!(validate(&oversized, PathPolicy::Windows).is_err());
}

#[test]
fn out_of_range_scheduler_and_telemetry_scalars_are_rejected() {
    let mut zero_concurrency = windows_config();
    zero_concurrency.scheduler.max_concurrent_requests = 0;
    assert!(validate(&zero_concurrency, PathPolicy::Windows).is_err());

    let mut excessive_concurrency = windows_config();
    excessive_concurrency.scheduler.max_concurrent_requests = 4096;
    assert!(validate(&excessive_concurrency, PathPolicy::Windows).is_err());

    let mut zero_retention = windows_config();
    zero_retention.telemetry.log_retention_days = 0;
    assert!(validate(&zero_retention, PathPolicy::Windows).is_err());

    let mut zero_log_bytes = windows_config();
    zero_log_bytes.telemetry.max_log_bytes = ByteCount::zero();
    assert!(validate(&zero_log_bytes, PathPolicy::Windows).is_err());
}

/// Validates `root` under `policy` via the full configuration path.
fn check_root(root: &str, policy: PathPolicy) -> Result<(), MirageError> {
    let mut config = windows_config();
    config.program_data_root = root.to_owned();
    validate(&config, policy)
}

#[test]
fn windows_policy_accepts_absolute_drive_paths() {
    assert!(check_root(r"C:\ProgramData\MirageSSD", PathPolicy::Windows).is_ok());
    assert!(check_root(r"D:\", PathPolicy::Windows).is_ok());
    assert!(check_root("E:/Mirage/data", PathPolicy::Windows).is_ok());
}

#[test]
fn windows_policy_rejects_traversal_relative_unc_and_device_paths() {
    for rejected in [
        r"C:\ProgramData\..\..\Windows\System32",
        r"C:\ProgramData\.\MirageSSD",
        r"ProgramData\MirageSSD",
        r"\ProgramData\MirageSSD",
        r"\\server\share\MirageSSD",
        r"\\?\C:\ProgramData\MirageSSD",
        r"\\.\PhysicalDrive0",
        r"C:\ProgramData\Mirage:stream",
        r"C:\ProgramData\Mirage*",
        r"C:\ProgramData\Mirage ",
        r"C:\ProgramData\Mirage.",
        "",
    ] {
        assert!(
            check_root(rejected, PathPolicy::Windows).is_err(),
            "windows policy must reject {rejected:?}"
        );
    }
}

#[test]
fn unix_policy_accepts_absolute_posix_paths_and_rejects_traversal() {
    assert!(check_root("/var/lib/miragessd", PathPolicy::Unix).is_ok());
    assert!(check_root("/", PathPolicy::Unix).is_ok());

    for rejected in ["/var/lib/../../etc/shadow", "/var/./lib", "var/lib/miragessd", ""] {
        assert!(
            check_root(rejected, PathPolicy::Unix).is_err(),
            "unix policy must reject {rejected:?}"
        );
    }
}

#[test]
fn path_policy_verdicts_do_not_depend_on_the_host_platform() {
    assert!(check_root(r"C:\ProgramData\MirageSSD", PathPolicy::Windows).is_ok());
    assert!(check_root(r"C:\ProgramData\MirageSSD", PathPolicy::Unix).is_err());
    assert!(check_root("/var/lib/miragessd", PathPolicy::Unix).is_ok());
    assert!(check_root("/var/lib/miragessd", PathPolicy::Windows).is_err());
}

#[test]
fn path_rejection_messages_never_echo_the_path() {
    let err = check_root(r"C:\Users\alice\..\private", PathPolicy::Windows)
        .expect_err("traversal must be rejected");
    assert!(!err.message.contains("alice"));
    assert!(!err.message.contains("private"));
    assert!(!err.describe().contains("alice"));
}

#[test]
fn debug_output_redacts_the_program_data_root() {
    let mut config = windows_config();
    config.program_data_root = r"C:\Users\alice\AppData\Local\MirageSSD".to_owned();

    let rendered = config.rendered();
    assert!(!rendered.contains("alice"));
    assert!(!rendered.contains("AppData"));
    assert!(!rendered.contains(r"C:\"));
    assert!(rendered.contains("<redacted path:"));

    // The non-path sections stay legible so a diagnostic bundle is still useful.
    assert!(rendered.contains("page_size"));
    assert!(rendered.contains("log_retention_days"));
}

#[test]
fn allowlisted_environment_overrides_apply() {
    let mut config = windows_config();
    let env = MapEnv::new()
        .with(ENV_LOG_RETENTION_DAYS, "30")
        .with(ENV_MAX_CONCURRENT_REQUESTS, "64")
        .with(ENV_FIRST_TOUCH_LOGGING, "false");

    apply_env_overrides(&mut config, &env, PathPolicy::Windows).expect("allowlisted overrides");

    assert_eq!(config.telemetry.log_retention_days, 30);
    assert_eq!(config.scheduler.max_concurrent_requests, 64);
    assert!(!config.telemetry.first_touch_logging);
}

#[test]
fn unrecognized_developer_variable_is_rejected() {
    let mut config = windows_config();
    let env = MapEnv::new().with("MIRAGE_DEV_DRIVE_REFRESH_TOKEN", "unused");

    let err = apply_env_overrides(&mut config, &env, PathPolicy::Windows)
        .expect_err("only allowlisted developer overrides are accepted");
    assert_eq!(err.code(), "MIRAGE_INVALID_ARGUMENT");
}

#[test]
fn unparseable_override_values_are_rejected() {
    let mut config = windows_config();

    let bad_number = MapEnv::new().with(ENV_LOG_RETENTION_DAYS, "thirty");
    assert!(apply_env_overrides(&mut config, &bad_number, PathPolicy::Windows).is_err());

    let bad_bool = MapEnv::new().with(ENV_FIRST_TOUCH_LOGGING, "TRUE");
    assert!(apply_env_overrides(&mut config, &bad_bool, PathPolicy::Windows).is_err());

    assert!(config == windows_config());
}

#[test]
fn overrides_are_revalidated_before_being_committed() {
    let mut config = windows_config();
    let env = MapEnv::new().with(ENV_LOG_RETENTION_DAYS, "4000");

    let err = apply_env_overrides(&mut config, &env, PathPolicy::Windows)
        .expect_err("overrides must satisfy the same rules as file values");
    assert_eq!(err.code(), "MIRAGE_INVALID_ARGUMENT");
    assert_eq!(config.telemetry.log_retention_days, 14);
}

#[test]
fn an_empty_environment_changes_nothing() {
    let mut config = windows_config();
    apply_env_overrides(&mut config, &MapEnv::new(), PathPolicy::Windows).expect("no overrides");
    assert!(config == windows_config());
}

#[test]
fn the_host_policy_follows_the_separator_of_the_host() {
    let expected = if std::path::MAIN_SEPARATOR == '\\' {
        PathPolicy::Windows
    } else {
        PathPolicy::Unix
    };
    assert_eq!(PathPolicy::host(), expected);
    assert_eq!(PathPolicy::for_separator('\\'), PathPolicy::Windows);
    assert_eq!(PathPolicy::for_separator('/'), PathPolicy::Unix);
}

#[test]
fn the_first_refused_variable_is_reported() {
    let mut config = windows_config();
    let env = MapEnv::new()
        .with("MIRAGE_DEV_Z", "1")
        .with("MIRAGE_DEV_A", "1")
        .with(ENV_LOG_RETENTION_DAYS, "30")
        .with("MIRAGE_DEV_M", "1");
    assert_eq!(
        env.keys_with_prefix("MIRAGE_DEV_"),
        ["MIRAGE_DEV_A", ENV_LOG_RETENTION_DAYS, "MIRAGE_DEV_M", "MIRAGE_DEV_Z"]
    );
    let err = apply_env_overrides(&mut config, &env, PathPolicy::Windows).expect_err("unlisted");
    assert_eq!(
        err.message,
        "environment variable MIRAGE_DEV_A uses the reserved MIRAGE_DEV_ prefix but is not on the developer override allowlist"
    );
    assert!(config == windows_config());
}

#[test]
fn map_environments_are_compared_and_copied() {
    let env = MapEnv::new().with("B", "1").with("A", "2");
    assert_eq!(env.clone(), env);
    assert_eq!(MapEnv::new().with("A", "2").with("B", "0").with("B", "1"), env);
    assert_eq!(MapEnv::default(), MapEnv::new());
    assert_ne!(env, MapEnv::new());
    assert_eq!(env.clone().get("A").as_deref(), Some("2"));
}

#[test]
fn separators_of_a_windows_root_mean_the_same() {
    let verdict = |root: &str| {
        validate_program_data_root(root, PathPolicy::Windows).map_err(|error| error.message)
    };
    for (left, right) in [
        (r"C:\data\x", "C:/data/x"),
        (r"C:\data\..", r"C:\data/.."),
        (r"\\server\x", r"/\server/x"),
    ] {
        assert_eq!(verdict(left), verdict(right));
    }
    assert!(verdict(r"C:\\data\\\x").is_ok());
    assert_eq!(verdict(r"C:\data\\x."), verdict(r"C:\data\x."));
}

#[test]
fn a_map_environment_answers_what_was_put_in_last() {
    let env = MapEnv::new()
        .with("MIRAGE_DEV_B", "1")
        .with("MIRAGE_DEV_A", "2")
        .with("OTHER", "3")
        .with("MIRAGE_DEV_B", "4");
    assert_eq!(env.get("MIRAGE_DEV_B").as_deref(), Some("4"));
    assert_eq!(env.get("OTHER").as_deref(), Some("3"));
    assert!(env.get("MIRAGE_DEV_C").is_none());
    assert_eq!(env.keys_with_prefix("MIRAGE_DEV_"), vec!["MIRAGE_DEV_A", "MIRAGE_DEV_B"]);
}

#[test]
fn override_values_are_read_strictly() {
    assert_eq!(parse_u32("K", "4294967295").unwrap(), u32::MAX);
    assert!(parse_u32("K", "4294967296").is_err());
    assert!(parse_u32("K", "-1").is_err());
    assert!(parse_u32("K", "").is_err());
    assert!(parse_bool("K", "true").unwrap());
    assert!(!parse_bool("K", "false").unwrap());
    assert!(parse_bool("K", "1").is_err());
    assert!(parse_bool("K", "TRUE").is_err());
}

#[test]
fn a_rendered_configuration_is_exact() {
    let config = ServiceConfig::with_root("/x".to_owned());
    assert_eq!(
        config.rendered(),
        "ServiceConfig { format_version: 1, program_data_root: <redacted path: 2 bytes>, \
         cache: CacheConfig { page_size: ByteCount(1048576), budget: ByteCount(34359738368), \
         update_reserve: ByteCount(2147483648), metadata_reserve: ByteCount(536870912), \
         arena_shard_size: ByteCount(8589934592) }, \
         scheduler: SchedulerConfig { max_concurrent_requests: 16, \
         max_inflight_bytes: ByteCount(67108864), readahead_window_min: ByteCount(2097152), \
         readahead_window_max: ByteCount(16777216) }, \
         telemetry: TelemetryConfig { log_retention_days: 14, \
         max_log_bytes: ByteCount(268435456), first_touch_logging: true } }"
    );
}

#[test]
fn config_declares_no_secret_bearing_fields() {
    let rendered = windows_config().rendered();
    let lowered = rendered.to_ascii_lowercase();
    for forbidden in [
        "token",
        "secret",
        "credential",
        "password",
        "api_key",
        "client_id",
        "refresh",
        "oauth",
        "http",
    ] {
        assert!(
            !lowered.contains(forbidden),
            "configuration surface must not expose a `{forbidden}` field"
        );
    }
}
