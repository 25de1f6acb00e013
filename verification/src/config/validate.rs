//! Pure validation of configuration values.
//!
//! Path rules are purely syntactic and are selected by an explicit policy, so
//! the same configuration gets the same verdict on every host.

use vstd::prelude::*;
use crate::config::model::{
    is_default_cache, is_default_scheduler, is_default_telemetry, ByteCount, CacheConfig,
    SchedulerConfig, ServiceConfig, TelemetryConfig, CONFIG_FORMAT_VERSION,
};
use crate::error::{answers, invalid, unsupported, MirageError, MirageErrorKind, Refusal};
use crate::text::{
    alphabetic, chars_of, control, decimal, decimal_text, has_char, is_alphabetic, is_control,
    pieces, run_length, same_text, split_text, string_of, texts,
};

verus! {

/// Smallest accepted cache page size: 64 KiB.
pub const PAGE_SIZE_MIN: u64 = 65536;

/// Largest accepted cache page size: 16 MiB.
pub const PAGE_SIZE_MAX: u64 = 16777216;

/// Largest accepted concurrent backend request limit.
pub const MAX_CONCURRENT_REQUESTS_MAX: u32 = 1024;

/// Largest accepted log retention window, in days.
pub const LOG_RETENTION_DAYS_MAX: u32 = 365;

/// Largest accepted retained log ceiling: 64 GiB.
pub const MAX_LOG_BYTES_MAX: u64 = 68719476736;

/// Which platform's path syntax a configuration is validated against.
#[derive(Debug, Clone, Copy, PartialEq, Eq, Hash, Structural)]
pub enum PathPolicy {
    /// Absolute drive-letter paths; rejects UNC shares and the device
    /// namespace.
    Windows,
    /// Absolute POSIX paths rooted at `/`.
    Unix,
}

/// The policy of a platform, told by its primary path separator.
pub open spec fn policy_of_separator(separator: char) -> PathPolicy {
    if separator == '\\' {
        PathPolicy::Windows
    } else {
        PathPolicy::Unix
    }
}

/// `std::path::MAIN_SEPARATOR`: the primary path separator of the platform this
/// build targets. Nothing is claimed of it.
#[verifier::external_body]
fn main_separator() -> (separator: char) {
    std::path::MAIN_SEPARATOR
}

/// Whether a character is what the platform gave as its primary path separator.
pub closed spec fn is_main_separator(separator: char) -> bool {
    call_ensures(main_separator, (), separator)
}

impl PathPolicy {
    /// The policy matching the platform this build targets.
    pub fn host() -> (policy: PathPolicy)
        ensures
            exists|separator: char|
                #[trigger] is_main_separator(separator) && policy == policy_of_separator(separator),
    {
        let separator = main_separator();
        assert(is_main_separator(separator));
        PathPolicy::for_separator(separator)
    }

    /// The policy of a platform, told by its primary path separator.
    pub fn for_separator(separator: char) -> (policy: PathPolicy)
        ensures
            policy == policy_of_separator(separator),
    {
        if separator == '\\' {
            PathPolicy::Windows
        } else {
            PathPolicy::Unix
        }
    }
}

// ---------------------------------------------------------------------------
// Sizes
// ---------------------------------------------------------------------------

/// Whether a number is 1, 2, 4, 8 and so on.
pub open spec fn power_of_two(value: nat) -> bool
    decreases value,
{
    value == 1 || (value > 1 && value % 2 == 0 && power_of_two(value / 2))
}

fn is_power_of_two(value: u64) -> (yes: bool)
    ensures
        yes == power_of_two(value as nat),
{
    let mut rest: u64 = value;
    while rest > 1 && rest % 2 == 0
        invariant
            power_of_two(value as nat) == power_of_two(rest as nat),
        decreases rest,
    {
        rest = rest / 2;
    }
    rest == 1
}

/// Whether a size is a non-zero whole number of pages.
pub open spec fn whole_pages(size: nat, page: nat) -> bool {
    size != 0 && size % page == 0
}

/// Why a cache section is not accepted, if it is not.
pub open spec fn cache_refusal(cache: CacheConfig) -> Refusal {
    let page = cache.page_size@;
    let shard = cache.arena_shard_size@;
    let budget = cache.budget@;
    let reserved = cache.update_reserve@ + cache.metadata_reserve@;
    if !power_of_two(page) {
        invalid("cache.page_size ("@ + decimal_text(page) + " bytes) must be a power of two"@)
    } else if !(PAGE_SIZE_MIN <= page <= PAGE_SIZE_MAX) {
        invalid(
            "cache.page_size ("@ + decimal_text(page) + " bytes) must be between "@ + decimal_text(
                PAGE_SIZE_MIN as nat,
            ) + " and "@ + decimal_text(PAGE_SIZE_MAX as nat) + " bytes"@,
        )
    } else if !whole_pages(shard, page) {
        invalid(
            "cache.arena_shard_size ("@ + decimal_text(shard)
                + " bytes) must be a non-zero multiple of cache.page_size ("@ + decimal_text(page)
                + " bytes)"@,
        )
    } else if !whole_pages(budget, page) {
        invalid(
            "cache.budget ("@ + decimal_text(budget)
                + " bytes) must be a non-zero multiple of cache.page_size ("@ + decimal_text(page)
                + " bytes) so no allocation-rounding bytes escape the hard envelope"@,
        )
    } else if budget / page > u32::MAX {
        invalid(
            "cache.budget ("@ + decimal_text(budget) + " bytes) yields "@ + decimal_text(
                budget / page,
            ) + " slots, which exceeds the "@ + decimal_text(u32::MAX as nat)
                + " addressable slot indices"@,
        )
    } else if reserved > u64::MAX {
        invalid(
            "cache.update_reserve ("@ + decimal_text(cache.update_reserve@)
                + " bytes) + cache.metadata_reserve ("@ + decimal_text(cache.metadata_reserve@)
                + " bytes) overflows a 64-bit byte count"@,
        )
    } else if budget < reserved {
        invalid(
            "cache.budget ("@ + decimal_text(budget)
                + " bytes) is smaller than cache.update_reserve + cache.metadata_reserve ("@
                + decimal_text(reserved) + " bytes)"@,
        )
    } else if budget - reserved < page {
        invalid(
            "cache.budget ("@ + decimal_text(budget) + " bytes) minus reserves ("@ + decimal_text(
                reserved,
            ) + " bytes) leaves "@ + decimal_text((budget - reserved) as nat)
                + " bytes, which is less than one "@ + decimal_text(page) + "-byte page"@,
        )
    } else {
        None
    }
}

/// Why a read-ahead window is not accepted, if it is not.
pub open spec fn window_refusal(name: Seq<char>, window: nat, page: nat) -> Refusal {
    if !whole_pages(window, page) {
        invalid(
            "scheduler."@ + name + " ("@ + decimal_text(window)
                + " bytes) must be a non-zero multiple of cache.page_size ("@ + decimal_text(page)
                + " bytes)"@,
        )
    } else {
        None
    }
}

/// Why a scheduler section is not accepted for a page size, if it is not.
pub open spec fn scheduler_refusal(scheduler: SchedulerConfig, page: nat) -> Refusal {
    if page == 0 {
        invalid("cache.page_size must be non-zero"@)
    } else if !(1 <= scheduler.max_concurrent_requests <= MAX_CONCURRENT_REQUESTS_MAX) {
        invalid(
            "scheduler.max_concurrent_requests ("@ + decimal_text(
                scheduler.max_concurrent_requests as nat,
            ) + ") must be between 1 and "@ + decimal_text(MAX_CONCURRENT_REQUESTS_MAX as nat),
        )
    } else if scheduler.max_inflight_bytes@ < page {
        invalid(
            "scheduler.max_inflight_bytes ("@ + decimal_text(scheduler.max_inflight_bytes@)
                + " bytes) must be at least one "@ + decimal_text(page) + "-byte page"@,
        )
    } else if window_refusal(
        "readahead_window_min"@,
        scheduler.readahead_window_min@,
        page,
    ) is Some {
        window_refusal("readahead_window_min"@, scheduler.readahead_window_min@, page)
    } else if window_refusal(
        "readahead_window_max"@,
        scheduler.readahead_window_max@,
        page,
    ) is Some {
        window_refusal("readahead_window_max"@, scheduler.readahead_window_max@, page)
    } else if scheduler.readahead_window_min@ > scheduler.readahead_window_max@ {
        invalid(
            "scheduler.readahead_window_min ("@ + decimal_text(scheduler.readahead_window_min@)
                + " bytes) must not exceed scheduler.readahead_window_max ("@ + decimal_text(
                scheduler.readahead_window_max@,
            ) + " bytes)"@,
        )
    } else if scheduler.readahead_window_max@ > scheduler.max_inflight_bytes@ {
        invalid(
            "scheduler.readahead_window_max ("@ + decimal_text(scheduler.readahead_window_max@)
                + " bytes) must not exceed scheduler.max_inflight_bytes ("@ + decimal_text(
                scheduler.max_inflight_bytes@,
            ) + " bytes)"@,
        )
    } else {
        None
    }
}

/// Why a telemetry section is not accepted, if it is not.
pub open spec fn telemetry_refusal(telemetry: TelemetryConfig) -> Refusal {
    if !(1 <= telemetry.log_retention_days <= LOG_RETENTION_DAYS_MAX) {
        invalid(
            "telemetry.log_retention_days ("@ + decimal_text(telemetry.log_retention_days as nat)
                + ") must be between 1 and "@ + decimal_text(LOG_RETENTION_DAYS_MAX as nat),
        )
    } else if !(1 <= telemetry.max_log_bytes@ <= MAX_LOG_BYTES_MAX) {
        invalid(
            "telemetry.max_log_bytes ("@ + decimal_text(telemetry.max_log_bytes@)
                + " bytes) must be between 1 and "@ + decimal_text(MAX_LOG_BYTES_MAX as nat)
                + " bytes"@,
        )
    } else {
        None
    }
}

/// Validates the cache arena section in isolation.
pub fn validate_cache(cache: &CacheConfig) -> (verdict: Result<(), MirageError>)
    ensures
        answers(verdict, cache_refusal(*cache)),
{
    let page: u64 = cache.page_size.as_u64();
    if !is_power_of_two(page) {
        let mut message: String = "cache.page_size (".to_owned();
        message.append(decimal(page).as_str());
        message.append(" bytes) must be a power of two");
        return Err(MirageError::invalid_argument(message.as_str()));
    }
    if page < PAGE_SIZE_MIN || page > PAGE_SIZE_MAX {
        let mut message: String = "cache.page_size (".to_owned();
        message.append(decimal(page).as_str());
        message.append(" bytes) must be between ");
        message.append(decimal(PAGE_SIZE_MIN).as_str());
        message.append(" and ");
        message.append(decimal(PAGE_SIZE_MAX).as_str());
        message.append(" bytes");
        return Err(MirageError::invalid_argument(message.as_str()));
    }
    // Every arena slot holds exactly one cache page, so a shard must divide into
    // whole slots with no unaddressable tail.
    let shard: u64 = cache.arena_shard_size.as_u64();
    if shard == 0 || shard % page != 0 {
        let mut message: String = "cache.arena_shard_size (".to_owned();
        message.append(decimal(shard).as_str());
        message.append(" bytes) must be a non-zero multiple of cache.page_size (");
        message.append(decimal(page).as_str());
        message.append(" bytes)");
        return Err(MirageError::invalid_argument(message.as_str()));
    }
    let budget: u64 = cache.budget.as_u64();
    if budget == 0 || budget % page != 0 {
        let mut message: String = "cache.budget (".to_owned();
        message.append(decimal(budget).as_str());
        message.append(" bytes) must be a non-zero multiple of cache.page_size (");
        message.append(decimal(page).as_str());
        message.append(" bytes) so no allocation-rounding bytes escape the hard envelope");
        return Err(MirageError::invalid_argument(message.as_str()));
    }
    let slots: u64 = budget / page;
    if slots > u32::MAX as u64 {
        let mut message: String = "cache.budget (".to_owned();
        message.append(decimal(budget).as_str());
        message.append(" bytes) yields ");
        message.append(decimal(slots).as_str());
        message.append(" slots, which exceeds the ");
        message.append(decimal(u32::MAX as u64).as_str());
        message.append(" addressable slot indices");
        return Err(MirageError::invalid_argument(message.as_str()));
    }
    let reserved = match cache.update_reserve.checked_add(cache.metadata_reserve) {
        Some(reserved) => reserved,
        None => {
            let mut message: String = "cache.update_reserve (".to_owned();
            message.append(decimal(cache.update_reserve.as_u64()).as_str());
            message.append(" bytes) + cache.metadata_reserve (");
            message.append(decimal(cache.metadata_reserve.as_u64()).as_str());
            message.append(" bytes) overflows a 64-bit byte count");
            return Err(MirageError::invalid_argument(message.as_str()));
        },
    };
    let usable = match cache.budget.checked_sub(reserved) {
        Some(usable) => usable,
        None => {
            let mut message: String = "cache.budget (".to_owned();
            message.append(decimal(budget).as_str());
            message.append(
                " bytes) is smaller than cache.update_reserve + cache.metadata_reserve (",
            );
            message.append(decimal(reserved.as_u64()).as_str());
            message.append(" bytes)");
            return Err(MirageError::invalid_argument(message.as_str()));
        },
    };
    if usable.as_u64() < page {
        let mut message: String = "cache.budget (".to_owned();
        message.append(decimal(budget).as_str());
        message.append(" bytes) minus reserves (");
        message.append(decimal(reserved.as_u64()).as_str());
        message.append(" bytes) leaves ");
        message.append(decimal(usable.as_u64()).as_str());
        message.append(" bytes, which is less than one ");
        message.append(decimal(page).as_str());
        message.append("-byte page");
        return Err(MirageError::invalid_argument(message.as_str()));
    }
    Ok(())
}

fn validate_window(name: &str, window: u64, page: u64) -> (verdict: Result<(), MirageError>)
    requires
        page > 0,
    ensures
        answers(verdict, window_refusal(name@, window as nat, page as nat)),
{
    if window == 0 || window % page != 0 {
        let mut message: String = "scheduler.".to_owned();
        message.append(name);
        message.append(" (");
        message.append(decimal(window).as_str());
        message.append(" bytes) must be a non-zero multiple of cache.page_size (");
        message.append(decimal(page).as_str());
        message.append(" bytes)");
        return Err(MirageError::invalid_argument(message.as_str()));
    }
    Ok(())
}

/// Validates the scheduler section against the configured page size.
pub fn validate_scheduler(scheduler: &SchedulerConfig, page_size: ByteCount) -> (verdict: Result<
    (),
    MirageError,
>)
    ensures
        answers(verdict, scheduler_refusal(*scheduler, page_size@)),
{
    let page: u64 = page_size.as_u64();
    if page == 0 {
        return Err(MirageError::invalid_argument("cache.page_size must be non-zero"));
    }
    if scheduler.max_concurrent_requests == 0 || scheduler.max_concurrent_requests
        > MAX_CONCURRENT_REQUESTS_MAX {
        let mut message: String = "scheduler.max_concurrent_requests (".to_owned();
        message.append(decimal(scheduler.max_concurrent_requests as u64).as_str());
        message.append(") must be between 1 and ");
        message.append(decimal(MAX_CONCURRENT_REQUESTS_MAX as u64).as_str());
        return Err(MirageError::invalid_argument(message.as_str()));
    }
    let inflight: u64 = scheduler.max_inflight_bytes.as_u64();
    if inflight < page {
        let mut message: String = "scheduler.max_inflight_bytes (".to_owned();
        message.append(decimal(inflight).as_str());
        message.append(" bytes) must be at least one ");
        message.append(decimal(page).as_str());
        message.append("-byte page");
        return Err(MirageError::invalid_argument(message.as_str()));
    }
    let smallest: u64 = scheduler.readahead_window_min.as_u64();
    let largest: u64 = scheduler.readahead_window_max.as_u64();
    validate_window("readahead_window_min", smallest, page)?;
    validate_window("readahead_window_max", largest, page)?;
    if smallest > largest {
        let mut message: String = "scheduler.readahead_window_min (".to_owned();
        message.append(decimal(smallest).as_str());
        message.append(" bytes) must not exceed scheduler.readahead_window_max (");
        message.append(decimal(largest).as_str());
        message.append(" bytes)");
        return Err(MirageError::invalid_argument(message.as_str()));
    }
    if largest > inflight {
        let mut message: String = "scheduler.readahead_window_max (".to_owned();
        message.append(decimal(largest).as_str());
        message.append(" bytes) must not exceed scheduler.max_inflight_bytes (");
        message.append(decimal(inflight).as_str());
        message.append(" bytes)");
        return Err(MirageError::invalid_argument(message.as_str()));
    }
    Ok(())
}

/// Validates the telemetry section in isolation.
pub fn validate_telemetry(telemetry: &TelemetryConfig) -> (verdict: Result<(), MirageError>)
    ensures
        answers(verdict, telemetry_refusal(*telemetry)),
{
    if telemetry.log_retention_days == 0 || telemetry.log_retention_days > LOG_RETENTION_DAYS_MAX {
        let mut message: String = "telemetry.log_retention_days (".to_owned();
        message.append(decimal(telemetry.log_retention_days as u64).as_str());
        message.append(") must be between 1 and ");
        message.append(decimal(LOG_RETENTION_DAYS_MAX as u64).as_str());
        return Err(MirageError::invalid_argument(message.as_str()));
    }
    let ceiling: u64 = telemetry.max_log_bytes.as_u64();
    if ceiling == 0 || ceiling > MAX_LOG_BYTES_MAX {
        let mut message: String = "telemetry.max_log_bytes (".to_owned();
        message.append(decimal(ceiling).as_str());
        message.append(" bytes) must be between 1 and ");
        message.append(decimal(MAX_LOG_BYTES_MAX).as_str());
        message.append(" bytes");
        return Err(MirageError::invalid_argument(message.as_str()));
    }
    Ok(())
}

// ---------------------------------------------------------------------------
// Paths
// ---------------------------------------------------------------------------

/// The two characters Windows accepts as path separators.
pub open spec fn windows_separator(c: char) -> bool {
    c == '\\' || c == '/'
}

/// Characters that may not appear inside a Windows path component. The only
/// legal colon in an accepted path is the drive separator; a component-level
/// colon denotes an alternate data stream.
pub open spec fn forbidden_in_windows(c: char) -> bool {
    c == '<' || c == '>' || c == ':' || c == '"' || c == '|' || c == '?' || c == '*' || is_control(
        c,
    )
}

/// Why a path component is not accepted, if it is not.
pub open spec fn component_refusal(component: Seq<char>, policy: PathPolicy) -> Refusal {
    if component.len() == 0 {
        None
    } else if component == "."@ || component == ".."@ {
        invalid("program_data_root must not contain a relative '.' or '..' component"@)
    } else if policy == PathPolicy::Windows && (component.last() == ' ' || component.last() == '.') {
        invalid("program_data_root components must not end with a space or a period"@)
    } else if policy == PathPolicy::Windows && exists|i: int|
        0 <= i < component.len() && forbidden_in_windows(#[trigger] component[i]) {
        invalid(
            "program_data_root contains a character that is not permitted in a Windows path component (< > : \" | ? * or a control character)"@,
        )
    } else {
        None
    }
}

/// The refusal of the first component that has one.
pub open spec fn first_component_refusal(
    components: Seq<Seq<char>>,
    policy: PathPolicy,
) -> Refusal
    decreases components.len(),
{
    if components.len() == 0 {
        None
    } else if component_refusal(components[0], policy) is Some {
        component_refusal(components[0], policy)
    } else {
        first_component_refusal(components.skip(1), policy)
    }
}

/// The components below the root of a path.
pub open spec fn components_of(root: Seq<char>, policy: PathPolicy) -> Seq<Seq<char>> {
    match policy {
        PathPolicy::Windows => pieces(root.skip(3), '\\', '/'),
        PathPolicy::Unix => pieces(root, '/', '/'),
    }
}

/// Whether a path starts at a drive root such as `C:\`.
pub open spec fn has_drive_root(root: Seq<char>) -> bool {
    root.len() >= 3 && is_alphabetic(root[0]) && root[1] == ':' && windows_separator(root[2])
}

/// Why a root directory is not accepted, if it is not.
pub open spec fn root_refusal(root: Seq<char>, policy: PathPolicy) -> Refusal {
    if root.len() == 0 {
        invalid("program_data_root must not be empty"@)
    } else if root.contains('\0') {
        invalid("program_data_root must not contain a NUL byte"@)
    } else if policy == PathPolicy::Windows && root.len() >= 2 && windows_separator(root[0])
        && windows_separator(root[1]) {
        invalid("program_data_root must not be a UNC share or a device-namespace path"@)
    } else if policy == PathPolicy::Windows && !has_drive_root(root) {
        invalid(
            "program_data_root must be an absolute drive-letter path, for example C:\\ProgramData\\MirageSSD"@,
        )
    } else if policy == PathPolicy::Unix && root[0] != '/' {
        invalid("program_data_root must be an absolute path beginning with '/'"@)
    } else {
        first_component_refusal(components_of(root, policy), policy)
    }
}

/// Whether a character is a Windows path separator.
pub fn is_windows_separator(c: char) -> (yes: bool)
    ensures
        yes == windows_separator(c),
{
    c == '\\' || c == '/'
}

/// Rejects `.` and `..` components, which would let a configured root escape
/// its declared location.
pub fn reject_relative_component(component: &str) -> (verdict: Result<(), MirageError>)
    ensures
        answers(
            verdict,
            if component@ == "."@ || component@ == ".."@ {
                invalid("program_data_root must not contain a relative '.' or '..' component"@)
            } else {
                None
            },
        ),
{
    if same_text(component, ".") || same_text(component, "..") {
        return Err(
            MirageError::invalid_argument(
                "program_data_root must not contain a relative '.' or '..' component",
            ),
        );
    }
    Ok(())
}

fn validate_component(component: &str, policy: PathPolicy) -> (verdict: Result<(), MirageError>)
    ensures
        answers(verdict, component_refusal(component@, policy)),
{
    let chars = chars_of(component);
    let length: usize = chars.len();
    if length == 0 {
        return Ok(());
    }
    reject_relative_component(component)?;
    if policy == PathPolicy::Unix {
        return Ok(());
    }
    if chars[length - 1] == ' ' || chars[length - 1] == '.' {
        return Err(
            MirageError::invalid_argument(
                "program_data_root components must not end with a space or a period",
            ),
        );
    }
    for at in 0..length
        invariant
            length == chars@.len(),
            chars@ == component@,
            length > 0,
            policy == PathPolicy::Windows,
            component@ != "."@,
            component@ != ".."@,
            component@.last() != ' ',
            component@.last() != '.',
            forall|i: int| 0 <= i < at ==> !forbidden_in_windows(#[trigger] component@[i]),
    {
        let c = chars[at];
        if c == '<' || c == '>' || c == ':' || c == '"' || c == '|' || c == '?' || c == '*'
            || control(c) {
            assert(forbidden_in_windows(component@[at as int]));
            return Err(
                MirageError::invalid_argument(
                    "program_data_root contains a character that is not permitted in a Windows path component (< > : \" | ? * or a control character)",
                ),
            );
        }
    }
    Ok(())
}

fn validate_components(components: &Vec<String>, policy: PathPolicy) -> (verdict: Result<
    (),
    MirageError,
>)
    ensures
        answers(verdict, first_component_refusal(texts(components@), policy)),
{
    let ghost all = texts(components@);
    let mut at: usize = 0;
    assert(all.skip(0) == all);
    while at < components.len()
        invariant
            at <= components@.len(),
            all == texts(components@),
            first_component_refusal(all, policy) == first_component_refusal(
                all.skip(at as int),
                policy,
            ),
        decreases components@.len() - at,
    {
        let verdict = validate_component(components[at].as_str(), policy);
        assert(all.skip(at as int)[0] == components@[at as int]@);
        verdict?;
        assert(all.skip(at as int).skip(1) == all.skip(at + 1));
        at = at + 1;
    }
    Ok(())
}

/// Applies the Windows path rules to a non-empty, NUL-free path.
pub fn validate_windows_root(raw: &str) -> (verdict: Result<(), MirageError>)
    requires
        raw@.len() > 0,
        !raw@.contains('\0'),
    ensures
        answers(verdict, root_refusal(raw@, PathPolicy::Windows)),
{
    let chars = chars_of(raw);
    // `\\server\share`, `\\?\C:\...`, and `\\.\PhysicalDrive0` all start with two
    // separators. Verbatim and device paths bypass the normalization rules that
    // this function exists to enforce.
    if chars.len() >= 2 && is_windows_separator(chars[0]) && is_windows_separator(chars[1]) {
        return Err(
            MirageError::invalid_argument(
                "program_data_root must not be a UNC share or a device-namespace path",
            ),
        );
    }
    if !(chars.len() >= 3 && alphabetic(chars[0]) && chars[1] == ':' && is_windows_separator(
        chars[2],
    )) {
        return Err(
            MirageError::invalid_argument(
                "program_data_root must be an absolute drive-letter path, for example C:\\ProgramData\\MirageSSD",
            ),
        );
    }
    let tail = string_of(&chars, 3, chars.len());
    assert(tail@ == raw@.skip(3));
    let components = split_text(tail.as_str(), '\\', '/');
    validate_components(&components, PathPolicy::Windows)
}

/// Applies the POSIX path rules to a non-empty, NUL-free path.
pub fn validate_unix_root(raw: &str) -> (verdict: Result<(), MirageError>)
    requires
        raw@.len() > 0,
        !raw@.contains('\0'),
    ensures
        answers(verdict, root_refusal(raw@, PathPolicy::Unix)),
{
    let chars = chars_of(raw);
    if chars[0] != '/' {
        return Err(
            MirageError::invalid_argument(
                "program_data_root must be an absolute path beginning with '/'",
            ),
        );
    }
    let components = split_text(raw, '/', '/');
    validate_components(&components, PathPolicy::Unix)
}

/// Validates a root directory syntactically against the supplied policy. The
/// messages never echo the path itself.
pub fn validate_program_data_root(root: &str, policy: PathPolicy) -> (verdict: Result<
    (),
    MirageError,
>)
    ensures
        answers(verdict, root_refusal(root@, policy)),
{
    if root.is_empty() {
        return Err(MirageError::invalid_argument("program_data_root must not be empty"));
    }
    if has_char(root, '\0') {
        return Err(MirageError::invalid_argument("program_data_root must not contain a NUL byte"));
    }
    match policy {
        PathPolicy::Windows => validate_windows_root(root),
        PathPolicy::Unix => validate_unix_root(root),
    }
}

// ---------------------------------------------------------------------------
// Whole configurations
// ---------------------------------------------------------------------------

/// Why a configuration is not accepted, if it is not: the first rule that
/// fails, in the order version, root, cache, scheduler, telemetry.
pub open spec fn config_refusal(config: ServiceConfig, policy: PathPolicy) -> Refusal {
    if config.format_version != CONFIG_FORMAT_VERSION {
        unsupported(
            "unsupported configuration format_version "@ + decimal_text(
                config.format_version as nat,
            ) + ": this build supports exactly version "@ + decimal_text(
                CONFIG_FORMAT_VERSION as nat,
            ),
        )
    } else if root_refusal(config.program_data_root@, policy) is Some {
        root_refusal(config.program_data_root@, policy)
    } else if cache_refusal(config.cache) is Some {
        cache_refusal(config.cache)
    } else if scheduler_refusal(config.scheduler, config.cache.page_size@) is Some {
        scheduler_refusal(config.scheduler, config.cache.page_size@)
    } else {
        telemetry_refusal(config.telemetry)
    }
}

/// Validates an entire configuration against the supplied path policy.
pub fn validate(config: &ServiceConfig, policy: PathPolicy) -> (verdict: Result<(), MirageError>)
    ensures
        answers(verdict, config_refusal(*config, policy)),
{
    if config.format_version != CONFIG_FORMAT_VERSION {
        let mut message: String = "unsupported configuration format_version ".to_owned();
        message.append(decimal(config.format_version as u64).as_str());
        message.append(": this build supports exactly version ");
        message.append(decimal(CONFIG_FORMAT_VERSION as u64).as_str());
        return Err(MirageError::unsupported_layout(message.as_str()));
    }
    validate_program_data_root(config.program_data_root.as_str(), policy)?;
    validate_cache(&config.cache)?;
    validate_scheduler(&config.scheduler, config.cache.page_size)?;
    validate_telemetry(&config.telemetry)
}

/// The default sections are accepted.
pub proof fn law_default_sections_are_valid(
    cache: CacheConfig,
    scheduler: SchedulerConfig,
    telemetry: TelemetryConfig,
)
    requires
        is_default_cache(cache),
        is_default_scheduler(scheduler),
        is_default_telemetry(telemetry),
    ensures
        cache_refusal(cache) is None,
        scheduler_refusal(scheduler, cache.page_size@) is None,
        telemetry_refusal(telemetry) is None,
{
    reveal_with_fuel(power_of_two, 22);
    assert(power_of_two(1048576));
}

/// An accepted cache section has a whole number of pages, addressable by 32-bit
/// slot indices, and at least one of them is left beside the reserves.
pub proof fn law_valid_cache_has_usable_slots(cache: CacheConfig)
    requires
        cache_refusal(cache) is None,
    ensures
        cache.page_size@ > 0,
        cache.budget@ % cache.page_size@ == 0,
        cache.arena_shard_size@ % cache.page_size@ == 0,
        1 <= cache.budget@ / cache.page_size@ <= u32::MAX,
        cache.update_reserve@ + cache.metadata_reserve@ + cache.page_size@ <= cache.budget@,
{
    let page = cache.page_size@ as int;
    let budget = cache.budget@ as int;
    assert(1 <= budget / page) by (nonlinear_arith)
        requires
            0 < page <= budget,
    ;
}

/// An accepted scheduler section keeps every read-ahead window within the
/// in-flight ceiling, in whole pages.
pub proof fn law_valid_scheduler_windows_fit(scheduler: SchedulerConfig, page: nat)
    requires
        scheduler_refusal(scheduler, page) is None,
    ensures
        page > 0,
        1 <= scheduler.max_concurrent_requests <= MAX_CONCURRENT_REQUESTS_MAX,
        scheduler.readahead_window_min@ % page == 0,
        scheduler.readahead_window_max@ % page == 0,
        0 < scheduler.readahead_window_min@ <= scheduler.readahead_window_max@
            <= scheduler.max_inflight_bytes@,
{
}

/// Two paths are the same but for which of the two separators stand in them.
pub open spec fn same_but_separators(left: Seq<char>, right: Seq<char>) -> bool {
    left.len() == right.len() && forall|i: int|
        0 <= i < left.len() ==> #[trigger] left[i] == right[i] || windows_separator(left[i])
            && windows_separator(right[i])
}

/// A run ends at the first separator, or with the text.
proof fn lemma_run(text: Seq<char>)
    ensures
        run_length(text, '\\', '/') <= text.len(),
        forall|i: int|
            0 <= i < run_length(text, '\\', '/') ==> !windows_separator(#[trigger] text[i]),
        run_length(text, '\\', '/') < text.len() ==> windows_separator(
            text[run_length(text, '\\', '/') as int],
        ),
    decreases text.len(),
{
    if text.len() > 0 && !windows_separator(text[0]) {
        lemma_run(text.skip(1));
        let rest = run_length(text.skip(1), '\\', '/') as int;
        assert forall|i: int| 0 <= i < rest + 1 implies !windows_separator(#[trigger] text[i]) by {
            if i > 0 {
                assert(text.skip(1)[i - 1] == text[i]);
            }
        }
        if rest + 1 < text.len() {
            assert(text.skip(1)[rest] == text[rest + 1]);
        }
    }
}

/// A run has the length at which the first separator stands.
proof fn lemma_run_is(text: Seq<char>, length: int)
    requires
        0 <= length <= text.len(),
        forall|i: int| 0 <= i < length ==> !windows_separator(#[trigger] text[i]),
        length < text.len() ==> windows_separator(text[length]),
    ensures
        run_length(text, '\\', '/') == length,
{
    lemma_run(text);
    let found = run_length(text, '\\', '/') as int;
    if found < length {
        assert(windows_separator(text[found]));
    } else if found > length {
        assert(!windows_separator(text[length]));
    }
}

proof fn lemma_same_pieces(left: Seq<char>, right: Seq<char>)
    requires
        same_but_separators(left, right),
    ensures
        pieces(left, '\\', '/') == pieces(right, '\\', '/'),
    decreases left.len(),
{
    lemma_run(left);
    let length = run_length(left, '\\', '/') as int;
    assert forall|i: int| 0 <= i < length implies !windows_separator(#[trigger] right[i]) by {
        assert(left[i] == right[i] || windows_separator(left[i]));
    }
    if length < left.len() {
        assert(left[length] == right[length] || windows_separator(right[length]));
    }
    lemma_run_is(right, length);
    assert(left.take(length) =~= right.take(length)) by {
        assert forall|i: int| 0 <= i < length implies left[i] == right[i] by {
            assert(!windows_separator(left[i]));
        }
    }
    if length >= left.len() {
        assert(left.take(length) == left);
        assert(right.take(length) == right);
    } else {
        let rest = left.skip(length + 1);
        let other = right.skip(length + 1);
        assert forall|i: int| 0 <= i < rest.len() implies #[trigger] rest[i] == other[i]
            || windows_separator(rest[i]) && windows_separator(other[i]) by {
            assert(left[i + length + 1] == rest[i]);
            assert(right[i + length + 1] == other[i]);
        }
        lemma_same_pieces(rest, other);
    }
}

/// The two separators of a Windows path mean the same: whichever is written, the
/// verdict on a root is the same.
pub proof fn law_separators_are_interchangeable(left: Seq<char>, right: Seq<char>)
    requires
        same_but_separators(left, right),
    ensures
        root_refusal(left, PathPolicy::Windows) == root_refusal(right, PathPolicy::Windows),
{
    if left.contains('\0') {
        let i = left.index_of('\0');
        assert(left[i] == right[i] || windows_separator(left[i]));
        assert(right[i] == '\0');
    }
    if right.contains('\0') {
        let i = right.index_of('\0');
        assert(left[i] == right[i] || windows_separator(right[i]));
        assert(left[i] == '\0');
    }
    if left.len() >= 3 {
        assert(left[0] == right[0] || windows_separator(left[0]) && windows_separator(right[0]));
        assert(left[1] == right[1] || windows_separator(left[1]) && windows_separator(right[1]));
        assert(left[2] == right[2] || windows_separator(left[2]) && windows_separator(right[2]));
        let rest = left.skip(3);
        let other = right.skip(3);
        assert forall|i: int| 0 <= i < rest.len() implies #[trigger] rest[i] == other[i]
            || windows_separator(rest[i]) && windows_separator(other[i]) by {
            assert(left[i + 3] == rest[i]);
            assert(right[i + 3] == other[i]);
        }
        lemma_same_pieces(rest, other);
    } else if left.len() == 2 {
        assert(left[0] == right[0] || windows_separator(left[0]) && windows_separator(right[0]));
        assert(left[1] == right[1] || windows_separator(left[1]) && windows_separator(right[1]));
    }
}

/// A text with a separator put in behind a place.
pub open spec fn with_separator(text: Seq<char>, at: int, separator: char) -> Seq<char> {
    text.take(at + 1) + seq![separator] + text.skip(at + 1)
}

proof fn lemma_pieces_behind_separator(separator: char, rest: Seq<char>)
    requires
        windows_separator(separator),
    ensures
        pieces(seq![separator] + rest, '\\', '/') == seq![Seq::<char>::empty()] + pieces(
            rest,
            '\\',
            '/',
        ),
{
    let text = seq![separator] + rest;
    lemma_run_is(text, 0);
    assert(text.take(0) == Seq::<char>::empty());
    assert(text.skip(1) == rest);
}

proof fn lemma_refusal_of_first(first: Seq<char>, parts: Seq<Seq<char>>, policy: PathPolicy)
    ensures
        first_component_refusal(seq![first] + parts, policy) == if component_refusal(
            first,
            policy,
        ) is Some {
            component_refusal(first, policy)
        } else {
            first_component_refusal(parts, policy)
        },
{
    assert((seq![first] + parts).skip(1) == parts);
    assert((seq![first] + parts)[0] == first);
}

proof fn lemma_more_separators(text: Seq<char>, at: int, separator: char)
    requires
        0 <= at < text.len(),
        windows_separator(text[at]),
        windows_separator(separator),
    ensures
        first_component_refusal(
            pieces(with_separator(text, at, separator), '\\', '/'),
            PathPolicy::Windows,
        ) == first_component_refusal(pieces(text, '\\', '/'), PathPolicy::Windows),
    decreases text.len(),
{
    let longer = with_separator(text, at, separator);
    lemma_run(text);
    let length = run_length(text, '\\', '/') as int;
    assert(length <= at);
    assert forall|i: int| 0 <= i < length implies !windows_separator(#[trigger] longer[i]) by {
        assert(longer[i] == text[i]);
    }
    assert(longer[length] == text[length]);
    lemma_run_is(longer, length);
    let first = text.take(length);
    let rest = text.skip(length + 1);
    let longer_rest = longer.skip(length + 1);
    assert(longer.take(length) =~= first);
    let parts = pieces(rest, '\\', '/');
    let longer_parts = pieces(longer_rest, '\\', '/');
    lemma_refusal_of_first(first, parts, PathPolicy::Windows);
    lemma_refusal_of_first(first, longer_parts, PathPolicy::Windows);
    lemma_refusal_of_first(Seq::empty(), parts, PathPolicy::Windows);
    if length == at {
        assert(longer_rest =~= seq![separator] + rest);
        lemma_pieces_behind_separator(separator, rest);
    } else {
        assert(rest[at - length - 1] == text[at]);
        assert(longer_rest =~= with_separator(rest, at - length - 1, separator));
        lemma_more_separators(rest, at - length - 1, separator);
    }
}

/// One more separator behind a separator that follows the drive changes nothing
/// of the verdict on a Windows root.
pub proof fn law_repeated_separators_change_nothing(root: Seq<char>, at: int, separator: char)
    requires
        2 <= at < root.len(),
        windows_separator(root[at]),
        windows_separator(separator),
    ensures
        root_refusal(with_separator(root, at, separator), PathPolicy::Windows) == root_refusal(
            root,
            PathPolicy::Windows,
        ),
{
    let longer = with_separator(root, at, separator);
    if root.contains('\0') {
        let i = root.index_of('\0');
        if i <= at {
            assert(longer[i] == '\0');
        } else {
            assert(longer[i + 1] == '\0');
        }
    }
    if longer.contains('\0') {
        let i = longer.index_of('\0');
        if i <= at {
            assert(root[i] == '\0');
        } else {
            assert(i != at + 1);
            assert(root[i - 1] == '\0');
        }
    }
    assert(longer[0] == root[0] && longer[1] == root[1] && longer[2] == root[2]);
    let rest = root.skip(3);
    if at == 2 {
        assert(longer.skip(3) =~= seq![separator] + rest);
        lemma_pieces_behind_separator(separator, rest);
        lemma_refusal_of_first(Seq::empty(), pieces(rest, '\\', '/'), PathPolicy::Windows);
    } else {
        assert(rest[at - 3] == root[at]);
        assert(longer.skip(3) =~= with_separator(rest, at - 3, separator));
        lemma_more_separators(rest, at - 3, separator);
    }
}

proof fn lemma_no_component_refused(components: Seq<Seq<char>>, policy: PathPolicy, at: int)
    requires
        first_component_refusal(components, policy) is None,
        0 <= at < components.len(),
    ensures
        component_refusal(components[at], policy) is None,
    decreases components.len(),
{
    if at > 0 {
        lemma_no_component_refused(components.skip(1), policy, at - 1);
    }
}

/// An accepted root is absolute and has no `.` or `..` component, so it cannot
/// escape its declared location.
pub proof fn law_valid_root_is_absolute_and_direct(root: Seq<char>, policy: PathPolicy)
    requires
        root_refusal(root, policy) is None,
    ensures
        policy == PathPolicy::Windows ==> has_drive_root(root),
        policy == PathPolicy::Unix ==> root[0] == '/',
        forall|i: int|
            0 <= i < components_of(root, policy).len() ==> #[trigger] components_of(
                root,
                policy,
            )[i] != "."@ && components_of(root, policy)[i] != ".."@,
{
    reveal_strlit(".");
    reveal_strlit("..");
    assert forall|i: int| 0 <= i < components_of(root, policy).len() implies #[trigger] components_of(
        root,
        policy,
    )[i] != "."@ && components_of(root, policy)[i] != ".."@ by {
        lemma_no_component_refused(components_of(root, policy), policy, i);
    }
}

/// The messages about a root directory: none of them depends on the path.
pub open spec fn is_root_message(message: Seq<char>) -> bool {
    ||| message == "program_data_root must not be empty"@
    ||| message == "program_data_root must not contain a NUL byte"@
    ||| message == "program_data_root must not be a UNC share or a device-namespace path"@
    ||| message
        == "program_data_root must be an absolute drive-letter path, for example C:\\ProgramData\\MirageSSD"@
    ||| message == "program_data_root must be an absolute path beginning with '/'"@
    ||| message == "program_data_root must not contain a relative '.' or '..' component"@
    ||| message == "program_data_root components must not end with a space or a period"@
    ||| message
        == "program_data_root contains a character that is not permitted in a Windows path component (< > : \" | ? * or a control character)"@
}

proof fn lemma_component_messages(components: Seq<Seq<char>>, policy: PathPolicy)
    ensures
        first_component_refusal(components, policy) matches Some((kind, message)) ==> kind
            == MirageErrorKind::InvalidArgument && is_root_message(message),
    decreases components.len(),
{
    if components.len() > 0 && component_refusal(components[0], policy) is None {
        lemma_component_messages(components.skip(1), policy);
    }
}

/// A refused root is refused with one of a fixed list of messages, so no part
/// of the path can reach a log.
pub proof fn law_root_messages_never_echo_the_path(root: Seq<char>, policy: PathPolicy)
    ensures
        root_refusal(root, policy) matches Some((kind, message)) ==> kind
            == MirageErrorKind::InvalidArgument && is_root_message(message),
{
    lemma_component_messages(components_of(root, policy), policy);
}

} // verus!
