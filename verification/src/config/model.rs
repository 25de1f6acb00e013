//! Versioned, secret-free configuration model for the MirageSSD service.
//!
//! No field in this model holds a token, refresh token, OAuth client secret,
//! password, or authorization URL.

use vstd::prelude::*;
use crate::text::{decimal, decimal_text};

verus! {

/// Configuration format version understood by this build.
pub const CONFIG_FORMAT_VERSION: u32 = 1;

/// A number of bytes.
#[derive(Debug, Clone, Copy, PartialEq, Eq, Structural)]
pub struct ByteCount {
    bytes: u64,
}

impl View for ByteCount {
    type V = nat;

    closed spec fn view(&self) -> nat {
        self.bytes as nat
    }
}

impl ByteCount {
    pub fn from_u64(bytes: u64) -> (count: ByteCount)
        ensures
            count@ == bytes,
    {
        ByteCount { bytes }
    }

    pub fn zero() -> (count: ByteCount)
        ensures
            count@ == 0,
    {
        ByteCount { bytes: 0 }
    }

    pub fn as_u64(&self) -> (bytes: u64)
        ensures
            bytes == self@,
    {
        self.bytes
    }

    pub fn checked_add(&self, other: ByteCount) -> (sum: Option<ByteCount>)
        ensures
            match sum {
                Some(sum) => sum@ == self@ + other@,
                None => self@ + other@ > u64::MAX,
            },
    {
        match self.bytes.checked_add(other.bytes) {
            Some(bytes) => Some(ByteCount { bytes }),
            None => None,
        }
    }

    pub fn checked_sub(&self, other: ByteCount) -> (difference: Option<ByteCount>)
        ensures
            match difference {
                Some(difference) => difference@ == self@ - other@,
                None => self@ < other@,
            },
    {
        if self.bytes < other.bytes {
            None
        } else {
            Some(ByteCount { bytes: self.bytes - other.bytes })
        }
    }
}

/// Sparse fixed-slot SSD cache arena configuration.
///
/// Every byte counted here is inside the hard physical cache envelope:
/// committed, reserved, dirty, staged, journal, spill, and allocation-rounding
/// bytes all draw from `budget`.
#[derive(Debug, Clone, Copy, PartialEq, Eq, Structural)]
pub struct CacheConfig {
    /// Integrity, residency, and eviction unit. Must be a power of two.
    pub page_size: ByteCount,
    /// Hard physical cache envelope across all arena shards and metadata.
    pub budget: ByteCount,
    /// Portion of `budget` withheld for update staging and journals.
    pub update_reserve: ByteCount,
    /// Portion of `budget` withheld for the metadata database and indexes.
    pub metadata_reserve: ByteCount,
    /// Logical size of one sparse arena shard file.
    pub arena_shard_size: ByteCount,
}

/// Request coordinator and network scheduler configuration.
#[derive(Debug, Clone, Copy, PartialEq, Eq, Structural)]
pub struct SchedulerConfig {
    /// Upper bound on simultaneously outstanding backend requests.
    pub max_concurrent_requests: u32,
    /// Upper bound on bytes outstanding across all in-flight requests.
    pub max_inflight_bytes: ByteCount,
    /// Smallest sequential read-ahead fetch window.
    pub readahead_window_min: ByteCount,
    /// Largest sequential read-ahead fetch window.
    pub readahead_window_max: ByteCount,
}

/// Observability and log retention configuration.
#[derive(Debug, Clone, Copy, PartialEq, Eq, Structural)]
pub struct TelemetryConfig {
    /// Days that local diagnostic logs are retained.
    pub log_retention_days: u32,
    /// Upper bound on total retained log bytes.
    pub max_log_bytes: ByteCount,
    /// Whether the filesystem first-touch log is captured during play.
    pub first_touch_logging: bool,
}

/// Top-level MirageSSD service configuration.
#[derive(PartialEq, Eq)]
pub struct ServiceConfig {
    /// Declared configuration format version.
    pub format_version: u32,
    /// Root directory owning the arena, metadata database, journals, and logs.
    pub program_data_root: String,
    pub cache: CacheConfig,
    pub scheduler: SchedulerConfig,
    pub telemetry: TelemetryConfig,
}

/// Default page size: 1 MiB.
pub fn default_page_size() -> (count: ByteCount)
    ensures
        count@ == 1048576,
{
    ByteCount::from_u64(1048576)
}

/// Default hard cache envelope: 32 GiB.
pub fn default_budget() -> (count: ByteCount)
    ensures
        count@ == 34359738368,
{
    ByteCount::from_u64(34359738368)
}

/// Default update staging reserve: 2 GiB.
pub fn default_update_reserve() -> (count: ByteCount)
    ensures
        count@ == 2147483648,
{
    ByteCount::from_u64(2147483648)
}

/// Default metadata reserve: 512 MiB.
pub fn default_metadata_reserve() -> (count: ByteCount)
    ensures
        count@ == 536870912,
{
    ByteCount::from_u64(536870912)
}

/// Default arena shard size: 8 GiB.
pub fn default_arena_shard_size() -> (count: ByteCount)
    ensures
        count@ == 8589934592,
{
    ByteCount::from_u64(8589934592)
}

/// Default concurrent backend request limit.
pub fn default_max_concurrent_requests() -> (limit: u32)
    ensures
        limit == 16,
{
    16
}

/// Default in-flight byte ceiling: 64 MiB.
pub fn default_max_inflight_bytes() -> (count: ByteCount)
    ensures
        count@ == 67108864,
{
    ByteCount::from_u64(67108864)
}

/// Default minimum sequential read-ahead window: 2 MiB.
pub fn default_readahead_window_min() -> (count: ByteCount)
    ensures
        count@ == 2097152,
{
    ByteCount::from_u64(2097152)
}

/// Default maximum sequential read-ahead window: 16 MiB.
pub fn default_readahead_window_max() -> (count: ByteCount)
    ensures
        count@ == 16777216,
{
    ByteCount::from_u64(16777216)
}

/// Default log retention: 14 days.
pub fn default_log_retention_days() -> (days: u32)
    ensures
        days == 14,
{
    14
}

/// Default retained log ceiling: 256 MiB.
pub fn default_max_log_bytes() -> (count: ByteCount)
    ensures
        count@ == 268435456,
{
    ByteCount::from_u64(268435456)
}

/// Default first-touch logging state: enabled.
pub fn default_first_touch_logging() -> (enabled: bool)
    ensures
        enabled,
{
    true
}

/// The cache section holds the default of every field.
pub open spec fn is_default_cache(cache: CacheConfig) -> bool {
    &&& cache.page_size@ == 1048576
    &&& cache.budget@ == 34359738368
    &&& cache.update_reserve@ == 2147483648
    &&& cache.metadata_reserve@ == 536870912
    &&& cache.arena_shard_size@ == 8589934592
}

/// The scheduler section holds the default of every field.
pub open spec fn is_default_scheduler(scheduler: SchedulerConfig) -> bool {
    &&& scheduler.max_concurrent_requests == 16
    &&& scheduler.max_inflight_bytes@ == 67108864
    &&& scheduler.readahead_window_min@ == 2097152
    &&& scheduler.readahead_window_max@ == 16777216
}

/// The telemetry section holds the default of every field.
pub open spec fn is_default_telemetry(telemetry: TelemetryConfig) -> bool {
    &&& telemetry.log_retention_days == 14
    &&& telemetry.max_log_bytes@ == 268435456
    &&& telemetry.first_touch_logging
}

impl Default for CacheConfig {
    fn default() -> (cache: CacheConfig)
        ensures
            is_default_cache(cache),
    {
        CacheConfig {
            page_size: default_page_size(),
            budget: default_budget(),
            update_reserve: default_update_reserve(),
            metadata_reserve: default_metadata_reserve(),
            arena_shard_size: default_arena_shard_size(),
        }
    }
}

impl Default for SchedulerConfig {
    fn default() -> (scheduler: SchedulerConfig)
        ensures
            is_default_scheduler(scheduler),
    {
        SchedulerConfig {
            max_concurrent_requests: default_max_concurrent_requests(),
            max_inflight_bytes: default_max_inflight_bytes(),
            readahead_window_min: default_readahead_window_min(),
            readahead_window_max: default_readahead_window_max(),
        }
    }
}

impl Default for TelemetryConfig {
    fn default() -> (telemetry: TelemetryConfig)
        ensures
            is_default_telemetry(telemetry),
    {
        TelemetryConfig {
            log_retention_days: default_log_retention_days(),
            max_log_bytes: default_max_log_bytes(),
            first_touch_logging: default_first_touch_logging(),
        }
    }
}

/// How a root directory appears in diagnostics: its length in bytes, nothing
/// of its contents.
pub open spec fn redacted_text(length: nat) -> Seq<char> {
    "<redacted path: "@ + decimal_text(length) + " bytes>"@
}

impl Clone for ServiceConfig {
    fn clone(&self) -> (copy: ServiceConfig)
        ensures
            copy == *self,
    {
        self.duplicate()
    }
}

impl ServiceConfig {
    /// Builds a configuration with the current format version, the supplied
    /// `program_data_root`, and safe defaults for every other section.
    pub fn with_root(program_data_root: String) -> (config: ServiceConfig)
        ensures
            config.format_version == CONFIG_FORMAT_VERSION,
            config.program_data_root == program_data_root,
            is_default_cache(config.cache),
            is_default_scheduler(config.scheduler),
            is_default_telemetry(config.telemetry),
    {
        ServiceConfig {
            format_version: CONFIG_FORMAT_VERSION,
            program_data_root,
            cache: CacheConfig::default(),
            scheduler: SchedulerConfig::default(),
            telemetry: TelemetryConfig::default(),
        }
    }

    pub fn program_data_root(&self) -> (root: &str)
        ensures
            root@ == self.program_data_root@,
    {
        self.program_data_root.as_str()
    }

    /// The same configuration again.
    pub fn duplicate(&self) -> (copy: ServiceConfig)
        ensures
            copy == *self,
    {
        ServiceConfig {
            format_version: self.format_version,
            program_data_root: self.program_data_root.clone(),
            cache: self.cache,
            scheduler: self.scheduler,
            telemetry: self.telemetry,
        }
    }

    /// The root directory as diagnostics show it. Two roots of the same length
    /// look the same.
    pub fn redacted_root(&self) -> (shown: String)
        ensures
            shown@ == redacted_text(
                vstd::utf8::encode_utf8(self.program_data_root@).len(),
            ),
    {
        let length: usize = self.program_data_root.as_str().as_bytes().len();
        let mut shown: String = "<redacted path: ".to_owned();
        shown.append(decimal(length as u64).as_str());
        shown.append(" bytes>");
        shown
    }

    /// The configuration as diagnostics show it: every section, but of the root
    /// directory its length only.
    pub fn rendered(&self) -> (shown: String)
        ensures
            shown@ == config_text(*self),
    {
        let mut shown: String = "ServiceConfig { format_version: ".to_owned();
        shown.append(decimal(self.format_version as u64).as_str());
        shown.append(", program_data_root: ");
        shown.append(self.redacted_root().as_str());
        shown.append(", cache: ");
        shown.append(render_cache(&self.cache).as_str());
        shown.append(", scheduler: ");
        shown.append(render_scheduler(&self.scheduler).as_str());
        shown.append(", telemetry: ");
        shown.append(render_telemetry(&self.telemetry).as_str());
        shown.append(" }");
        shown
    }
}

/// A byte count as diagnostics show it.
pub open spec fn count_text(count: ByteCount) -> Seq<char> {
    "ByteCount("@ + decimal_text(count@) + ")"@
}

/// The cache section as diagnostics show it.
pub open spec fn cache_text(cache: CacheConfig) -> Seq<char> {
    "CacheConfig { page_size: "@ + count_text(cache.page_size) + ", budget: "@ + count_text(
        cache.budget,
    ) + ", update_reserve: "@ + count_text(cache.update_reserve) + ", metadata_reserve: "@
        + count_text(cache.metadata_reserve) + ", arena_shard_size: "@ + count_text(
        cache.arena_shard_size,
    ) + " }"@
}

/// The scheduler section as diagnostics show it.
pub open spec fn scheduler_text(scheduler: SchedulerConfig) -> Seq<char> {
    "SchedulerConfig { max_concurrent_requests: "@ + decimal_text(
        scheduler.max_concurrent_requests as nat,
    ) + ", max_inflight_bytes: "@ + count_text(scheduler.max_inflight_bytes)
        + ", readahead_window_min: "@ + count_text(scheduler.readahead_window_min)
        + ", readahead_window_max: "@ + count_text(scheduler.readahead_window_max) + " }"@
}

/// The telemetry section as diagnostics show it.
pub open spec fn telemetry_text(telemetry: TelemetryConfig) -> Seq<char> {
    "TelemetryConfig { log_retention_days: "@ + decimal_text(
        telemetry.log_retention_days as nat,
    ) + ", max_log_bytes: "@ + count_text(telemetry.max_log_bytes) + ", first_touch_logging: "@
        + (if telemetry.first_touch_logging {
        "true"@
    } else {
        "false"@
    }) + " }"@
}

/// A configuration as diagnostics show it.
pub open spec fn config_text(config: ServiceConfig) -> Seq<char> {
    "ServiceConfig { format_version: "@ + decimal_text(config.format_version as nat)
        + ", program_data_root: "@ + redacted_text(
        vstd::utf8::encode_utf8(config.program_data_root@).len(),
    ) + ", cache: "@ + cache_text(config.cache) + ", scheduler: "@ + scheduler_text(
        config.scheduler,
    ) + ", telemetry: "@ + telemetry_text(config.telemetry) + " }"@
}

fn push_count(shown: &mut String, label: &str, count: ByteCount)
    ensures
        final(shown)@ == old(shown)@ + label@ + count_text(count),
{
    let ghost before = shown@;
    shown.append(label);
    shown.append("ByteCount(");
    shown.append(decimal(count.as_u64()).as_str());
    shown.append(")");
    assert(shown@ == before + label@ + count_text(count));
}

fn render_cache(cache: &CacheConfig) -> (shown: String)
    ensures
        shown@ == cache_text(*cache),
{
    let mut shown: String = String::new();
    push_count(&mut shown, "CacheConfig { page_size: ", cache.page_size);
    push_count(&mut shown, ", budget: ", cache.budget);
    push_count(&mut shown, ", update_reserve: ", cache.update_reserve);
    push_count(&mut shown, ", metadata_reserve: ", cache.metadata_reserve);
    push_count(&mut shown, ", arena_shard_size: ", cache.arena_shard_size);
    shown.append(" }");
    assert(shown@ == cache_text(*cache));
    shown
}

fn render_scheduler(scheduler: &SchedulerConfig) -> (shown: String)
    ensures
        shown@ == scheduler_text(*scheduler),
{
    let mut shown: String = "SchedulerConfig { max_concurrent_requests: ".to_owned();
    shown.append(decimal(scheduler.max_concurrent_requests as u64).as_str());
    push_count(&mut shown, ", max_inflight_bytes: ", scheduler.max_inflight_bytes);
    push_count(&mut shown, ", readahead_window_min: ", scheduler.readahead_window_min);
    push_count(&mut shown, ", readahead_window_max: ", scheduler.readahead_window_max);
    shown.append(" }");
    shown
}

fn render_telemetry(telemetry: &TelemetryConfig) -> (shown: String)
    ensures
        shown@ == telemetry_text(*telemetry),
{
    let mut shown: String = "TelemetryConfig { log_retention_days: ".to_owned();
    shown.append(decimal(telemetry.log_retention_days as u64).as_str());
    push_count(&mut shown, ", max_log_bytes: ", telemetry.max_log_bytes);
    shown.append(", first_touch_logging: ");
    shown.append(
        if telemetry.first_touch_logging {
            "true"
        } else {
            "false"
        },
    );
    shown.append(" }");
    shown
}

/// Diagnostics never tell two root directories of the same length apart.
pub proof fn law_rendering_hides_the_root(one: ServiceConfig, other: ServiceConfig)
    requires
        one.format_version == other.format_version,
        one.cache == other.cache,
        one.scheduler == other.scheduler,
        one.telemetry == other.telemetry,
        vstd::utf8::encode_utf8(one.program_data_root@).len() == vstd::utf8::encode_utf8(
            other.program_data_root@,
        ).len(),
    ensures
        config_text(one) == config_text(other),
{
}

} // verus!
