//! Cache simulation: network models, trace checks and parameter sweeps.

use vstd::prelude::*;
use crate::cli::host::HostPath;
use crate::error::{answers, invalid, MirageError, Refusal};

verus! {

pub const MAX_SESSION_EVENTS: usize = 10000000;

/// What a sweep is asked for.
pub struct SweepArgs<'a> {
    pub trace: &'a HostPath,
    pub index: &'a HostPath,
    pub page_bytes: &'a Vec<u64>,
    pub cache_pages: &'a Vec<usize>,
    pub latency_ms: &'a Vec<u64>,
    pub bandwidth_bytes_per_second: u64,
    pub blocking_weight: u64,
    pub remote_weight: u64,
    pub cache_weight: u64,
    pub markdown: &'a HostPath,
    pub json: bool,
}

/// A network without jitter that serves one request at a time and never fails.
#[derive(Debug, Clone, Copy, PartialEq, Eq, Structural)]
pub struct NetworkModel {
    pub base_latency_ns: u64,
    pub jitter_ns: u64,
    pub jitter_seed: u64,
    pub bandwidth_bytes_per_second: u64,
    pub max_concurrency: u32,
}

/// Why a latency is refused, if it is.
pub open spec fn latency_refusal(latency_ms: u64) -> Refusal {
    if latency_ms * 1000000 <= u64::MAX {
        None
    } else {
        invalid("latency overflows nanoseconds"@)
    }
}

/// The network of a latency.
pub open spec fn network_of(latency_ms: u64, bandwidth: u64, seed: u64) -> NetworkModel {
    NetworkModel {
        base_latency_ns: (latency_ms * 1000000) as u64,
        jitter_ns: 0,
        jitter_seed: seed,
        bandwidth_bytes_per_second: bandwidth,
        max_concurrency: 1,
    }
}

/// The network of a latency in milliseconds.
pub fn network(latency_ms: u64, bandwidth: u64, seed: u64) -> (model: Result<
    NetworkModel,
    MirageError,
>)
    ensures
        answers(model, latency_refusal(latency_ms)),
        model matches Ok(model) ==> model == network_of(latency_ms, bandwidth, seed),
{
    match latency_ms.checked_mul(1000000) {
        Some(nanoseconds) => Ok(
            NetworkModel {
                base_latency_ns: nanoseconds,
                jitter_ns: 0,
                jitter_seed: seed,
                bandwidth_bytes_per_second: bandwidth,
                max_concurrency: 1,
            },
        ),
        None => Err(MirageError::invalid_argument("latency overflows nanoseconds")),
    }
}

/// Why the latencies of a sweep are refused, if they are.
pub open spec fn latencies_refusal(latencies: Seq<u64>) -> Refusal {
    if forall|i: int| 0 <= i < latencies.len() ==> latency_refusal(#[trigger] latencies[i]) is None {
        None
    } else {
        invalid("latency overflows nanoseconds"@)
    }
}

/// The networks of a sweep: one for each latency, told apart by its seed.
pub fn sweep_networks(latencies: &Vec<u64>, bandwidth: u64) -> (networks: Result<
    Vec<NetworkModel>,
    MirageError,
>)
    ensures
        answers(networks, latencies_refusal(latencies@)),
        networks matches Ok(networks) ==> {
            &&& networks@.len() == latencies@.len()
            &&& forall|i: int|
                0 <= i < latencies@.len() ==> #[trigger] networks@[i] == network_of(
                    latencies@[i],
                    bandwidth,
                    i as u64,
                )
        },
{
    let mut networks: Vec<NetworkModel> = Vec::new();
    let mut at: usize = 0;
    while at < latencies.len()
        invariant
            at <= latencies@.len(),
            networks@.len() == at,
            forall|i: int| 0 <= i < at ==> latency_refusal(#[trigger] latencies@[i]) is None,
            forall|i: int|
                0 <= i < at ==> #[trigger] networks@[i] == network_of(
                    latencies@[i],
                    bandwidth,
                    i as u64,
                ),
        decreases latencies@.len() - at,
    {
        match network(latencies[at], bandwidth, at as u64) {
            Ok(model) => {
                networks.push(model);
            },
            Err(error) => {
                assert(latency_refusal(latencies@[at as int]) is Some);
                return Err(error);
            },
        }
        at = at + 1;
    }
    Ok(networks)
}

/// Refuses a trace and an index with different page sizes.
pub fn check_page_size(trace_page_size: u32, index_page_size: u64) -> (verdict: Result<
    (),
    MirageError,
>)
    ensures
        answers(
            verdict,
            if trace_page_size == index_page_size {
                None
            } else {
                invalid("trace and index page sizes differ"@)
            },
        ),
{
    if trace_page_size as u64 != index_page_size {
        return Err(MirageError::invalid_argument("trace and index page sizes differ"));
    }
    Ok(())
}

/// Refuses a block of events that does not fit into what a session may hold.
pub fn admit_block(events: usize, block: usize) -> (verdict: Result<(), MirageError>)
    ensures
        answers(
            verdict,
            if events + block <= MAX_SESSION_EVENTS {
                None
            } else {
                invalid("trace exceeds session event bound"@)
            },
        ),
{
    if events > MAX_SESSION_EVENTS || block > MAX_SESSION_EVENTS - events {
        return Err(MirageError::invalid_argument("trace exceeds session event bound"));
    }
    Ok(())
}

/// What the normalisation of a trace found wrong.
#[derive(Debug, Clone, Copy)]
pub struct TraceQuality {
    pub non_monotonic_timestamps: u64,
    pub unknown_files: u64,
    pub invalid_ranges: u64,
}

/// Refuses a trace in which anything was found wrong.
pub fn check_quality(quality: &TraceQuality) -> (verdict: Result<(), MirageError>)
    ensures
        answers(
            verdict,
            if quality.non_monotonic_timestamps == 0 && quality.unknown_files == 0
                && quality.invalid_ranges == 0 {
                None
            } else {
                invalid("trace contains impossible timestamps, files, or ranges"@)
            },
        ),
{
    if quality.non_monotonic_timestamps != 0 || quality.unknown_files != 0
        || quality.invalid_ranges != 0 {
        return Err(
            MirageError::invalid_argument("trace contains impossible timestamps, files, or ranges"),
        );
    }
    Ok(())
}

/// Refuses a sweep whose page sizes leave out that of the trace.
pub fn check_sweep(page_bytes: &Vec<u64>, trace_page_bytes: u64) -> (verdict: Result<
    (),
    MirageError,
>)
    ensures
        answers(
            verdict,
            if page_bytes@.contains(trace_page_bytes) {
                None
            } else {
                invalid("page-byte sweep must include the trace/index page size"@)
            },
        ),
{
    let mut at: usize = 0;
    while at < page_bytes.len()
        invariant
            at <= page_bytes@.len(),
            forall|i: int| 0 <= i < at ==> page_bytes@[i] != trace_page_bytes,
        decreases page_bytes@.len() - at,
    {
        if page_bytes[at] == trace_page_bytes {
            return Ok(());
        }
        at = at + 1;
    }
    Err(MirageError::invalid_argument("page-byte sweep must include the trace/index page size"))
}

} // verus!
