//! The corpus of a Drive gate run, its random reads and what it reports.

use vstd::prelude::*;
use crate::cli::drive_gate::{
    after_eviction, backing, cache_cap, cached_bytes, check_work_directory, choose_pack, combined,
    differing, evidence, gate_page, gate_slice, incorrect_bytes, initial_state,
    law_no_difference_means_equal, law_segments_cover_the_read, place_of, read_segments,
    repository_id, segment_bytes, update_id, verify_pack, with_page, CachedPageView,
    DriveGateEvidence, GateEvent, GateRun, GateStage, PackChoice, PageCache, ProviderTotals,
    RandomRead, ReadSegment,
};
use crate::cli::gate_reads::{
    base_pages, entry_place, plan_load, update_pages, GateLocation, GatePage, MappedPage, PackEntry,
    PageLoad,
};
use crate::crypto::primitives::blake3_digest;
use crate::error::{MirageError, MirageErrorKind};
use crate::ids::RepositoryId;

verus! {

/// A part of a page is what stands at that place of the whole page.
pub proof fn law_parts_are_of_their_page(
    domain: &str,
    index: u32,
    offset: usize,
    length: usize,
    page: Vec<u8>,
    part: Vec<u8>,
    at: int,
)
    requires
        call_ensures(gate_page, (domain, index), page),
        call_ensures(gate_slice, (domain, index, offset, length), part),
        offset + length <= 1024 * 1024,
    ensures
        page@.len() == 1024 * 1024,
        part@.len() == length,
        0 <= at < length ==> part@[at] == page@[offset + at],
{
}

/// The corpus repeats 64 pages. An update replaces the first quarter of it, by 16 pages in turn,
/// and leaves the rest.
pub proof fn law_corpus_repeats_its_pages(
    ordinal: u32,
    base: (&'static str, u32),
    updated: (&'static str, u32),
    other: u32,
    again: (&'static str, u32),
)
    requires
        call_ensures(backing, (false, ordinal), base),
        call_ensures(backing, (true, ordinal), updated),
        call_ensures(backing, (false, other), again),
    ensures
        base.0@ == "base"@ && base.1 < 64,
        ordinal < 64 ==> base.1 == ordinal,
        other == ordinal + 64 ==> again.1 == base.1,
        ordinal < 25600 ==> updated.0@ == "update"@ && updated.1 < 16,
        ordinal < 16 ==> updated.1 == ordinal,
        ordinal >= 25600 ==> updated.0@ == base.0@ && updated.1 == base.1,
{
}

/// The identities of a repository and of its update come of a digest of what they belong to.
pub proof fn law_gate_identities_come_of_a_digest(
    account: &str,
    id: RepositoryId,
    repository: RepositoryId,
    update: [u8; 16],
)
    requires
        call_ensures(repository_id, (account,), id),
        call_ensures(update_id, (repository,), update),
    ensures
        exists|label: Seq<u8>|
            id@ == #[trigger] blake3_digest(
                label + vstd::utf8::encode_utf8(account@),
            ).subrange(0, 16),
        exists|label: Seq<u8>|
            update@ == #[trigger] blake3_digest(label + repository@).subrange(0, 16),
{
}

/// The reads before and after an update do not start alike.
pub proof fn law_generations_are_read_apart(before: u64, after: u64)
    requires
        call_ensures(initial_state, (false,), before),
        call_ensures(initial_state, (true,), after),
    ensures
        before != after,
{
}

/// The segments of a read cover it, one behind the other, each within its page.
pub proof fn law_segments_cover_their_read(read: RandomRead, segments: Vec<ReadSegment>, at: int)
    requires
        read.start + read.length <= 100 * 1024 * 1024 * 1024,
        call_ensures(read_segments, (read,), segments),
    ensures
        segment_bytes(segments@) == read.length,
        segments@.len() > 0 ==> segments@[0].page * 1048576 + segments@[0].in_page == read.start,
        0 <= at < segments@.len() ==> segments@[at].in_page + segments@[at].take <= 1048576
            && segments@[at].take > 0,
        0 < at < segments@.len() ==> segments@[at].page * 1048576 + segments@[at].in_page
            == segments@[at - 1].page * 1048576 + segments@[at - 1].in_page + segments@[at
            - 1].take,
{
    let start = read.start as int;
    law_segments_cover_the_read(start, start + read.length);
    let all = segments@;
    assert(all.take(0) =~= Seq::<ReadSegment>::empty());
    if 0 < at < all.len() {
        lemma_segment_bytes_push(all.take(at - 1), all[at - 1]);
        assert(all.take(at - 1).push(all[at - 1]) =~= all.take(at));
        assert(all[at - 1].take > 0);
    }
}

proof fn lemma_segment_bytes_push(segments: Seq<ReadSegment>, next: ReadSegment)
    ensures
        segment_bytes(segments.push(next)) == segment_bytes(segments) + next.take,
    decreases segments.len(),
{
    if segments.len() > 0 {
        lemma_segment_bytes_push(segments.skip(1), next);
        assert(segments.push(next).skip(1) =~= segments.skip(1).push(next));
    } else {
        reveal_with_fuel(segment_bytes, 2);
        assert(segments.push(next).skip(1) =~= Seq::<ReadSegment>::empty());
    }
}

/// Nothing is counted as wrong exactly if what was read is what stands in the corpus.
pub proof fn law_right_bytes_are_not_counted(
    page: &[u8],
    segment: ReadSegment,
    updated: bool,
    count: u64,
    backed: (&'static str, u32),
    right: Vec<u8>,
)
    requires
        segment.in_page + segment.take <= page@.len(),
        segment.in_page + segment.take <= usize::MAX,
        call_ensures(incorrect_bytes, (page, segment, updated), count),
        call_ensures(backing, (updated, segment.page), backed),
        call_ensures(
            gate_slice,
            (backed.0, backed.1, segment.in_page as usize, segment.take as usize),
            right,
        ),
    ensures
        count == 0 <==> page@.subrange(segment.in_page as int, segment.in_page + segment.take)
            == right@,
{
    law_no_difference_means_equal(
        page@.subrange(segment.in_page as int, segment.in_page + segment.take),
        right@,
    );
}

/// No more bytes are counted as wrong than there are.
pub proof fn law_counts_stay_within(left: Seq<u8>, right: Seq<u8>)
    requires
        left.len() == right.len(),
    ensures
        differing(left, right) <= left.len(),
        differing(left, right) == differing(right, left),
    decreases left.len(),
{
    if left.len() > 0 {
        law_counts_stay_within(left.drop_last(), right.drop_last());
    }
}

/// Making room takes away the oldest pages only, and leaves no more than fits.
pub proof fn law_oldest_pages_leave(pages: Seq<CachedPageView>, room: int)
    ensures
        after_eviction(pages, room).len() <= pages.len(),
        after_eviction(pages, room) == pages.skip(pages.len() - after_eviction(pages, room).len()),
        after_eviction(pages, room).len() == 0 || cached_bytes(after_eviction(pages, room)) <= room,
        cached_bytes(pages) <= room ==> after_eviction(pages, room) == pages,
    decreases pages.len(),
{
    if pages.len() > 0 && cached_bytes(pages) > room {
        let rest = pages.skip(1);
        law_oldest_pages_leave(rest, room);
        let left = after_eviction(rest, room);
        assert(rest.skip(rest.len() - left.len()) =~= pages.skip(pages.len() - left.len()));
    } else {
        assert(pages.skip(0) =~= pages);
    }
}

/// A lookup finds the page of its hash, and nothing exactly if there is none.
pub proof fn law_lookup_finds_the_page(
    cache: &PageCache,
    hash: &[u8; 32],
    found: Option<Vec<u8>>,
    at: int,
)
    requires
        call_ensures(PageCache::get, (cache, hash), found),
    ensures
        found is Some ==> exists|i: int|
            0 <= i < cache.pages().len() && (#[trigger] cache.pages()[i]).hash == hash@
                && cache.pages()[i].bytes == found->Some_0@,
        found is None && 0 <= at < cache.pages().len() ==> cache.pages()[at].hash != hash@,
{
    lemma_place_of(cache.pages(), hash@, at);
}

proof fn lemma_place_of(pages: Seq<CachedPageView>, hash: Seq<u8>, at: int)
    ensures
        place_of(pages, hash) <= pages.len(),
        place_of(pages, hash) < pages.len() ==> pages[place_of(pages, hash) as int].hash == hash,
        0 <= at < place_of(pages, hash) ==> pages[at].hash != hash,
    decreases pages.len(),
{
    if pages.len() > 0 && pages[0].hash != hash {
        let rest = pages.skip(1);
        lemma_place_of(rest, hash, at - 1);
        let place = place_of(rest, hash) as int;
        if place < rest.len() {
            assert(rest[place] == pages[place + 1]);
        }
        if 0 < at < place_of(pages, hash) {
            assert(rest[at - 1] == pages[at]);
        }
    }
}

/// To put a page in leaves every other page where it is.
pub proof fn law_other_pages_stay(pages: Seq<CachedPageView>, page: CachedPageView, at: int)
    requires
        0 <= at < pages.len(),
        pages[at].hash != page.hash,
    ensures
        with_page(pages, page)[at] == pages[at],
        with_page(pages, page).len() <= pages.len() + 1,
{
    lemma_place_of(pages, page.hash, at);
}

/// A run takes over what is reported to it, each report in its own place.
pub proof fn law_reports_are_taken_over(
    run: GateRun,
    event: GateEvent,
    next: Result<GateRun, MirageError>,
)
    requires
        call_ensures(GateRun::advance, (run, event), next),
        next is Ok,
    ensures
        run.stage != GateStage::Passed,
        next->Ok_0.stage != run.stage,
        run.stage == GateStage::Connect ==> event is Connected && next->Ok_0.account_id@
            == event->account_id@,
        run.stage == GateStage::Connect ==> (next->Ok_0.quota_available is Some
            <==> event->quota_limit is Some),
        run.stage == GateStage::Connect && event->quota_limit is Some && event->quota_usage
            <= event->quota_limit->Some_0 ==> next->Ok_0.quota_available->Some_0
            + event->quota_usage == event->quota_limit->Some_0,
        run.stage != GateStage::Connect ==> next->Ok_0.account_id@ == run.account_id@
            && next->Ok_0.quota_available == run.quota_available,
        run.stage == GateStage::PublishBase ==> event is BasePublished && next->Ok_0.base_commit
            == event->BasePublished_commit && next->Ok_0.base_pack_bytes == event->pack_bytes,
        run.stage != GateStage::PublishBase ==> next->Ok_0.base_commit == run.base_commit
            && next->Ok_0.base_pack_bytes == run.base_pack_bytes,
        run.stage == GateStage::PublishUpdate ==> event is UpdatePublished
            && next->Ok_0.update_commit == event->UpdatePublished_commit,
        run.stage != GateStage::PublishUpdate ==> next->Ok_0.update_commit == run.update_commit,
        run.stage == GateStage::StageUpdate ==> event is Staged && next->Ok_0.update_pack_bytes
            == event->remote_bytes && event->local_bytes == event->remote_bytes
            && event->remote_hash@ == event->local_hash@,
        run.stage != GateStage::StageUpdate ==> next->Ok_0.update_pack_bytes
            == run.update_pack_bytes,
        run.stage == GateStage::ReadBase ==> event is Read && next->Ok_0.incorrect
            == event->incorrect && next->Ok_0.base_peak == event->Read_peak,
        run.stage == GateStage::ReadUpdate ==> event is Read && event->incorrect == 0
            && run.incorrect == 0 && next->Ok_0.update_peak == event->Read_peak
            && next->Ok_0.stage == GateStage::Passed,
        run.stage != GateStage::ReadBase && run.stage != GateStage::ReadUpdate
            ==> next->Ok_0.incorrect == run.incorrect && next->Ok_0.base_peak == run.base_peak
            && next->Ok_0.update_peak == run.update_peak,
        event is Recovered ==> next->Ok_0.chain_length == event->chain_length
            && next->Ok_0.generation == event->generation,
        run.stage == GateStage::RereadStaged ==> event is Reread && event->Reread_same,
        run.stage == GateStage::RefetchEvicted ==> event is Refetched && event->Refetched_same,
        run.stage == GateStage::ProbeResumable ==> event is Probed && event->completed
            && !event->early && event->offset == 256 * 1024,
        next->Ok_0.stage == GateStage::Passed ==> run.stage == GateStage::ReadUpdate,
{
}

/// The evidence tells of the run what the run found, and is there exactly for a run that passed.
pub proof fn law_evidence_tells_the_run(
    run: &GateRun,
    completed: u64,
    provider: ProviderTotals,
    told: Option<DriveGateEvidence>,
)
    requires
        call_ensures(evidence, (run, completed, provider), told),
    ensures
        told is Some <==> run.stage == GateStage::Passed,
        told is Some ==> {
            let told = told->Some_0;
            &&& told.status@ == "passed"@
            &&& told.completed_unix_seconds == completed
            &&& told.provider.requests == provider.requests
            &&& told.provider.retries == provider.retries
            &&& told.provider.uploaded_bytes == provider.uploaded_bytes
            &&& told.provider.downloaded_bytes == provider.downloaded_bytes
            &&& told.base_unique_physical_bytes == run.base_pack_bytes
            &&& told.update_unique_physical_bytes == run.update_pack_bytes
            &&& told.logical_corpus_bytes == 100 * 1024 * 1024 * 1024
            &&& told.updated_logical_bytes == 25 * 1024 * 1024 * 1024
            &&& told.signed_chain_length == run.chain_length
            &&& told.authoritative_generation == run.generation
            &&& told.incorrect_bytes == run.incorrect
            &&& told.gate_d_peak_cache_bytes == run.base_peak
            &&& told.gate_f_peak_cache_bytes == run.update_peak
            &&& told.gate_d_cache_cap_bytes == 64 * 1024 * 1024
            &&& told.gate_f_cache_cap_bytes == 80 * 1024 * 1024
            &&& told.gate_d_random_reads == 100000 && told.gate_f_random_reads == 100000
            &&& told.quota_available_before_bytes == run.quota_available
        },
{
}

/// What two sessions cost is the sum of what each cost, whichever comes first.
pub proof fn law_costs_add_up(
    one: ProviderTotals,
    other: ProviderTotals,
    sum: Option<ProviderTotals>,
    turned: Option<ProviderTotals>,
)
    requires
        call_ensures(combined, (one, other), sum),
        call_ensures(combined, (other, one), turned),
    ensures
        sum == turned,
        sum is Some ==> sum->Some_0.requests - one.requests == other.requests
            && sum->Some_0.retries - one.retries == other.retries && sum->Some_0.uploaded_bytes
            - one.uploaded_bytes == other.uploaded_bytes && sum->Some_0.downloaded_bytes
            - one.downloaded_bytes == other.downloaded_bytes,
        one.requests <= u64::MAX / 2 && other.requests <= u64::MAX / 2 && one.retries <= u64::MAX
            / 2 && other.retries <= u64::MAX / 2 && one.uploaded_bytes <= u64::MAX / 2
            && other.uploaded_bytes <= u64::MAX / 2 && one.downloaded_bytes <= u64::MAX / 2
            && other.downloaded_bytes <= u64::MAX / 2 ==> sum is Some,
{
}

/// A cache has room for each page that its generation can read, and for no more.
pub proof fn law_cache_holds_each_page(updated: bool, cap: u64)
    requires
        call_ensures(cache_cap, (updated,), cap),
    ensures
        updated ==> cap == (64 + 16) * 1048576,
        !updated ==> cap == 64 * 1048576,
{
}

/// A pack is made only where there is none, and one alone is checked.
pub proof fn law_packs_are_made_once(found: usize, choice: Result<PackChoice, MirageError>)
    requires
        call_ensures(choose_pack, (found,), choice),
    ensures
        choice is Ok && choice->Ok_0 == PackChoice::Create <==> found == 0,
        choice is Ok && choice->Ok_0 == PackChoice::Verify <==> found == 1,
        choice is Err <==> found >= 2,
        choice is Err ==> choice->Err_0.kind == MirageErrorKind::RepositoryConflict,
{
}

/// A pack is good exactly if it is encrypted and holds each page of its domain in its place.
pub proof fn law_good_packs_hold_their_pages(
    encrypted: bool,
    pages: &Vec<Vec<u8>>,
    domain: &str,
    unique_pages: u32,
    verdict: Result<(), MirageError>,
    at: u32,
    page: Vec<u8>,
)
    requires
        call_ensures(verify_pack, (encrypted, pages, domain, unique_pages), verdict),
        call_ensures(gate_page, (domain, at), page),
    ensures
        verdict is Ok ==> encrypted && pages@.len() == unique_pages,
        verdict is Ok && at < unique_pages ==> pages@[at as int]@ == page@,
{
}

/// A gate works exactly in an absolute directory outside the sources.
pub proof fn law_gate_works_outside_the_sources(
    absolute: bool,
    inside: bool,
    verdict: Result<(), MirageError>,
)
    requires
        call_ensures(check_work_directory, (absolute, inside), verdict),
    ensures
        verdict is Ok <==> absolute && !inside,
{
}

/// A frame of a pack holds a page.
pub open spec fn is_frame_of(mapped: MappedPage, entries: Seq<PackEntry>, at: int) -> bool {
    &&& 0 <= at < entries.len()
    &&& entries[at].page_hash@ == mapped.page_hash@
    &&& entries[at].frame_offset == mapped.frame_offset
    &&& entries[at].frame_length == mapped.frame_length
}

proof fn lemma_entry_place(entries: Seq<PackEntry>, hash: Seq<u8>)
    ensures
        entry_place(entries, hash) is Some ==> 0 <= entry_place(entries, hash)->Some_0
            < entries.len() && entries[entry_place(entries, hash)->Some_0].page_hash@ == hash,
        entry_place(entries, hash) is None ==> forall|i: int|
            0 <= i < entries.len() ==> (#[trigger] entries[i]).page_hash@ != hash,
    decreases entries.len(),
{
    if entries.len() > 0 && entries.last().page_hash@ != hash {
        lemma_entry_place(entries.drop_last(), hash);
        if entry_place(entries.drop_last(), hash) is None {
            assert forall|i: int| 0 <= i < entries.len() implies (#[trigger] entries[i]).page_hash@
                != hash by {
                if i < entries.len() - 1 {
                    assert(entries.drop_last()[i] == entries[i]);
                }
            }
        }
    }
}

/// Every page of the corpus is mapped to a frame that holds it. The pages repeat in turn.
pub proof fn law_base_pages_are_mapped_to_their_frames(
    unique: &Vec<[u8; 32]>,
    entries: &Vec<PackEntry>,
    pages: Result<Vec<MappedPage>, MirageError>,
    at: int,
)
    requires
        unique@.len() == 64,
        call_ensures(base_pages, (unique, entries), pages),
    ensures
        pages is Ok ==> pages->Ok_0@.len() == 102400,
        pages is Ok && 0 <= at < 102400 ==> {
            let mapped = pages->Ok_0@[at];
            &&& mapped.page_index == at
            &&& mapped.logical_length == 1024 * 1024
            &&& mapped.page_hash@ == unique@[at % 64]@
            &&& exists|i: int| #[trigger] is_frame_of(mapped, entries@, i)
        },
        pages is Err ==> exists|i: int|
            0 <= i < 64 && forall|j: int|
                0 <= j < entries@.len() ==> (#[trigger] entries@[j]).page_hash@ != (
                #[trigger] unique@[i])@,
{
    if pages is Ok && 0 <= at < 102400 {
        let mapped = pages->Ok_0@[at];
        let hash = unique@[at % 64]@;
        lemma_entry_place(entries@, hash);
        assert(entry_place(entries@, unique@[at % 64]@) is Some);
        assert(is_frame_of(mapped, entries@, entry_place(entries@, hash)->Some_0));
    }
    if pages is Err {
        let i = choose|i: int|
            0 <= i < 64 && entry_place(entries@, (#[trigger] unique@[i])@) is None;
        lemma_entry_place(entries@, unique@[i]@);
    }
}

/// Every page that an update replaces is mapped to a frame that holds it. The pages repeat in
/// turn.
pub proof fn law_update_pages_are_mapped_to_their_frames(
    unique: &Vec<[u8; 32]>,
    entries: &Vec<PackEntry>,
    pages: Result<Vec<MappedPage>, MirageError>,
    at: int,
)
    requires
        unique@.len() == 16,
        call_ensures(update_pages, (unique, entries), pages),
    ensures
        pages is Ok ==> pages->Ok_0@.len() == 25600,
        pages is Ok && 0 <= at < 25600 ==> {
            let mapped = pages->Ok_0@[at];
            &&& mapped.page_index == at
            &&& mapped.page_hash@ == unique@[at % 16]@
            &&& exists|i: int| #[trigger]
                is_frame_of(mapped, entries@, i) && entries@[i].logical_length
                    == mapped.logical_length
        },
        pages is Err ==> exists|i: int|
            0 <= i < 16 && forall|j: int|
                0 <= j < entries@.len() ==> (#[trigger] entries@[j]).page_hash@ != (
                #[trigger] unique@[i])@,
{
    if pages is Ok && 0 <= at < 25600 {
        let mapped = pages->Ok_0@[at];
        let hash = unique@[at % 16]@;
        lemma_entry_place(entries@, hash);
        assert(entry_place(entries@, unique@[at % 16]@) is Some);
        assert(is_frame_of(mapped, entries@, entry_place(entries@, hash)->Some_0));
    }
    if pages is Err {
        let i = choose|i: int|
            0 <= i < 16 && entry_place(entries@, (#[trigger] unique@[i])@) is None;
        lemma_entry_place(entries@, unique@[i]@);
    }
}

/// A page is taken from the cache if a page of its hash is there, and else from the place at
/// which it is kept.
pub proof fn law_pages_are_loaded_from_their_place(
    pages: &Vec<GatePage>,
    locations: &Vec<GateLocation>,
    ordinal: u32,
    cache: &PageCache,
    load: Result<PageLoad, MirageError>,
    at: int,
)
    requires
        call_ensures(plan_load, (pages, locations, ordinal, cache), load),
    ensures
        load is Ok ==> ordinal < pages@.len(),
        load is Ok && load->Ok_0 is Fetch ==> {
            let location = load->Ok_0->location as int;
            &&& location == pages@[ordinal as int].remote_location
            &&& location < locations@.len()
            &&& !locations@[location].compressed
            &&& 0 <= at < cache.pages().len() ==> cache.pages()[at].hash
                != pages@[ordinal as int].plaintext_hash@
        },
        load is Ok && load->Ok_0 is Cached ==> exists|i: int|
            0 <= i < cache.pages().len() && (#[trigger] cache.pages()[i]).hash
                == pages@[ordinal as int].plaintext_hash@ && cache.pages()[i].bytes
                == load->Ok_0->bytes@,
        load is Err ==> ordinal >= pages@.len() || pages@[ordinal as int].remote_location
            >= locations@.len()
            || locations@[pages@[ordinal as int].remote_location as int].compressed,
{
    if load is Ok {
        lemma_place_of(cache.pages(), pages@[ordinal as int].plaintext_hash@, at);
    }
}

} // verus!
