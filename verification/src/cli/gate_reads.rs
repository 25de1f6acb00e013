//! The random reads of the Drive gate, page by page, and where the pages of the
//! corpus are kept.

use vstd::prelude::*;
use crate::bytes::same_bytes;
use crate::cli::drive_gate::{
    after_eviction, backing_page, cached_bytes, differing, first_state, incorrect_bytes,
    initial_state, law_no_difference_means_equal, law_segments_cover_the_read,
    law_slice_is_part_of_page, mix_state, next_read, page_bytes, place_of, read_after,
    read_segments, saturated, segments_of, with_page, CachedPageView, PageCache, ReadSegment,
    BASE_UNIQUE_PAGES, LOGICAL_PAGES, PAGE_BYTES, RANDOM_READS, UPDATED_LOGICAL_PAGES,
    UPDATE_UNIQUE_PAGES,
};
use crate::error::{answers, broken, unsupported, MirageError, MirageErrorKind, Refusal};

verus! {

// ---------------------------------------------------------------------------
// A batch of reads
// ---------------------------------------------------------------------------

/// The segments of a number of reads that follow a generator state.
pub open spec fn batch_segments(state: u64, reads: nat) -> Seq<ReadSegment>
    decreases reads,
{
    if reads == 0 {
        Seq::empty()
    } else {
        let read = read_after(state);
        segments_of(read.start as int, read.start + read.length) + batch_segments(
            mix_state(mix_state(state)),
            (reads - 1) as nat,
        )
    }
}

/// How many bytes of a segment differ from the corpus.
pub open spec fn wrong_bytes(page: Seq<u8>, segment: ReadSegment, updated: bool) -> nat {
    differing(
        page.subrange(segment.in_page as int, segment.in_page + segment.take),
        page_bytes(
            backing_page(updated, segment.page).0,
            backing_page(updated, segment.page).1,
            segment.in_page as int,
            segment.take as nat,
        ),
    )
}

/// A batch of random reads, worked off segment by segment: `wanted` names the
/// page that is needed, `compare` takes it.
pub struct ReadBatch {
    updated: bool,
    state: u64,
    left: u64,
    segments: Vec<ReadSegment>,
    at: usize,
    incorrect: u64,
}

impl ReadBatch {
    /// Whether the batch reads the updated generation.
    pub closed spec fn reads_update(&self) -> bool {
        self.updated
    }

    /// The segments that are still to be compared.
    pub closed spec fn remaining(&self) -> Seq<ReadSegment> {
        self.segments@.skip(self.at as int) + batch_segments(self.state, self.left as nat)
    }

    /// How many wrong bytes were counted.
    pub closed spec fn wrong(&self) -> nat {
        self.incorrect as nat
    }

    /// Every segment at hand lies within its page.
    pub closed spec fn well_formed(&self) -> bool {
        &&& self.at <= self.segments@.len()
        &&& forall|i: int|
            0 <= i < self.segments@.len() ==> (#[trigger] self.segments@[i]).in_page
                + self.segments@[i].take <= PAGE_BYTES
    }

    /// A batch that has read nothing yet.
    pub fn new(updated: bool) -> (batch: ReadBatch)
        ensures
            batch.well_formed(),
            batch.reads_update() == updated,
            batch.remaining() == batch_segments(first_state(updated), RANDOM_READS as nat),
            batch.wrong() == 0,
    {
        let batch = ReadBatch {
            updated,
            state: initial_state(updated),
            left: RANDOM_READS,
            segments: Vec::new(),
            at: 0,
            incorrect: 0,
        };
        assert(batch.remaining() =~= batch_segments(first_state(updated), RANDOM_READS as nat));
        batch
    }

    /// The segment that is to be compared next. Nothing is left exactly if there
    /// is none.
    pub fn wanted(&mut self) -> (segment: Option<ReadSegment>)
        requires
            old(self).well_formed(),
        ensures
            final(self).well_formed(),
            final(self).reads_update() == old(self).reads_update(),
            final(self).remaining() == old(self).remaining(),
            final(self).wrong() == old(self).wrong(),
            match segment {
                Some(segment) => final(self).remaining().len() > 0 && final(self).remaining()[0]
                    == segment && segment.in_page + segment.take <= PAGE_BYTES
                    && final(self).ready(),
                None => final(self).remaining().len() == 0,
            },
    {
        if self.at < self.segments.len() {
            assert(self.remaining()[0] == self.segments@[self.at as int]);
            return Some(self.segments[self.at]);
        }
        if self.left == 0 {
            assert(self.remaining() =~= Seq::<ReadSegment>::empty());
            return None;
        }
        let ghost before = self.remaining();
        let ghost state = self.state;
        let read = next_read(&mut self.state);
        let segments = read_segments(read);
        proof {
            law_segments_cover_the_read(read.start as int, read.start + read.length);
            assert(segments@.len() > 0) by {
                reveal_with_fuel(segments_of, 1);
            }
        }
        let first = segments[0];
        self.left = self.left - 1;
        self.segments = segments;
        self.at = 0;
        proof {
            assert(before =~= batch_segments(state, (self.left + 1) as nat));
            assert(self.segments@.skip(0) =~= self.segments@);
            assert(self.remaining() =~= before);
            assert forall|i: int| 0 <= i < self.segments@.len() implies (
            #[trigger] self.segments@[i]).in_page + self.segments@[i].take <= PAGE_BYTES by {
                assert(segments_of(read.start as int, read.start + read.length)[i]
                    == self.segments@[i]);
            }
        }
        Some(first)
    }

    /// Whether a segment is at hand: `wanted` named one that was not compared
    /// yet.
    pub closed spec fn ready(&self) -> bool {
        self.at < self.segments@.len()
    }

    /// Compares the page that was wanted with the corpus. Without a wanted segment,
    /// or with less than a page, nothing is compared.
    pub fn compare(&mut self, page: &[u8]) -> (compared: bool)
        requires
            old(self).well_formed(),
        ensures
            final(self).well_formed(),
            final(self).reads_update() == old(self).reads_update(),
            compared == (old(self).ready() && page@.len() >= PAGE_BYTES),
            !compared ==> *final(self) == *old(self),
            compared ==> {
                &&& old(self).remaining().len() > 0
                &&& final(self).remaining() == old(self).remaining().skip(1)
                &&& final(self).wrong() == saturated(
                    (old(self).wrong() + wrong_bytes(
                        page@,
                        old(self).remaining()[0],
                        old(self).reads_update(),
                    )) as int,
                )
            },
    {
        if self.at >= self.segments.len() || (page.len() as u64) < PAGE_BYTES {
            return false;
        }
        let segment = self.segments[self.at];
        proof {
            assert(self.remaining()[0] == segment);
            assert(self.segments@[self.at as int].in_page + self.segments@[self.at as int].take
                <= PAGE_BYTES);
        }
        let count: u64 = incorrect_bytes(page, segment, self.updated);
        let ghost before = self.remaining();
        self.incorrect = if self.incorrect > u64::MAX - count {
            u64::MAX
        } else {
            self.incorrect + count
        };
        self.at = self.at + 1;
        assert(self.remaining() =~= before.skip(1));
        true
    }

    /// How many wrong bytes were counted.
    pub fn incorrect(&self) -> (count: u64)
        ensures
            count == self.wrong(),
    {
        self.incorrect
    }
}

/// A page that is the one of the corpus is never counted as wrong.
pub proof fn law_right_pages_count_nothing(page: Seq<u8>, segment: ReadSegment, updated: bool)
    requires
        segment.in_page + segment.take <= PAGE_BYTES,
        page == page_bytes(
            backing_page(updated, segment.page).0,
            backing_page(updated, segment.page).1,
            0,
            PAGE_BYTES as nat,
        ),
    ensures
        wrong_bytes(page, segment, updated) == 0,
{
    let (domain, index) = backing_page(updated, segment.page);
    law_slice_is_part_of_page(domain, index, segment.in_page as int, segment.take as nat);
    law_no_difference_means_equal(
        page.subrange(segment.in_page as int, segment.in_page + segment.take),
        page_bytes(domain, index, segment.in_page as int, segment.take as nat),
    );
}

/// What the counts of some segments add up to.
pub open spec fn total_wrong(counts: Seq<nat>) -> nat
    decreases counts.len(),
{
    if counts.len() == 0 {
        0
    } else {
        saturated((total_wrong(counts.drop_last()) + counts.last()) as int) as nat
    }
}

/// A batch that counted nothing found every segment right.
pub proof fn law_no_count_means_every_segment_was_right(counts: Seq<nat>)
    ensures
        total_wrong(counts) == 0 <==> forall|i: int|
            0 <= i < counts.len() ==> #[trigger] counts[i] == 0,
    decreases counts.len(),
{
    if counts.len() > 0 {
        law_no_count_means_every_segment_was_right(counts.drop_last());
        if total_wrong(counts) == 0 {
            assert forall|i: int| 0 <= i < counts.len() implies #[trigger] counts[i] == 0 by {
                if i < counts.len() - 1 {
                    assert(counts.drop_last()[i] == counts[i]);
                }
            }
        } else if forall|i: int| 0 <= i < counts.len() ==> #[trigger] counts[i] == 0 {
            assert forall|i: int| 0 <= i < counts.drop_last().len() implies #[trigger] counts.drop_last()[i]
                == 0 by {
                assert(counts.drop_last()[i] == counts[i]);
            }
            assert(counts[counts.len() - 1] == 0);
        }
    }
}

// ---------------------------------------------------------------------------
// Where the pages of the corpus are kept
// ---------------------------------------------------------------------------

/// An entry of a pack: a page and the frame that holds it.
#[derive(Debug, Clone, Copy)]
pub struct PackEntry {
    pub page_hash: [u8; 32],
    pub frame_offset: u64,
    pub frame_length: u64,
    pub logical_length: u32,
}

/// A page of the corpus with the frame that holds it.
#[derive(Debug, Clone, Copy)]
pub struct MappedPage {
    pub page_index: u32,
    pub page_hash: [u8; 32],
    pub frame_offset: u64,
    pub frame_length: u64,
    pub logical_length: u32,
}

/// The place of a page among the entries of a pack: the last one with its hash.
pub open spec fn entry_place(entries: Seq<PackEntry>, hash: Seq<u8>) -> Option<int>
    decreases entries.len(),
{
    if entries.len() == 0 {
        None
    } else if entries.last().page_hash@ == hash {
        Some(entries.len() - 1)
    } else {
        entry_place(entries.drop_last(), hash)
    }
}

fn find_entry(entries: &Vec<PackEntry>, hash: &[u8; 32]) -> (place: Option<usize>)
    ensures
        match place {
            Some(place) => place < entries@.len() && entry_place(entries@, hash@) == Some(
                place as int,
            ),
            None => entry_place(entries@, hash@) is None,
        },
{
    let mut end: usize = entries.len();
    assert(entries@.take(end as int) == entries@);
    while end > 0
        invariant
            end <= entries@.len(),
            entry_place(entries@, hash@) == entry_place(entries@.take(end as int), hash@),
        decreases end,
    {
        proof {
            assert(entries@.take(end as int).last() == entries@[end - 1]);
            assert(entries@.take(end as int).drop_last() == entries@.take(end - 1));
        }
        if same_bytes(&entries[end - 1].page_hash, hash) {
            return Some(end - 1);
        }
        end = end - 1;
    }
    None
}

/// Whether every page that a corpus of `count` pages uses is in the pack. The
/// pages of the corpus repeat the unique ones in turn.
pub open spec fn all_packed(count: int, unique: Seq<[u8; 32]>, entries: Seq<PackEntry>) -> bool {
    forall|i: int|
        0 <= i < count && i < unique.len() ==> entry_place(entries, (#[trigger] unique[i])@) is Some
}

/// Whether a mapped page is the page of the corpus at a place. `logical` is its
/// length, if not that of the entry.
pub open spec fn is_mapped(
    mapped: MappedPage,
    place: int,
    unique: Seq<[u8; 32]>,
    entries: Seq<PackEntry>,
    logical: Option<u32>,
) -> bool {
    let hash = unique[place % (unique.len() as int)];
    let entry = entries[entry_place(entries, hash@)->Some_0];
    &&& mapped.page_index == place
    &&& mapped.page_hash == hash
    &&& mapped.frame_offset == entry.frame_offset
    &&& mapped.frame_length == entry.frame_length
    &&& mapped.logical_length == match logical {
        Some(length) => length,
        None => entry.logical_length,
    }
}

fn map_pages(
    count: u32,
    unique: &Vec<[u8; 32]>,
    entries: &Vec<PackEntry>,
    logical: Option<u32>,
    missing: &str,
) -> (pages: Result<Vec<MappedPage>, MirageError>)
    requires
        unique@.len() > 0,
        unique@.len() <= u32::MAX,
    ensures
        answers(
            pages,
            if all_packed(count as int, unique@, entries@) {
                None
            } else {
                broken(missing@)
            },
        ),
        pages matches Ok(pages) ==> {
            &&& pages@.len() == count
            &&& forall|i: int|
                0 <= i < count ==> is_mapped(#[trigger] pages@[i], i, unique@, entries@, logical)
        },
{
    let mut pages: Vec<MappedPage> = Vec::new();
    let turn: u32 = unique.len() as u32;
    let mut at: u32 = 0;
    while at < count
        invariant
            at <= count,
            turn == unique@.len(),
            turn > 0,
            pages@.len() == at,
            all_packed(at as int, unique@, entries@),
            forall|i: int|
                0 <= i < at ==> is_mapped(#[trigger] pages@[i], i, unique@, entries@, logical),
        decreases count - at,
    {
        let hash: [u8; 32] = unique[(at % turn) as usize];
        match find_entry(entries, &hash) {
            Some(place) => {
                let entry = entries[place];
                let mapped = MappedPage {
                    page_index: at,
                    page_hash: hash,
                    frame_offset: entry.frame_offset,
                    frame_length: entry.frame_length,
                    logical_length: match logical {
                        Some(length) => length,
                        None => entry.logical_length,
                    },
                };
                assert(is_mapped(mapped, at as int, unique@, entries@, logical));
                assert(all_packed(at + 1, unique@, entries@)) by {
                    assert forall|i: int| 0 <= i < at + 1 && i < unique@.len() implies entry_place(
                        entries@,
                        (#[trigger] unique@[i])@,
                    ) is Some by {
                        if i == at {
                            assert(at % turn == at) by (nonlinear_arith)
                                requires
                                    at < turn,
                            ;
                        }
                    }
                }
                pages.push(mapped);
            },
            None => {
                proof {
                    let index = (at % turn) as int;
                    assert(unique@[index]@ == hash@);
                    assert(index <= at) by {
                        assert(at % turn <= at) by (nonlinear_arith)
                            requires
                                turn > 0,
                        ;
                    }
                    assert(entry_place(entries@, unique@[index]@) is None);
                    assert(!all_packed(count as int, unique@, entries@));
                }
                return Err(MirageError::internal_invariant(missing));
            },
        }
        at = at + 1;
    }
    Ok(pages)
}

/// The pages of the base generation: the unique pages in turn, each as long as a
/// page.
pub fn base_pages(unique: &Vec<[u8; 32]>, entries: &Vec<PackEntry>) -> (pages: Result<
    Vec<MappedPage>,
    MirageError,
>)
    requires
        unique@.len() == BASE_UNIQUE_PAGES,
    ensures
        answers(
            pages,
            if all_packed(LOGICAL_PAGES as int, unique@, entries@) {
                None
            } else {
                broken("base pack omitted a deterministic page"@)
            },
        ),
        pages matches Ok(pages) ==> {
            &&& pages@.len() == LOGICAL_PAGES
            &&& forall|i: int|
                0 <= i < LOGICAL_PAGES ==> is_mapped(
                    #[trigger] pages@[i],
                    i,
                    unique@,
                    entries@,
                    Some(PAGE_BYTES as u32),
                )
        },
{
    map_pages(
        LOGICAL_PAGES,
        unique,
        entries,
        Some(PAGE_BYTES as u32),
        "base pack omitted a deterministic page",
    )
}

/// The pages that the update replaces: its unique pages in turn.
pub fn update_pages(unique: &Vec<[u8; 32]>, entries: &Vec<PackEntry>) -> (pages: Result<
    Vec<MappedPage>,
    MirageError,
>)
    requires
        unique@.len() == UPDATE_UNIQUE_PAGES,
    ensures
        answers(
            pages,
            if all_packed(UPDATED_LOGICAL_PAGES as int, unique@, entries@) {
                None
            } else {
                broken("update pack omitted a deterministic page"@)
            },
        ),
        pages matches Ok(pages) ==> {
            &&& pages@.len() == UPDATED_LOGICAL_PAGES
            &&& forall|i: int|
                0 <= i < UPDATED_LOGICAL_PAGES ==> is_mapped(
                    #[trigger] pages@[i],
                    i,
                    unique@,
                    entries@,
                    None,
                )
        },
{
    map_pages(
        UPDATED_LOGICAL_PAGES,
        unique,
        entries,
        None,
        "update pack omitted a deterministic page",
    )
}

/// The page that the manifest maps a place of the corpus to is the one that the
/// reads expect there.
pub proof fn law_mapped_pages_are_the_expected_ones(place: u32)
    requires
        place < LOGICAL_PAGES,
    ensures
        backing_page(false, place).1 == place % BASE_UNIQUE_PAGES,
        place < UPDATED_LOGICAL_PAGES ==> backing_page(true, place).1 == place
            % UPDATE_UNIQUE_PAGES,
        place >= UPDATED_LOGICAL_PAGES ==> backing_page(true, place) == backing_page(false, place),
{
}

// ---------------------------------------------------------------------------
// Loading a page
// ---------------------------------------------------------------------------

/// A page of a recovered manifest.
#[derive(Debug, Clone, Copy)]
pub struct GatePage {
    pub plaintext_hash: [u8; 32],
    pub remote_location: u32,
    pub logical_length: u32,
}

/// Where a frame is kept, and whether it is compressed.
#[derive(Debug, Clone, Copy)]
pub struct GateLocation {
    pub offset: u64,
    pub encoded_length: u64,
    pub compressed: bool,
}

/// How a page is loaded.
#[derive(Debug)]
pub enum PageLoad {
    /// It is cached.
    Cached { bytes: Vec<u8> },
    /// The frame at this location is to be read and decrypted.
    Fetch { location: usize },
}

/// Whether a page is cached.
pub open spec fn is_cached(cache: PageCache, hash: Seq<u8>) -> bool {
    place_of(cache.pages(), hash) < cache.pages().len()
}

/// Why a page cannot be loaded, if it cannot.
pub open spec fn load_refusal(
    pages: Seq<GatePage>,
    locations: Seq<GateLocation>,
    ordinal: u32,
    cache: PageCache,
) -> Refusal {
    if ordinal >= pages.len() {
        Some((MirageErrorKind::ManifestInvalid, "Drive gate page ordinal is absent"@))
    } else if is_cached(cache, pages[ordinal as int].plaintext_hash@) {
        None
    } else if pages[ordinal as int].remote_location >= locations.len() {
        Some((MirageErrorKind::ManifestInvalid, "Drive gate remote location is absent"@))
    } else if locations[pages[ordinal as int].remote_location as int].compressed {
        unsupported("Drive gate expected an uncompressed encrypted frame"@)
    } else {
        None
    }
}

/// Decides how a page of a recovered manifest is loaded.
pub fn plan_load(
    pages: &Vec<GatePage>,
    locations: &Vec<GateLocation>,
    ordinal: u32,
    cache: &PageCache,
) -> (load: Result<PageLoad, MirageError>)
    ensures
        answers(load, load_refusal(pages@, locations@, ordinal, *cache)),
        load matches Ok(load) ==> {
            let page = pages@[ordinal as int];
            match load {
                PageLoad::Cached { bytes } => {
                    &&& is_cached(*cache, page.plaintext_hash@)
                    &&& bytes@ == cache.pages()[place_of(
                        cache.pages(),
                        page.plaintext_hash@,
                    ) as int].bytes
                },
                PageLoad::Fetch { location } => {
                    &&& !is_cached(*cache, page.plaintext_hash@)
                    &&& location == page.remote_location
                },
            }
        },
{
    if ordinal as u64 >= pages.len() as u64 {
        return Err(
            MirageError::new(
                MirageErrorKind::ManifestInvalid,
                "Drive gate page ordinal is absent",
            ),
        );
    }
    let page = pages[ordinal as usize];
    if let Some(bytes) = cache.get(&page.plaintext_hash) {
        return Ok(PageLoad::Cached { bytes });
    }
    if page.remote_location as u64 >= locations.len() as u64 {
        return Err(
            MirageError::new(
                MirageErrorKind::ManifestInvalid,
                "Drive gate remote location is absent",
            ),
        );
    }
    let location: usize = page.remote_location as usize;
    if locations[location].compressed {
        return Err(
            MirageError::unsupported_layout("Drive gate expected an uncompressed encrypted frame"),
        );
    }
    Ok(PageLoad::Fetch { location })
}

/// In a cache of one page, a second page drives the first one out: to read the
/// first again is to fetch it again.
pub proof fn law_one_page_cache_forgets(first: CachedPageView, second: CachedPageView)
    requires
        first.bytes.len() == PAGE_BYTES,
        second.bytes.len() == PAGE_BYTES,
        first.hash != second.hash,
    ensures
        ({
            let pages = with_page(
                after_eviction(seq![first], PAGE_BYTES - second.bytes.len()),
                second,
            );
            place_of(pages, first.hash) >= pages.len()
        }),
{
    reveal_with_fuel(cached_bytes, 2);
    reveal_with_fuel(after_eviction, 2);
    reveal_with_fuel(place_of, 2);
    let none = Seq::<CachedPageView>::empty();
    assert(seq![first].skip(1) =~= none);
    assert(after_eviction(seq![first], 0) =~= none);
    assert(with_page(none, second) =~= seq![second]);
    assert(seq![second].skip(1) =~= none);
}

} // verus!
