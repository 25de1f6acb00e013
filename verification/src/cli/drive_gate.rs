//! The authenticated Drive gate: a deterministic corpus, a bounded page cache,
//! random reads against a byte oracle, and the checks that a run must pass.

use vstd::prelude::*;
use crate::bytes::{array16, le32, push_all, push_le32, same_bytes};
use crate::crypto::primitives::{blake3_digest, blake3_of, blake3_stream, blake3_stream_of};
use crate::error::{answers, corrupt, invalid, MirageError, MirageErrorKind, Refusal};
use crate::ids::RepositoryId;
use crate::text::{ascii, push_ascii, same_text};

verus! {

pub const PAGE_BYTES: u64 = 1048576;

pub const LOGICAL_PAGES: u32 = 102400;

pub const LOGICAL_BYTES: u64 = 107374182400;

pub const BASE_UNIQUE_PAGES: u32 = 64;

pub const UPDATE_UNIQUE_PAGES: u32 = 16;

pub const UPDATED_LOGICAL_PAGES: u32 = 25600;

pub const UPDATED_LOGICAL_BYTES: u64 = 26843545600;

pub const RANDOM_READS: u64 = 100000;

// ---------------------------------------------------------------------------
// Deterministic corpus
// ---------------------------------------------------------------------------

/// The seed of a page: what its bytes are generated from.
pub open spec fn page_seed(domain: Seq<char>, index: u32) -> Seq<u8> {
    ascii("MirageSSD Drive gate deterministic page v1\0"@) + ascii(domain) + le32(index)
}

/// The bytes of a page from `offset` on.
pub open spec fn page_bytes(domain: Seq<char>, index: u32, offset: int, length: nat) -> Seq<u8> {
    Seq::new(length, |i: int| blake3_stream(page_seed(domain, index), offset + i))
}

fn build_page_seed(domain: &str, index: u32) -> (seed: Vec<u8>)
    ensures
        seed@ == page_seed(domain@, index),
{
    let mut seed: Vec<u8> = Vec::new();
    push_ascii(&mut seed, "MirageSSD Drive gate deterministic page v1\0");
    push_ascii(&mut seed, domain);
    push_le32(&mut seed, index);
    assert(seed@ == page_seed(domain@, index));
    seed
}

/// Generates a whole page.
pub fn gate_page(domain: &str, index: u32) -> (page: Vec<u8>)
    ensures
        page@ == page_bytes(domain@, index, 0, PAGE_BYTES as nat),
{
    let seed = build_page_seed(domain, index);
    let page = blake3_stream_of(seed.as_slice(), 0, PAGE_BYTES as usize);
    assert(page@ == page_bytes(domain@, index, 0, PAGE_BYTES as nat));
    page
}

/// Generates a part of a page.
pub fn gate_slice(domain: &str, index: u32, offset: usize, length: usize) -> (slice: Vec<u8>)
    requires
        offset + length <= u64::MAX,
    ensures
        slice@ == page_bytes(domain@, index, offset as int, length as nat),
{
    let seed = build_page_seed(domain, index);
    let slice = blake3_stream_of(seed.as_slice(), offset as u64, length);
    assert(slice@ == page_bytes(domain@, index, offset as int, length as nat));
    slice
}

/// A slice of a page is the same as that part of the whole page.
pub proof fn law_slice_is_part_of_page(domain: Seq<char>, index: u32, offset: int, length: nat)
    requires
        0 <= offset,
        offset + length <= PAGE_BYTES,
    ensures
        page_bytes(domain, index, offset, length) == page_bytes(
            domain,
            index,
            0,
            PAGE_BYTES as nat,
        ).subrange(offset, offset + length),
{
    assert(page_bytes(domain, index, offset, length) =~= page_bytes(
        domain,
        index,
        0,
        PAGE_BYTES as nat,
    ).subrange(offset, offset + length));
}

/// Which generated page backs a page of the logical corpus.
pub open spec fn backing_page(updated: bool, ordinal: u32) -> (Seq<char>, u32) {
    if updated && ordinal < UPDATED_LOGICAL_PAGES {
        ("update"@, (ordinal % UPDATE_UNIQUE_PAGES) as u32)
    } else {
        ("base"@, (ordinal % BASE_UNIQUE_PAGES) as u32)
    }
}

/// Which generated page backs a page of the logical corpus.
pub fn backing(updated: bool, ordinal: u32) -> (page: (&'static str, u32))
    ensures
        (page.0@, page.1) == backing_page(updated, ordinal),
{
    if updated && ordinal < UPDATED_LOGICAL_PAGES {
        ("update", ordinal % UPDATE_UNIQUE_PAGES)
    } else {
        ("base", ordinal % BASE_UNIQUE_PAGES)
    }
}

/// The first 16 bytes of the digest of a label and some bytes.
pub open spec fn labelled_id(label: Seq<char>, bytes: Seq<u8>) -> Seq<u8> {
    blake3_digest(ascii(label) + bytes).subrange(0, 16)
}

fn derive_id(label: &str, bytes: &[u8]) -> (id: [u8; 16])
    ensures
        id@ == labelled_id(label@, bytes@),
{
    let mut input: Vec<u8> = Vec::new();
    push_ascii(&mut input, label);
    push_all(&mut input, bytes);
    assert(input@ == ascii(label@) + bytes@);
    let digest: [u8; 32] = blake3_of(input.as_slice());
    array16(&digest, 0)
}

/// The repository of an account's gate runs.
pub fn repository_id(account_id: &str) -> (id: RepositoryId)
    ensures
        id@ == labelled_id(
            "MirageSSD authenticated Drive gate repository v1\0"@,
            vstd::utf8::encode_utf8(account_id@),
        ),
{
    RepositoryId::from_bytes(
        derive_id("MirageSSD authenticated Drive gate repository v1\0", account_id.as_bytes()),
    )
}

/// The identity of the update that a Drive gate run makes.
pub fn update_id(repository: RepositoryId) -> (id: [u8; 16])
    ensures
        id@ == labelled_id("MirageSSD authenticated Drive gate update v1\0"@, repository@),
{
    derive_id("MirageSSD authenticated Drive gate update v1\0", repository.as_bytes())
}

// ---------------------------------------------------------------------------
// Random reads
// ---------------------------------------------------------------------------

/// The next state of the generator.
pub open spec fn mix_state(state: u64) -> u64 {
    state.wrapping_add(0x9e37_79b9_7f4a_7c15)
}

/// The output of the generator in a state.
pub open spec fn mix_output(state: u64) -> u64 {
    let first = (state ^ (state >> 30)).wrapping_mul(0xbf58_476d_1ce4_e5b9);
    let second = (first ^ (first >> 27)).wrapping_mul(0x94d0_49bb_1331_11eb);
    second ^ (second >> 31)
}

/// One step of the SplitMix64 generator.
pub fn splitmix64(state: &mut u64) -> (value: u64)
    ensures
        *final(state) == mix_state(*old(state)),
        value == mix_output(mix_state(*old(state))),
{
    *state = state.wrapping_add(0x9e37_79b9_7f4a_7c15);
    let mut value: u64 = *state;
    value = (value ^ (value >> 30)).wrapping_mul(0xbf58_476d_1ce4_e5b9);
    value = (value ^ (value >> 27)).wrapping_mul(0x94d0_49bb_1331_11eb);
    value ^ (value >> 31)
}

/// A contiguous read of the logical corpus.
#[derive(Debug, Clone, Copy, PartialEq, Eq, Structural)]
pub struct RandomRead {
    pub start: u64,
    pub length: u64,
}

/// The generator's state before the first read.
pub open spec fn first_state(updated: bool) -> u64 {
    if updated {
        0x4d_69_72_61_67_65_46
    } else {
        0x4d_69_72_61_67_65_44
    }
}

/// The generator's state before the first read.
pub fn initial_state(updated: bool) -> (state: u64)
    ensures
        state == first_state(updated),
{
    if updated {
        0x4d_69_72_61_67_65_46
    } else {
        0x4d_69_72_61_67_65_44
    }
}

/// The read that follows a generator state: 1 to 65536 bytes, all within the
/// corpus.
pub open spec fn read_after(state: u64) -> RandomRead {
    let length = 1 + mix_output(mix_state(state)) / 0x1_0000_0000_0000;
    RandomRead {
        start: (mix_output(mix_state(mix_state(state))) as int % (LOGICAL_BYTES - length + 1)) as u64,
        length: length as u64,
    }
}

/// Draws the next read.
pub fn next_read(state: &mut u64) -> (read: RandomRead)
    ensures
        read == read_after(*old(state)),
        *final(state) == mix_state(mix_state(*old(state))),
        1 <= read.length <= 65536,
        read.start + read.length <= LOGICAL_BYTES,
{
    let random: u64 = splitmix64(state);
    let length: u64 = 1 + random / 0x1_0000_0000_0000;
    let start: u64 = splitmix64(state) % (LOGICAL_BYTES - length + 1);
    RandomRead { start, length }
}

/// A part of a read that lies within one page.
#[derive(Debug, Clone, Copy, PartialEq, Eq, Structural)]
pub struct ReadSegment {
    pub page: u32,
    pub in_page: u64,
    pub take: u64,
}

/// The part of the range from `at` to `end` that lies in the page of `at`.
pub open spec fn segment_at(at: int, end: int) -> ReadSegment {
    let room = PAGE_BYTES - at % (PAGE_BYTES as int);
    ReadSegment {
        page: (at / (PAGE_BYTES as int)) as u32,
        in_page: (at % (PAGE_BYTES as int)) as u64,
        take: (if end - at < room {
            end - at
        } else {
            room
        }) as u64,
    }
}

/// The segments of the range from `at` to `end`, page by page.
pub open spec fn segments_of(at: int, end: int) -> Seq<ReadSegment>
    decreases end - at,
{
    if at >= end || at < 0 {
        Seq::empty()
    } else {
        let room = PAGE_BYTES - at % (PAGE_BYTES as int);
        let next = if end - at < room {
            end
        } else {
            at + room
        };
        seq![segment_at(at, end)] + segments_of(next, end)
    }
}

/// Splits a read at the page boundaries.
pub fn read_segments(read: RandomRead) -> (segments: Vec<ReadSegment>)
    requires
        read.start + read.length <= LOGICAL_BYTES,
    ensures
        segments@ == segments_of(read.start as int, read.start + read.length),
{
    let mut segments: Vec<ReadSegment> = Vec::new();
    let end: u64 = read.start + read.length;
    let mut at: u64 = read.start;
    while at < end
        invariant
            at <= end <= LOGICAL_BYTES,
            end == read.start + read.length,
            segments_of(read.start as int, end as int) == segments@ + segments_of(
                at as int,
                end as int,
            ),
        decreases end - at,
    {
        let in_page: u64 = at % PAGE_BYTES;
        let room: u64 = PAGE_BYTES - in_page;
        let take: u64 = if end - at < room {
            end - at
        } else {
            room
        };
        let ghost before = segments@;
        segments.push(ReadSegment { page: (at / PAGE_BYTES) as u32, in_page, take });
        assert(segments@.last() == segment_at(at as int, end as int));
        assert(before + (seq![segment_at(at as int, end as int)] + segments_of(
            at + take,
            end as int,
        )) == segments@ + segments_of(at + take, end as int));
        at = at + take;
    }
    assert(segments_of(at as int, end as int) == Seq::<ReadSegment>::empty());
    segments
}

/// The total number of bytes of some segments.
pub open spec fn segment_bytes(segments: Seq<ReadSegment>) -> int
    decreases segments.len(),
{
    if segments.len() == 0 {
        0
    } else {
        segments[0].take + segment_bytes(segments.skip(1))
    }
}

/// The segments of a read cover it without a gap: each stays within its page,
/// begins where the one before it ended, and together they are as long as the
/// read.
pub proof fn law_segments_cover_the_read(at: int, end: int)
    requires
        0 <= at <= end <= LOGICAL_BYTES,
    ensures
        segment_bytes(segments_of(at, end)) == end - at,
        forall|i: int|
            0 <= i < segments_of(at, end).len() ==> {
                let segment = #[trigger] segments_of(at, end)[i];
                &&& segment.page < LOGICAL_PAGES
                &&& segment.take > 0
                &&& segment.in_page + segment.take <= PAGE_BYTES
                &&& segment.page * PAGE_BYTES + segment.in_page == at + segment_bytes(
                    segments_of(at, end).take(i),
                )
            },
    decreases end - at,
{
    let all = segments_of(at, end);
    if at < end {
        let first = segment_at(at, end);
        let next = at + first.take;
        let rest = segments_of(next, end);
        law_segments_cover_the_read(next, end);
        assert(all == seq![first] + rest);
        assert(all.skip(1) == rest);
        assert(at == (at / (PAGE_BYTES as int)) * PAGE_BYTES + at % (PAGE_BYTES as int));
        assert forall|i: int| 0 <= i < all.len() implies {
            let segment = #[trigger] all[i];
            &&& segment.page < LOGICAL_PAGES
            &&& segment.take > 0
            &&& segment.in_page + segment.take <= PAGE_BYTES
            &&& segment.page * PAGE_BYTES + segment.in_page == at + segment_bytes(all.take(i))
        } by {
            if i == 0 {
                assert(all.take(0) == Seq::<ReadSegment>::empty());
            } else {
                assert(all[i] == rest[i - 1]);
                assert(all.take(i)[0] == first);
                assert(all.take(i).skip(1) == rest.take(i - 1));
            }
        }
    }
}

/// How many bytes of two equally long sequences differ.
pub open spec fn differing(left: Seq<u8>, right: Seq<u8>) -> nat
    decreases left.len(),
{
    if left.len() == 0 || right.len() == 0 {
        0
    } else {
        differing(left.drop_last(), right.drop_last()) + if left.last() != right.last() {
            1nat
        } else {
            0
        }
    }
}

proof fn lemma_differing_bound(left: Seq<u8>, right: Seq<u8>)
    ensures
        differing(left, right) <= left.len(),
    decreases left.len(),
{
    if left.len() > 0 && right.len() > 0 {
        lemma_differing_bound(left.drop_last(), right.drop_last());
    }
}

/// Two sequences of the same length have no differing bytes exactly if they are
/// equal.
pub proof fn law_no_difference_means_equal(left: Seq<u8>, right: Seq<u8>)
    requires
        left.len() == right.len(),
    ensures
        differing(left, right) == 0 <==> left == right,
    decreases left.len(),
{
    if left.len() > 0 {
        law_no_difference_means_equal(left.drop_last(), right.drop_last());
        if left.last() == right.last() && left.drop_last() == right.drop_last() {
            assert(left == left.drop_last().push(left.last()));
            assert(right == right.drop_last().push(right.last()));
        }
    } else {
        assert(left == right);
    }
}

/// Compares the bytes of a segment with the byte oracle and counts those that
/// are wrong.
pub fn incorrect_bytes(page: &[u8], segment: ReadSegment, updated: bool) -> (count: u64)
    requires
        segment.in_page + segment.take <= page@.len(),
    ensures
        count == differing(
            page@.subrange(segment.in_page as int, segment.in_page + segment.take),
            page_bytes(
                backing_page(updated, segment.page).0,
                backing_page(updated, segment.page).1,
                segment.in_page as int,
                segment.take as nat,
            ),
        ),
{
    let (domain, unique) = backing(updated, segment.page);
    let length: usize = page.len();
    let expected = gate_slice(domain, unique, segment.in_page as usize, segment.take as usize);
    let ghost actual = page@.subrange(segment.in_page as int, segment.in_page + segment.take);
    let mut count: u64 = 0;
    let mut at: u64 = 0;
    assert(actual.take(0) == Seq::<u8>::empty());
    while at < segment.take
        invariant
            at <= segment.take,
            length == page@.len(),
            segment.in_page + segment.take <= length,
            actual == page@.subrange(segment.in_page as int, segment.in_page + segment.take),
            expected@.len() == segment.take,
            count == differing(actual.take(at as int), expected@.take(at as int)),
            count <= at,
        decreases segment.take - at,
    {
        proof {
            assert(actual.take(at + 1).drop_last() == actual.take(at as int));
            assert(expected@.take(at + 1).drop_last() == expected@.take(at as int));
            assert(actual[at as int] == page@[segment.in_page + at]);
        }
        if page[(segment.in_page + at) as usize] != expected[at as usize] {
            count = count + 1;
        }
        at = at + 1;
    }
    assert(actual.take(at as int) == actual);
    assert(expected@.take(at as int) == expected@);
    count
}

// ---------------------------------------------------------------------------
// Page cache
// ---------------------------------------------------------------------------

/// A cached page.
pub struct CachedPage {
    pub hash: [u8; 32],
    pub bytes: Vec<u8>,
}

/// What a cached page is, as values.
pub ghost struct CachedPageView {
    pub hash: Seq<u8>,
    pub bytes: Seq<u8>,
}

impl View for CachedPage {
    type V = CachedPageView;

    open spec fn view(&self) -> CachedPageView {
        CachedPageView { hash: self.hash@, bytes: self.bytes@ }
    }
}

/// The pages of a cache, as values, the oldest first.
pub open spec fn page_views(pages: Seq<CachedPage>) -> Seq<CachedPageView> {
    pages.map_values(|page: CachedPage| page@)
}

/// The bytes that some pages take.
pub open spec fn cached_bytes(pages: Seq<CachedPageView>) -> nat
    decreases pages.len(),
{
    if pages.len() == 0 {
        0
    } else {
        pages[0].bytes.len() + cached_bytes(pages.skip(1))
    }
}

/// No hash occurs twice.
pub open spec fn distinct_hashes(pages: Seq<CachedPageView>) -> bool {
    forall|i: int, j: int|
        0 <= i < j < pages.len() ==> (#[trigger] pages[i]).hash != (#[trigger] pages[j]).hash
}

/// The pages that remain once the oldest have made room: as few leave as will
/// do.
pub open spec fn after_eviction(pages: Seq<CachedPageView>, room: int) -> Seq<CachedPageView>
    decreases pages.len(),
{
    if pages.len() == 0 || cached_bytes(pages) <= room {
        pages
    } else {
        after_eviction(pages.skip(1), room)
    }
}

/// The place of a hash among the pages; one past the end if it is absent.
pub open spec fn place_of(pages: Seq<CachedPageView>, hash: Seq<u8>) -> nat
    decreases pages.len(),
{
    if pages.len() == 0 || pages[0].hash == hash {
        0
    } else {
        1 + place_of(pages.skip(1), hash)
    }
}

/// The pages with one put in: in the place of the page with the same hash, or
/// else as the youngest.
pub open spec fn with_page(pages: Seq<CachedPageView>, page: CachedPageView) -> Seq<
    CachedPageView,
> {
    let place = place_of(pages, page.hash) as int;
    if place < pages.len() {
        pages.update(place, page)
    } else {
        pages.push(page)
    }
}

/// A cache of pages under a hard cap. The pages stand in the order in which
/// they came; the oldest leave first.
pub struct PageCache {
    cap: u64,
    used: u64,
    peak: u64,
    pages: Vec<CachedPage>,
}

proof fn lemma_cached_bytes_push(pages: Seq<CachedPageView>, page: CachedPageView)
    ensures
        cached_bytes(pages.push(page)) == cached_bytes(pages) + page.bytes.len(),
    decreases pages.len(),
{
    if pages.len() > 0 {
        lemma_cached_bytes_push(pages.skip(1), page);
        assert(pages.push(page).skip(1) == pages.skip(1).push(page));
    } else {
        reveal_with_fuel(cached_bytes, 2);
        assert(pages.push(page).skip(1) == Seq::<CachedPageView>::empty());
    }
}

proof fn lemma_cached_bytes_update(pages: Seq<CachedPageView>, at: int, page: CachedPageView)
    requires
        0 <= at < pages.len(),
    ensures
        cached_bytes(pages.update(at, page)) == cached_bytes(pages) - pages[at].bytes.len()
            + page.bytes.len(),
        pages[at].bytes.len() <= cached_bytes(pages),
    decreases pages.len(),
{
    if at > 0 {
        lemma_cached_bytes_update(pages.skip(1), at - 1, page);
        assert(pages.update(at, page).skip(1) == pages.skip(1).update(at - 1, page));
    } else {
        assert(pages.update(0, page).skip(1) == pages.skip(1));
    }
}

proof fn lemma_place_is(pages: Seq<CachedPageView>, hash: Seq<u8>, at: int)
    requires
        0 <= at <= pages.len(),
        forall|i: int| 0 <= i < at ==> (#[trigger] pages[i]).hash != hash,
        at < pages.len() ==> pages[at].hash == hash,
    ensures
        place_of(pages, hash) == at,
    decreases pages.len(),
{
    if at > 0 {
        assert(pages[0].hash != hash);
        assert forall|i: int| 0 <= i < at - 1 implies (#[trigger] pages.skip(1)[i]).hash
            != hash by {
            assert(pages.skip(1)[i] == pages[i + 1]);
        }
        lemma_place_is(pages.skip(1), hash, at - 1);
    }
}

impl PageCache {
    /// The cap of the cache.
    pub closed spec fn cap(&self) -> nat {
        self.cap as nat
    }

    /// The bytes in use.
    pub closed spec fn used(&self) -> nat {
        self.used as nat
    }

    /// The most bytes that were ever in use at once.
    pub closed spec fn peak_bytes(&self) -> nat {
        self.peak as nat
    }

    /// The pages, the oldest first.
    pub closed spec fn pages(&self) -> Seq<CachedPageView> {
        page_views(self.pages@)
    }

    /// The bytes in use are those of the pages, no hash occurs twice, and
    /// neither the use nor the peak is ever over the cap.
    pub open spec fn well_formed(&self) -> bool {
        &&& self.used() == cached_bytes(self.pages())
        &&& self.used() <= self.peak_bytes() <= self.cap()
        &&& distinct_hashes(self.pages())
    }

    pub fn new(cap: u64) -> (cache: PageCache)
        ensures
            cache.well_formed(),
            cache.cap() == cap,
            cache.peak_bytes() == 0,
            cache.pages() == Seq::<CachedPageView>::empty(),
    {
        let cache = PageCache { cap, used: 0, peak: 0, pages: Vec::new() };
        assert(cache.pages() == Seq::<CachedPageView>::empty());
        cache
    }

    pub fn peak(&self) -> (peak: u64)
        ensures
            peak == self.peak_bytes(),
    {
        self.peak
    }

    fn find(&self, hash: &[u8; 32]) -> (place: usize)
        ensures
            place <= self.pages@.len(),
            place == place_of(self.pages(), hash@),
    {
        let mut at: usize = 0;
        while at < self.pages.len()
            invariant
                at <= self.pages@.len(),
                forall|i: int| 0 <= i < at ==> (#[trigger] self.pages()[i]).hash != hash@,
            decreases self.pages@.len() - at,
        {
            if same_bytes(&self.pages[at].hash, hash) {
                proof {
                    assert(self.pages()[at as int].hash == hash@);
                    lemma_place_is(self.pages(), hash@, at as int);
                }
                return at;
            }
            assert(self.pages()[at as int].hash != hash@);
            at = at + 1;
        }
        proof {
            lemma_place_is(self.pages(), hash@, at as int);
        }
        at
    }

    /// The page with a hash, if it is cached.
    pub fn get(&self, hash: &[u8; 32]) -> (found: Option<Vec<u8>>)
        ensures
            match found {
                Some(bytes) => place_of(self.pages(), hash@) < self.pages().len() && bytes@
                    == self.pages()[place_of(self.pages(), hash@) as int].bytes,
                None => place_of(self.pages(), hash@) >= self.pages().len(),
            },
    {
        let place: usize = self.find(hash);
        if place < self.pages.len() {
            let mut bytes: Vec<u8> = Vec::new();
            push_all(&mut bytes, self.pages[place].bytes.as_slice());
            assert(bytes@ == self.pages@[place as int].bytes@);
            Some(bytes)
        } else {
            None
        }
    }

    /// Caches a page. The oldest pages leave until it fits; a page that is
    /// larger than the cap is refused and changes nothing.
    pub fn insert(&mut self, hash: [u8; 32], bytes: Vec<u8>) -> (outcome: Result<(), MirageError>)
        requires
            old(self).well_formed(),
        ensures
            final(self).well_formed(),
            final(self).cap() == old(self).cap(),
            answers(
                outcome,
                if bytes@.len() > old(self).cap() {
                    Some(
                        (
                            MirageErrorKind::CacheFull,
                            "Drive gate page exceeds the explicit cache cap"@,
                        ),
                    )
                } else {
                    None
                },
            ),
            outcome is Err ==> *final(self) == *old(self),
            outcome is Ok ==> {
                &&& final(self).pages() == with_page(
                    after_eviction(old(self).pages(), old(self).cap() - bytes@.len()),
                    CachedPageView { hash: hash@, bytes: bytes@ },
                )
                &&& final(self).peak_bytes() == if final(self).used() > old(self).peak_bytes() {
                    final(self).used()
                } else {
                    old(self).peak_bytes()
                }
            },
    {
        let length: u64 = bytes.len() as u64;
        if length > self.cap {
            return Err(
                MirageError::new(
                    MirageErrorKind::CacheFull,
                    "Drive gate page exceeds the explicit cache cap",
                ),
            );
        }
        let ghost start = self.pages();
        let ghost room = self.cap - length;
        while self.used > self.cap - length
            invariant
                self.well_formed(),
                length <= self.cap,
                self.cap == old(self).cap,
                self.peak == old(self).peak,
                room == self.cap - length,
                start == old(self).pages(),
                after_eviction(start, room) == after_eviction(self.pages(), room),
            decreases self.pages@.len(),
        {
            let ghost before = self.pages();
            assert(before.len() > 0);
            let removed = self.pages.remove(0);
            proof {
                assert(self.pages() == before.skip(1));
                assert(removed.bytes@ == before[0].bytes);
                assert(distinct_hashes(before.skip(1))) by {
                    assert forall|i: int, j: int| 0 <= i < j < before.skip(1).len() implies (
                    #[trigger] before.skip(1)[i]).hash != (#[trigger] before.skip(1)[j]).hash by {
                        assert(before[i + 1].hash != before[j + 1].hash);
                    }
                }
            }
            self.used = self.used - removed.bytes.len() as u64;
        }
        let ghost kept = self.pages();
        assert(kept == after_eviction(start, room));
        let ghost page = CachedPageView { hash: hash@, bytes: bytes@ };
        let place: usize = self.find(&hash);
        if place < self.pages.len() {
            proof {
                lemma_cached_bytes_update(kept, place as int, page);
            }
            let previous: u64 = self.pages[place].bytes.len() as u64;
            self.used = self.used - previous;
            self.pages.set(place, CachedPage { hash, bytes });
            proof {
                assert(self.pages() == kept.update(place as int, page));
                lemma_place_hash(kept, hash@);
                assert(distinct_hashes(self.pages()));
            }
        } else {
            proof {
                lemma_cached_bytes_push(kept, page);
                lemma_place_absent(kept, hash@);
            }
            self.pages.push(CachedPage { hash, bytes });
            assert(self.pages() == kept.push(page));
        }
        self.used = self.used + length;
        if self.used > self.peak {
            self.peak = self.used;
        }
        Ok(())
    }
}

proof fn lemma_place_hash(pages: Seq<CachedPageView>, hash: Seq<u8>)
    ensures
        place_of(pages, hash) < pages.len() ==> pages[place_of(pages, hash) as int].hash == hash,
    decreases pages.len(),
{
    if pages.len() > 0 && pages[0].hash != hash {
        lemma_place_hash(pages.skip(1), hash);
    }
}

proof fn lemma_place_absent(pages: Seq<CachedPageView>, hash: Seq<u8>)
    requires
        place_of(pages, hash) >= pages.len(),
    ensures
        forall|i: int| 0 <= i < pages.len() ==> (#[trigger] pages[i]).hash != hash,
    decreases pages.len(),
{
    if pages.len() > 0 {
        lemma_place_absent(pages.skip(1), hash);
        assert forall|i: int| 0 <= i < pages.len() implies (#[trigger] pages[i]).hash != hash by {
            if i > 0 {
                assert(pages.skip(1)[i - 1].hash != hash);
            }
        }
    }
}

/// A page that was put into a cache is what a lookup of its hash then finds.
pub proof fn law_inserted_page_is_found(pages: Seq<CachedPageView>, page: CachedPageView)
    ensures
        place_of(with_page(pages, page), page.hash) < with_page(pages, page).len(),
        with_page(pages, page)[place_of(with_page(pages, page), page.hash) as int] == page,
{
    let place = place_of(pages, page.hash) as int;
    let after = with_page(pages, page);
    if place < pages.len() {
        lemma_before_place(pages, page.hash);
        assert forall|i: int| 0 <= i < place implies (#[trigger] after[i]).hash != page.hash by {
            assert(after[i] == pages[i]);
        }
        lemma_place_is(after, page.hash, place);
    } else {
        lemma_place_absent(pages, page.hash);
        assert forall|i: int| 0 <= i < pages.len() implies (#[trigger] after[i]).hash
            != page.hash by {
            assert(after[i] == pages[i]);
        }
        lemma_place_is(after, page.hash, pages.len() as int);
    }
}

proof fn lemma_before_place(pages: Seq<CachedPageView>, hash: Seq<u8>)
    ensures
        forall|i: int|
            0 <= i < place_of(pages, hash) && i < pages.len() ==> (#[trigger] pages[i]).hash
                != hash,
    decreases pages.len(),
{
    if pages.len() > 0 && pages[0].hash != hash {
        lemma_before_place(pages.skip(1), hash);
        assert forall|i: int| 0 <= i < place_of(pages, hash) && i < pages.len() implies (
        #[trigger] pages[i]).hash != hash by {
            if i > 0 {
                assert(pages.skip(1)[i - 1].hash != hash);
            }
        }
    }
}

// ---------------------------------------------------------------------------
// Gate runs
// ---------------------------------------------------------------------------

/// What a run has to do next.
#[derive(Debug, Clone, Copy, PartialEq, Eq, Structural)]
pub enum GateStage {
    Connect,
    PublishBase,
    ProbeResumable,
    Reconnect,
    RecoverBase,
    ReadBase,
    RefetchEvicted,
    RecoverForUpdate,
    StageUpdate,
    RereadStaged,
    PublishUpdate,
    FinalConnect,
    RecoverUpdate,
    ReadUpdate,
    Passed,
}

/// What the outside reported for a stage.
pub enum GateEvent {
    /// An authenticated session.
    Connected { account_id: String, quota_limit: Option<u64>, quota_usage: u64 },
    /// A published generation, with the faults injected and the retries made.
    BasePublished { commit: [u8; 32], pack_bytes: u64, injected: u8, retries: u64 },
    /// The resumable upload: whether the first chunk already completed it, the
    /// offset after the restart, and whether the rest completed it.
    Probed { early: bool, offset: u64, completed: bool },
    /// A recovered repository.
    Recovered { head: [u8; 32], chain_length: u64, generation: u64 },
    /// A batch of random reads.
    Read { incorrect: u64, peak: u64 },
    /// A page read again after it had left the cache.
    Refetched { same: bool, peak: u64 },
    /// The staged pack, as the provider reports it and as it is locally.
    Staged {
        remote_hash: [u8; 32],
        local_hash: [u8; 32],
        remote_bytes: u64,
        local_bytes: u64,
    },
    /// A staged page read again.
    Reread { same: bool },
    /// The published successor generation.
    UpdatePublished { commit: [u8; 32] },
}

/// The alignment of resumable chunks: 256 KiB.
pub const CHUNK_ALIGNMENT: u64 = 262144;

/// The state of a run.
pub struct GateRun {
    pub stage: GateStage,
    pub account_id: String,
    pub quota_available: Option<u64>,
    pub base_commit: [u8; 32],
    pub update_commit: [u8; 32],
    pub base_pack_bytes: u64,
    pub update_pack_bytes: u64,
    pub chain_length: u64,
    pub generation: u64,
    pub incorrect: u64,
    pub base_peak: u64,
    pub update_peak: u64,
}

/// Whether an event reports on a stage.
pub open spec fn belongs_to(event: GateEvent, stage: GateStage) -> bool {
    match stage {
        GateStage::Connect | GateStage::Reconnect | GateStage::FinalConnect => event is Connected,
        GateStage::PublishBase => event is BasePublished,
        GateStage::ProbeResumable => event is Probed,
        GateStage::RecoverBase
        | GateStage::RecoverForUpdate
        | GateStage::RecoverUpdate => event is Recovered,
        GateStage::ReadBase | GateStage::ReadUpdate => event is Read,
        GateStage::RefetchEvicted => event is Refetched,
        GateStage::StageUpdate => event is Staged,
        GateStage::RereadStaged => event is Reread,
        GateStage::PublishUpdate => event is UpdatePublished,
        GateStage::Passed => false,
    }
}

/// The stage that follows a stage.
pub open spec fn following(stage: GateStage) -> GateStage {
    match stage {
        GateStage::Connect => GateStage::PublishBase,
        GateStage::PublishBase => GateStage::ProbeResumable,
        GateStage::ProbeResumable => GateStage::Reconnect,
        GateStage::Reconnect => GateStage::RecoverBase,
        GateStage::RecoverBase => GateStage::ReadBase,
        GateStage::ReadBase => GateStage::RefetchEvicted,
        GateStage::RefetchEvicted => GateStage::RecoverForUpdate,
        GateStage::RecoverForUpdate => GateStage::StageUpdate,
        GateStage::StageUpdate => GateStage::RereadStaged,
        GateStage::RereadStaged => GateStage::PublishUpdate,
        GateStage::PublishUpdate => GateStage::FinalConnect,
        GateStage::FinalConnect => GateStage::RecoverUpdate,
        GateStage::RecoverUpdate => GateStage::ReadUpdate,
        GateStage::ReadUpdate => GateStage::Passed,
        GateStage::Passed => GateStage::Passed,
    }
}

/// The sum of two counts, at most the largest 64-bit number.
pub open spec fn saturated(sum: int) -> int {
    if sum > u64::MAX {
        u64::MAX as int
    } else {
        sum
    }
}

/// Why a run ends at an event, if it does.
pub open spec fn gate_refusal(run: GateRun, event: GateEvent) -> Refusal {
    match event {
        GateEvent::Connected { account_id, quota_limit, quota_usage } => if run.stage
            == GateStage::Reconnect && account_id@ != run.account_id@ {
            Some(
                (
                    MirageErrorKind::BackendUnauthenticated,
                    "Drive account changed across the forced refresh boundary"@,
                ),
            )
        } else if run.stage == GateStage::FinalConnect && account_id@ != run.account_id@ {
            Some(
                (
                    MirageErrorKind::BackendUnauthenticated,
                    "Drive account changed after update restart"@,
                ),
            )
        } else {
            None
        },
        GateEvent::BasePublished { commit, pack_bytes, injected, retries } => if injected != 2
            || retries != 2 {
            Some(
                (
                    MirageErrorKind::InternalInvariant,
                    "Drive gate did not exercise both bounded retry faults"@,
                ),
            )
        } else {
            None
        },
        GateEvent::Probed { early, offset, completed } => if early {
            corrupt("Drive resumable probe completed before restart"@)
        } else if offset != CHUNK_ALIGNMENT {
            corrupt("Drive resumable restart recovered the wrong offset"@)
        } else if !completed {
            corrupt("Drive resumable probe did not complete"@)
        } else {
            None
        },
        GateEvent::Recovered { head, chain_length, generation } => if run.stage
            == GateStage::RecoverBase && (head@ != run.base_commit@ || chain_length != 1
            || generation != 0) {
            corrupt("Drive base generation did not recover authoritatively"@)
        } else if run.stage == GateStage::RecoverForUpdate && (chain_length != 1 || generation
            != 0) {
            Some(
                (
                    MirageErrorKind::RepositoryConflict,
                    "Drive update did not begin from generation N"@,
                ),
            )
        } else if run.stage == GateStage::RecoverUpdate && (head@ != run.update_commit@
            || chain_length != 2 || generation != 1) {
            corrupt("Drive update did not recover as one signed N+1 generation"@)
        } else {
            None
        },
        GateEvent::Read { incorrect, peak } => if run.stage == GateStage::ReadUpdate && saturated(
            run.incorrect + incorrect,
        ) != 0 {
            corrupt("Drive gate random reads differed from the deterministic byte oracle"@)
        } else {
            None
        },
        GateEvent::Refetched { same, peak } => if !same || peak > PAGE_BYTES {
            corrupt("Drive cache eviction/refetch changed a verified page"@)
        } else {
            None
        },
        GateEvent::Staged { remote_hash, local_hash, remote_bytes, local_bytes } => if remote_hash@
            != local_hash@ || remote_bytes != local_bytes {
            corrupt("Drive update staging pack failed remote verification"@)
        } else {
            None
        },
        GateEvent::Reread { same } => if !same {
            corrupt("Drive staged page changed after local eviction and remote reread"@)
        } else {
            None
        },
        GateEvent::UpdatePublished { commit } => None,
    }
}

/// The state of a run after an event that it accepts.
pub open spec fn gate_after(run: GateRun, event: GateEvent) -> GateRun {
    let next = GateRun { stage: following(run.stage), ..run };
    match event {
        GateEvent::Connected { account_id, quota_limit, quota_usage } => if run.stage
            == GateStage::Connect {
            GateRun {
                account_id,
                quota_available: match quota_limit {
                    Some(limit) => Some(
                        (if limit >= quota_usage {
                            limit - quota_usage
                        } else {
                            0
                        }) as u64,
                    ),
                    None => None,
                },
                ..next
            }
        } else {
            next
        },
        GateEvent::BasePublished { commit, pack_bytes, injected, retries } => GateRun {
            base_commit: commit,
            base_pack_bytes: pack_bytes,
            ..next
        },
        GateEvent::Recovered { head, chain_length, generation } => GateRun {
            chain_length,
            generation,
            ..next
        },
        GateEvent::Read { incorrect, peak } => if run.stage == GateStage::ReadBase {
            GateRun { incorrect, base_peak: peak, ..next }
        } else {
            GateRun {
                incorrect: saturated(run.incorrect + incorrect) as u64,
                update_peak: peak,
                ..next
            }
        },
        GateEvent::Staged { remote_hash, local_hash, remote_bytes, local_bytes } => GateRun {
            update_pack_bytes: local_bytes,
            ..next
        },
        GateEvent::UpdatePublished { commit } => GateRun { update_commit: commit, ..next },
        _ => next,
    }
}

fn next_stage(stage: GateStage) -> (next: GateStage)
    ensures
        next == following(stage),
{
    match stage {
        GateStage::Connect => GateStage::PublishBase,
        GateStage::PublishBase => GateStage::ProbeResumable,
        GateStage::ProbeResumable => GateStage::Reconnect,
        GateStage::Reconnect => GateStage::RecoverBase,
        GateStage::RecoverBase => GateStage::ReadBase,
        GateStage::ReadBase => GateStage::RefetchEvicted,
        GateStage::RefetchEvicted => GateStage::RecoverForUpdate,
        GateStage::RecoverForUpdate => GateStage::StageUpdate,
        GateStage::StageUpdate => GateStage::RereadStaged,
        GateStage::RereadStaged => GateStage::PublishUpdate,
        GateStage::PublishUpdate => GateStage::FinalConnect,
        GateStage::FinalConnect => GateStage::RecoverUpdate,
        GateStage::RecoverUpdate => GateStage::ReadUpdate,
        GateStage::ReadUpdate => GateStage::Passed,
        GateStage::Passed => GateStage::Passed,
    }
}

fn saturating_sum(left: u64, right: u64) -> (sum: u64)
    ensures
        sum == saturated(left + right),
{
    if left > u64::MAX - right {
        u64::MAX
    } else {
        left + right
    }
}

impl GateRun {
    /// A run that has done nothing yet.
    pub fn begin() -> (run: GateRun)
        ensures
            run.stage == GateStage::Connect,
            run.account_id@ == ""@,
            run.quota_available is None,
            run.base_pack_bytes == 0,
            run.update_pack_bytes == 0,
            run.chain_length == 0,
            run.generation == 0,
            run.incorrect == 0,
            run.base_peak == 0,
            run.update_peak == 0,
    {
        GateRun {
            stage: GateStage::Connect,
            account_id: "".to_owned(),
            quota_available: None,
            base_commit: [0u8; 32],
            update_commit: [0u8; 32],
            base_pack_bytes: 0,
            update_pack_bytes: 0,
            chain_length: 0,
            generation: 0,
            incorrect: 0,
            base_peak: 0,
            update_peak: 0,
        }
    }

    /// Takes the report on the current stage and moves on to the next. A report
    /// that fails a check ends the run with that check's error.
    pub fn advance(self, event: GateEvent) -> (next: Result<GateRun, MirageError>)
        ensures
            answers(
                next,
                if !belongs_to(event, self.stage) {
                    Some(
                        (
                            MirageErrorKind::InternalInvariant,
                            "Drive gate report does not belong to its stage"@,
                        ),
                    )
                } else {
                    gate_refusal(self, event)
                },
            ),
            next matches Ok(run) ==> run == gate_after(self, event),
    {
        let stage = self.stage;
        let after = next_stage(stage);
        match event {
            GateEvent::Connected { account_id, quota_limit, quota_usage } => {
                if stage == GateStage::Connect {
                    let quota_available = match quota_limit {
                        Some(limit) => Some(
                            if limit >= quota_usage {
                                limit - quota_usage
                            } else {
                                0
                            },
                        ),
                        None => None,
                    };
                    return Ok(GateRun { stage: after, account_id, quota_available, ..self });
                }
                if stage != GateStage::Reconnect && stage != GateStage::FinalConnect {
                    return Err(misplaced());
                }
                if !same_text(account_id.as_str(), self.account_id.as_str()) {
                    return Err(
                        MirageError::backend_unauthenticated(
                            if stage == GateStage::Reconnect {
                                "Drive account changed across the forced refresh boundary"
                            } else {
                                "Drive account changed after update restart"
                            },
                        ),
                    );
                }
                Ok(GateRun { stage: after, ..self })
            },
            GateEvent::BasePublished { commit, pack_bytes, injected, retries } => {
                if stage != GateStage::PublishBase {
                    return Err(misplaced());
                }
                if injected != 2 || retries != 2 {
                    return Err(
                        MirageError::internal_invariant(
                            "Drive gate did not exercise both bounded retry faults",
                        ),
                    );
                }
                Ok(
                    GateRun {
                        stage: after,
                        base_commit: commit,
                        base_pack_bytes: pack_bytes,
                        ..self
                    },
                )
            },
            GateEvent::Probed { early, offset, completed } => {
                if stage != GateStage::ProbeResumable {
                    return Err(misplaced());
                }
                if early {
                    return Err(
                        MirageError::integrity_mismatch(
                            "Drive resumable probe completed before restart",
                        ),
                    );
                }
                if offset != CHUNK_ALIGNMENT {
                    return Err(
                        MirageError::integrity_mismatch(
                            "Drive resumable restart recovered the wrong offset",
                        ),
                    );
                }
                if !completed {
                    return Err(
                        MirageError::integrity_mismatch("Drive resumable probe did not complete"),
                    );
                }
                Ok(GateRun { stage: after, ..self })
            },
            GateEvent::Recovered { head, chain_length, generation } => {
                if stage == GateStage::RecoverBase {
                    if !same_bytes(&head, &self.base_commit) || chain_length != 1 || generation
                        != 0 {
                        return Err(
                            MirageError::integrity_mismatch(
                                "Drive base generation did not recover authoritatively",
                            ),
                        );
                    }
                } else if stage == GateStage::RecoverForUpdate {
                    if chain_length != 1 || generation != 0 {
                        return Err(
                            MirageError::repository_conflict(
                                "Drive update did not begin from generation N",
                            ),
                        );
                    }
                } else if stage == GateStage::RecoverUpdate {
                    if !same_bytes(&head, &self.update_commit) || chain_length != 2 || generation
                        != 1 {
                        return Err(
                            MirageError::integrity_mismatch(
                                "Drive update did not recover as one signed N+1 generation",
                            ),
                        );
                    }
                } else {
                    return Err(misplaced());
                }
                Ok(GateRun { stage: after, chain_length, generation, ..self })
            },
            GateEvent::Read { incorrect, peak } => {
                if stage == GateStage::ReadBase {
                    return Ok(GateRun { stage: after, incorrect, base_peak: peak, ..self });
                }
                if stage != GateStage::ReadUpdate {
                    return Err(misplaced());
                }
                let total: u64 = saturating_sum(self.incorrect, incorrect);
                if total != 0 {
                    return Err(
                        MirageError::integrity_mismatch(
                            "Drive gate random reads differed from the deterministic byte oracle",
                        ),
                    );
                }
                Ok(GateRun { stage: after, incorrect: total, update_peak: peak, ..self })
            },
            GateEvent::Refetched { same, peak } => {
                if stage != GateStage::RefetchEvicted {
                    return Err(misplaced());
                }
                if !same || peak > PAGE_BYTES {
                    return Err(
                        MirageError::integrity_mismatch(
                            "Drive cache eviction/refetch changed a verified page",
                        ),
                    );
                }
                Ok(GateRun { stage: after, ..self })
            },
            GateEvent::Staged { remote_hash, local_hash, remote_bytes, local_bytes } => {
                if stage != GateStage::StageUpdate {
                    return Err(misplaced());
                }
                if !same_bytes(&remote_hash, &local_hash) || remote_bytes != local_bytes {
                    return Err(
                        MirageError::integrity_mismatch(
                            "Drive update staging pack failed remote verification",
                        ),
                    );
                }
                Ok(GateRun { stage: after, update_pack_bytes: local_bytes, ..self })
            },
            GateEvent::Reread { same } => {
                if stage != GateStage::RereadStaged {
                    return Err(misplaced());
                }
                if !same {
                    return Err(
                        MirageError::integrity_mismatch(
                            "Drive staged page changed after local eviction and remote reread",
                        ),
                    );
                }
                Ok(GateRun { stage: after, ..self })
            },
            GateEvent::UpdatePublished { commit } => {
                if stage != GateStage::PublishUpdate {
                    return Err(misplaced());
                }
                Ok(GateRun { stage: after, update_commit: commit, ..self })
            },
        }
    }
}

fn misplaced() -> (error: MirageError)
    ensures
        error.kind == MirageErrorKind::InternalInvariant,
        error.message@ == "Drive gate report does not belong to its stage"@,
{
    MirageError::internal_invariant("Drive gate report does not belong to its stage")
}

/// What a run has established once it has reached a stage.
pub open spec fn gate_invariant(run: GateRun) -> bool {
    &&& run.stage == GateStage::Passed ==> {
        &&& run.incorrect == 0
        &&& run.chain_length == 2
        &&& run.generation == 1
    }
    &&& run.stage == GateStage::ReadUpdate ==> run.chain_length == 2 && run.generation == 1
}

/// A course of a run: its states, and the accepted reports between them.
pub open spec fn gate_course(runs: Seq<GateRun>, events: Seq<GateEvent>) -> bool {
    &&& runs.len() == events.len() + 1
    &&& runs[0].stage == GateStage::Connect
    &&& forall|i: int|
        0 <= i < events.len() ==> {
            &&& belongs_to(#[trigger] events[i], runs[i].stage)
            &&& gate_refusal(runs[i], events[i]) is None
            &&& runs[i + 1] == gate_after(runs[i], events[i])
        }
}

/// Whatever is reported, a run passes only if no random read differed from the
/// oracle and the update was recovered as the one signed successor.
pub proof fn law_passed_run_is_correct(runs: Seq<GateRun>, events: Seq<GateEvent>)
    requires
        gate_course(runs, events),
        runs.last().stage == GateStage::Passed,
    ensures
        runs.last().incorrect == 0,
        runs.last().chain_length == 2,
        runs.last().generation == 1,
{
    lemma_course_keeps_invariant(runs, events);
}

proof fn lemma_course_keeps_invariant(runs: Seq<GateRun>, events: Seq<GateEvent>)
    requires
        gate_course(runs, events),
    ensures
        gate_invariant(runs.last()),
    decreases events.len(),
{
    if events.len() > 0 {
        let last = events.len() - 1;
        let earlier = runs.drop_last();
        let fewer = events.drop_last();
        assert(belongs_to(events[last], runs[last].stage));
        assert forall|i: int| 0 <= i < fewer.len() implies {
            &&& belongs_to(#[trigger] fewer[i], earlier[i].stage)
            &&& gate_refusal(earlier[i], fewer[i]) is None
            &&& earlier[i + 1] == gate_after(earlier[i], fewer[i])
        } by {
            assert(belongs_to(events[i], runs[i].stage));
        }
        lemma_course_keeps_invariant(earlier, fewer);
        assert(earlier.last() == runs[last]);
        assert(runs.last() == gate_after(runs[last], events[last]));
    }
}

/// Every session of a run is one of the same account, and what is recovered is
/// what was published.
pub proof fn law_accepted_reports_agree(run: GateRun, event: GateEvent)
    requires
        belongs_to(event, run.stage),
        gate_refusal(run, event) is None,
    ensures
        run.stage == GateStage::Reconnect || run.stage == GateStage::FinalConnect
            ==> event->account_id@ == run.account_id@,
        run.stage == GateStage::RecoverBase ==> event->head@ == run.base_commit@,
        run.stage == GateStage::RecoverUpdate ==> event->head@ == run.update_commit@,
{
}

/// What a passed run reports.
pub struct DriveGateEvidence {
    pub evidence_version: u32,
    pub status: String,
    pub completed_unix_seconds: u64,
    pub account_binding_verified: bool,
    pub exact_drive_file_scope_verified: bool,
    pub token_refreshes_verified: u32,
    pub logical_corpus_bytes: u64,
    pub base_unique_physical_bytes: u64,
    pub updated_logical_bytes: u64,
    pub update_unique_physical_bytes: u64,
    pub encrypted_frames: bool,
    pub signed_chain_length: u64,
    pub authoritative_generation: u64,
    pub gate_d_random_reads: u64,
    pub gate_f_random_reads: u64,
    pub incorrect_bytes: u64,
    pub gate_d_cache_cap_bytes: u64,
    pub gate_d_peak_cache_bytes: u64,
    pub gate_f_cache_cap_bytes: u64,
    pub gate_f_peak_cache_bytes: u64,
    pub cache_eviction_refetch_verified: bool,
    pub staging_eviction_refetch_verified: bool,
    pub stale_hint_fallback_verified: bool,
    pub resumable_restart_verified: bool,
    pub injected_http_429: u32,
    pub injected_disconnects: u32,
    pub bounded_retry_attempts: bool,
    pub provider: ProviderTotals,
    pub quota_available_before_bytes: Option<u64>,
    pub physical_model: &'static str,
}

/// What the sessions of a run cost.
#[derive(Debug, Clone, Copy, PartialEq, Eq, Structural)]
pub struct ProviderTotals {
    pub requests: u64,
    pub retries: u64,
    pub uploaded_bytes: u64,
    pub downloaded_bytes: u64,
}

/// Whether the costs of two sessions can be added.
pub open spec fn addable(one: ProviderTotals, other: ProviderTotals) -> bool {
    &&& one.requests + other.requests <= u64::MAX
    &&& one.retries + other.retries <= u64::MAX
    &&& one.uploaded_bytes + other.uploaded_bytes <= u64::MAX
    &&& one.downloaded_bytes + other.downloaded_bytes <= u64::MAX
}

/// The costs of two sessions together, if they can be added.
pub fn combined(one: ProviderTotals, other: ProviderTotals) -> (totals: Option<ProviderTotals>)
    ensures
        totals is Some == addable(one, other),
        totals matches Some(totals) ==> {
            &&& totals.requests == one.requests + other.requests
            &&& totals.retries == one.retries + other.retries
            &&& totals.uploaded_bytes == one.uploaded_bytes + other.uploaded_bytes
            &&& totals.downloaded_bytes == one.downloaded_bytes + other.downloaded_bytes
        },
{
    match (
        one.requests.checked_add(other.requests),
        one.retries.checked_add(other.retries),
        one.uploaded_bytes.checked_add(other.uploaded_bytes),
        one.downloaded_bytes.checked_add(other.downloaded_bytes),
    ) {
        (Some(requests), Some(retries), Some(uploaded_bytes), Some(downloaded_bytes)) => Some(
            ProviderTotals { requests, retries, uploaded_bytes, downloaded_bytes },
        ),
        _ => None,
    }
}

/// The cache cap of the reads of a generation: one page for each unique page.
pub open spec fn cache_cap_of(updated: bool) -> u64 {
    if updated {
        83886080
    } else {
        67108864
    }
}

/// The cache cap of the reads of a generation: one page for each unique page.
pub fn cache_cap(updated: bool) -> (cap: u64)
    ensures
        cap == cache_cap_of(updated),
        cap == PAGE_BYTES * (BASE_UNIQUE_PAGES + if updated {
            UPDATE_UNIQUE_PAGES as int
        } else {
            0
        }),
{
    if updated {
        83886080
    } else {
        67108864
    }
}

/// The evidence of a run, if it has passed.
pub fn evidence(run: &GateRun, completed_unix_seconds: u64, provider: ProviderTotals) -> (evidence:
    Option<DriveGateEvidence>)
    ensures
        evidence is Some <==> run.stage == GateStage::Passed,
        evidence matches Some(evidence) ==> {
            &&& evidence.evidence_version == 1
            &&& evidence.status@ == "passed"@
            &&& evidence.completed_unix_seconds == completed_unix_seconds
            &&& evidence.account_binding_verified
            &&& evidence.exact_drive_file_scope_verified
            &&& evidence.token_refreshes_verified == 3
            &&& evidence.encrypted_frames
            &&& evidence.cache_eviction_refetch_verified
            &&& evidence.staging_eviction_refetch_verified
            &&& evidence.stale_hint_fallback_verified
            &&& evidence.resumable_restart_verified
            &&& evidence.bounded_retry_attempts
            &&& evidence.provider == provider
            &&& evidence.physical_model@
                == "100 GiB logical corpus backed by 64 deterministic encrypted unique pages; 25 GiB logical update backed by 16 new encrypted unique pages"@
            &&& evidence.logical_corpus_bytes == LOGICAL_BYTES
            &&& evidence.base_unique_physical_bytes == run.base_pack_bytes
            &&& evidence.updated_logical_bytes == UPDATED_LOGICAL_BYTES
            &&& evidence.update_unique_physical_bytes == run.update_pack_bytes
            &&& evidence.signed_chain_length == run.chain_length
            &&& evidence.authoritative_generation == run.generation
            &&& evidence.gate_d_random_reads == RANDOM_READS
            &&& evidence.gate_f_random_reads == RANDOM_READS
            &&& evidence.incorrect_bytes == run.incorrect
            &&& evidence.gate_d_cache_cap_bytes == cache_cap_of(false)
            &&& evidence.gate_d_peak_cache_bytes == run.base_peak
            &&& evidence.gate_f_cache_cap_bytes == cache_cap_of(true)
            &&& evidence.gate_f_peak_cache_bytes == run.update_peak
            &&& evidence.injected_http_429 == 1
            &&& evidence.injected_disconnects == 1
            &&& evidence.quota_available_before_bytes == run.quota_available
        },
{
    if run.stage != GateStage::Passed {
        return None;
    }
    Some(
        DriveGateEvidence {
            evidence_version: 1,
            status: "passed".to_owned(),
            completed_unix_seconds,
            account_binding_verified: true,
            exact_drive_file_scope_verified: true,
            token_refreshes_verified: 3,
            logical_corpus_bytes: LOGICAL_BYTES,
            base_unique_physical_bytes: run.base_pack_bytes,
            updated_logical_bytes: UPDATED_LOGICAL_BYTES,
            update_unique_physical_bytes: run.update_pack_bytes,
            encrypted_frames: true,
            signed_chain_length: run.chain_length,
            authoritative_generation: run.generation,
            gate_d_random_reads: RANDOM_READS,
            gate_f_random_reads: RANDOM_READS,
            incorrect_bytes: run.incorrect,
            gate_d_cache_cap_bytes: cache_cap(false),
            gate_d_peak_cache_bytes: run.base_peak,
            gate_f_cache_cap_bytes: cache_cap(true),
            gate_f_peak_cache_bytes: run.update_peak,
            cache_eviction_refetch_verified: true,
            staging_eviction_refetch_verified: true,
            stale_hint_fallback_verified: true,
            resumable_restart_verified: true,
            injected_http_429: 1,
            injected_disconnects: 1,
            bounded_retry_attempts: true,
            provider,
            physical_model: "100 GiB logical corpus backed by 64 deterministic encrypted unique pages; 25 GiB logical update backed by 16 new encrypted unique pages",
            quota_available_before_bytes: run.quota_available,
        },
    )
}

// ---------------------------------------------------------------------------
// Packs and injected faults
// ---------------------------------------------------------------------------

/// What to do with the packs found in a gate directory.
#[derive(Debug, Clone, Copy, PartialEq, Eq, Structural)]
pub enum PackChoice {
    /// There is none: write one.
    Create,
    /// There is one: verify it.
    Verify,
}

/// Decides by the number of packs found in a directory.
pub fn choose_pack(found: usize) -> (choice: Result<PackChoice, MirageError>)
    ensures
        answers(
            choice,
            if found > 1 {
                Some(
                    (
                        MirageErrorKind::RepositoryConflict,
                        "Drive gate pack directory contains multiple immutable packs"@,
                    ),
                )
            } else {
                None
            },
        ),
        choice matches Ok(choice) ==> choice == if found == 0 {
            PackChoice::Create
        } else {
            PackChoice::Verify
        },
{
    if found > 1 {
        return Err(
            MirageError::repository_conflict(
                "Drive gate pack directory contains multiple immutable packs",
            ),
        );
    }
    if found == 0 {
        Ok(PackChoice::Create)
    } else {
        Ok(PackChoice::Verify)
    }
}

/// Whether a list of pages holds exactly the generated pages of a domain.
pub open spec fn is_generated(pages: Seq<Vec<u8>>, domain: Seq<char>) -> bool {
    forall|i: int|
        0 <= i < pages.len() ==> (#[trigger] pages[i])@ == page_bytes(
            domain,
            i as u32,
            0,
            PAGE_BYTES as nat,
        )
}

/// Checks a persisted pack against the generated pages of a domain.
pub fn verify_pack(encrypted: bool, pages: &Vec<Vec<u8>>, domain: &str, unique_pages: u32) -> (verdict:
    Result<(), MirageError>)
    ensures
        answers(
            verdict,
            if !encrypted || pages@.len() != unique_pages {
                corrupt("persisted Drive gate pack has the wrong encryption or page count"@)
            } else if !is_generated(pages@, domain@) {
                corrupt("persisted Drive gate pack differs from its deterministic oracle"@)
            } else {
                None
            },
        ),
{
    if !encrypted || pages.len() as u64 != unique_pages as u64 {
        return Err(
            MirageError::integrity_mismatch(
                "persisted Drive gate pack has the wrong encryption or page count",
            ),
        );
    }
    let mut at: u32 = 0;
    while at < unique_pages
        invariant
            encrypted,
            at <= unique_pages,
            pages@.len() == unique_pages,
            forall|i: int|
                0 <= i < at ==> (#[trigger] pages@[i])@ == page_bytes(
                    domain@,
                    i as u32,
                    0,
                    PAGE_BYTES as nat,
                ),
        decreases unique_pages - at,
    {
        let expected = gate_page(domain, at);
        if !same_bytes(pages[at as usize].as_slice(), expected.as_slice()) {
            assert(pages@[at as int]@ != page_bytes(domain@, at, 0, PAGE_BYTES as nat));
            return Err(
                MirageError::integrity_mismatch(
                    "persisted Drive gate pack differs from its deterministic oracle",
                ),
            );
        }
        at = at + 1;
    }
    Ok(())
}

/// What the fault injector does with a request.
#[derive(Debug, Clone, Copy, PartialEq, Eq, Structural)]
pub enum InjectedFault {
    /// Answer with status 429 and a retry delay of zero.
    TooManyRequests,
    /// Fail as an interrupted connection does.
    Interruption,
    /// Hand the request on.
    PassThrough,
}

/// Injects one fault of each kind, then none: the state counts the faults.
#[derive(Debug, Clone, Copy, PartialEq, Eq, Structural)]
pub struct FaultOnce {
    phase: u8,
}

impl FaultOnce {
    /// How many faults were injected.
    pub closed spec fn count(&self) -> nat {
        self.phase as nat
    }

    pub fn new() -> (faults: FaultOnce)
        ensures
            faults.count() == 0,
    {
        FaultOnce { phase: 0 }
    }

    /// How many faults were injected: at most two.
    pub fn injected(&self) -> (count: u8)
        ensures
            count == if self.count() < 2 {
                self.count()
            } else {
                2
            },
    {
        if self.phase < 2 {
            self.phase
        } else {
            2
        }
    }

    /// Decides on the next request.
    pub fn next(&mut self) -> (fault: InjectedFault)
        ensures
            fault == if old(self).count() == 0 {
                InjectedFault::TooManyRequests
            } else if old(self).count() == 1 {
                InjectedFault::Interruption
            } else {
                InjectedFault::PassThrough
            },
            final(self).count() == if old(self).count() < 2 {
                old(self).count() + 1
            } else {
                old(self).count()
            },
    {
        if self.phase == 0 {
            self.phase = 1;
            InjectedFault::TooManyRequests
        } else if self.phase == 1 {
            self.phase = 2;
            InjectedFault::Interruption
        } else {
            InjectedFault::PassThrough
        }
    }
}

/// Whether a gate may keep its state in a directory.
pub fn check_work_directory(absolute: bool, inside_source: bool) -> (verdict: Result<
    (),
    MirageError,
>)
    ensures
        answers(
            verdict,
            if !absolute {
                invalid("Drive gate work directory must be absolute"@)
            } else if inside_source {
                invalid("Drive gate state must remain outside the source repository"@)
            } else {
                None
            },
        ),
{
    if !absolute {
        return Err(MirageError::invalid_argument("Drive gate work directory must be absolute"));
    }
    if inside_source {
        return Err(
            MirageError::invalid_argument(
                "Drive gate state must remain outside the source repository",
            ),
        );
    }
    Ok(())
}

} // verus!
