//! Diagnostics and their archive.

use vstd::prelude::*;
use crate::bytes::{law_le16_round_trip, law_le32_round_trip, le16, le16_at, le32, le32_at};
use crate::cli::diagnostics::{
    archive, assemble, build_zip, central_entries, central_entry, civil_date, collects, crc32,
    entry_name, epoch_days, leap, local_entries, local_entry, name_bytes, timestamp, versions,
    versions_text, ArchiveFile, CivilDate, FoundExecutable,
};
use crate::crypto::primitives::sha256_digest;
use crate::text::{begins_with, contains_text, finishes_with, hex_text, occurs_at, padded_text};

verus! {

/// Every file of an archive stands in it whole: its name and its contents behind a header with
/// its lengths and its checksum.
pub proof fn law_archived_files_are_whole(files: &Vec<ArchiveFile>, bytes: Vec<u8>, at: int)
    requires
        call_ensures(build_zip, (files,), bytes),
        0 <= at < files@.len(),
        files@[at].bytes@.len() <= u32::MAX,
        name_bytes(files@[at]).len() <= u16::MAX,
    ensures
        exists|offset: int| #[trigger] holds_file(bytes@, offset, files@[at]),
{
    lemma_stands_in_archive(files, bytes, at);
}

proof fn lemma_stands_in_archive(files: &Vec<ArchiveFile>, bytes: Vec<u8>, at: int)
    requires
        call_ensures(build_zip, (files,), bytes),
        0 <= at < files@.len(),
        files@[at].bytes@.len() <= u32::MAX,
        name_bytes(files@[at]).len() <= u16::MAX,
    ensures
        holds_file(bytes@, local_entries(files@.take(at)).len() as int, files@[at]),
{
    crate::cli::diagnostics::law_offsets_point_at_the_files(files@, at);
    lemma_local_fields(files@[at]);
    lemma_held_in(
        bytes@,
        local_entries(files@.take(at)).len() as int,
        local_entry(files@[at]),
        files@[at],
    );
}

proof fn lemma_held_in(all: Seq<u8>, offset: int, entry: Seq<u8>, file: ArchiveFile)
    requires
        0 <= offset,
        offset + entry.len() <= all.len(),
        all.subrange(offset, offset + entry.len()) == entry,
        holds_file(entry, 0, file),
    ensures
        holds_file(all, offset, file),
{
    let name = name_bytes(file);
    let size = file.bytes@.len();
    lemma_read(all, offset, entry, 0);
    lemma_read(all, offset, entry, 8);
    lemma_read(all, offset, entry, 14);
    lemma_read(all, offset, entry, 18);
    lemma_read(all, offset, entry, 22);
    lemma_read(all, offset, entry, 26);
    lemma_within(all, offset, entry, 30, 30 + name.len() as int);
    lemma_within(all, offset, entry, 30 + name.len() as int, 30 + (name.len() + size) as int);
}

proof fn lemma_recorded_in(
    all: Seq<u8>,
    place: int,
    entry: Seq<u8>,
    file: ArchiveFile,
    offset: u32,
)
    requires
        0 <= place,
        place + entry.len() <= all.len(),
        all.subrange(place, place + entry.len()) == entry,
        records_file(entry, 0, file, offset),
    ensures
        records_file(all, place, file, offset),
{
    let name = name_bytes(file);
    lemma_read(all, place, entry, 0);
    lemma_read(all, place, entry, 16);
    lemma_read(all, place, entry, 20);
    lemma_read(all, place, entry, 24);
    lemma_read(all, place, entry, 28);
    lemma_read(all, place, entry, 42);
    lemma_within(all, place, entry, 46, 46 + name.len() as int);
}

#[verifier::spinoff_prover]
proof fn lemma_local_fields(file: ArchiveFile)
    requires
        file.bytes@.len() <= u32::MAX,
        name_bytes(file).len() <= u16::MAX,
    ensures
        holds_file(local_entry(file), 0, file),
{
    let entry = local_entry(file);
    let name = name_bytes(file);
    assert(entry.subrange(0, 4) =~= le32(0x04034b50));
    assert(entry.subrange(8, 10) =~= le16(0));
    assert(entry.subrange(14, 18) =~= le32(crc32(file.bytes@)));
    assert(entry.subrange(18, 22) =~= le32(file.bytes@.len() as u32));
    assert(entry.subrange(22, 26) =~= le32(file.bytes@.len() as u32));
    assert(entry.subrange(26, 28) =~= le16(name.len() as u16));
    assert(entry.subrange(30, 30 + name.len() as int) =~= name);
    assert(entry.len() == 30 + name.len() + file.bytes@.len());
    assert(entry.subrange(30 + name.len() as int, entry.len() as int)
        =~= file.bytes@);
    law_le32_round_trip(entry, 0, 0x04034b50);
    law_le16_round_trip(entry, 8, 0);
    law_le32_round_trip(entry, 14, crc32(file.bytes@));
    law_le32_round_trip(entry, 18, file.bytes@.len() as u32);
    law_le32_round_trip(entry, 22, file.bytes@.len() as u32);
    law_le16_round_trip(entry, 26, name.len() as u16);
}

#[verifier::spinoff_prover]
proof fn lemma_central_fields(file: ArchiveFile, offset: u32)
    requires
        file.bytes@.len() <= u32::MAX,
        name_bytes(file).len() <= u16::MAX,
    ensures
        records_file(central_entry(file, offset), 0, file, offset),
{
    let entry = central_entry(file, offset);
    let name = name_bytes(file);
    assert(entry.subrange(0, 4) =~= le32(0x02014b50));
    assert(entry.subrange(16, 20) =~= le32(crc32(file.bytes@)));
    assert(entry.subrange(20, 24) =~= le32(file.bytes@.len() as u32));
    assert(entry.subrange(24, 28) =~= le32(file.bytes@.len() as u32));
    assert(entry.subrange(28, 30) =~= le16(name.len() as u16));
    assert(entry.subrange(42, 46) =~= le32(offset));
    assert(entry.subrange(46, 46 + name.len() as int) =~= name);
    law_le32_round_trip(entry, 0, 0x02014b50);
    law_le32_round_trip(entry, 16, crc32(file.bytes@));
    law_le32_round_trip(entry, 20, file.bytes@.len() as u32);
    law_le32_round_trip(entry, 24, file.bytes@.len() as u32);
    law_le16_round_trip(entry, 28, name.len() as u16);
    law_le32_round_trip(entry, 42, offset);
}

proof fn lemma_read(all: Seq<u8>, offset: int, part: Seq<u8>, at: int)
    requires
        0 <= offset,
        offset + part.len() <= all.len(),
        all.subrange(offset, offset + part.len()) == part,
        0 <= at,
        at + 4 <= part.len(),
    ensures
        le32_at(all, offset + at) == le32_at(part, at),
        le16_at(all, offset + at) == le16_at(part, at),
{
    assert(part[at] == all[offset + at]);
    assert(part[at + 1] == all[offset + at + 1]);
    assert(part[at + 2] == all[offset + at + 2]);
    assert(part[at + 3] == all[offset + at + 3]);
}

proof fn lemma_within(all: Seq<u8>, offset: int, part: Seq<u8>, from: int, to: int)
    requires
        0 <= offset,
        offset + part.len() <= all.len(),
        all.subrange(offset, offset + part.len()) == part,
        0 <= from <= to <= part.len(),
    ensures
        all.subrange(offset + from, offset + to) == part.subrange(from, to),
{
    assert(all.subrange(offset + from, offset + to) =~= part.subrange(from, to)) by {
        assert forall|i: int| from <= i < to implies all[offset + i] == part[i] by {
            assert(all.subrange(offset, offset + part.len())[i] == all[offset + i]);
        }
    }
}

/// At a place of an archive stands a file, stored as it is.
pub open spec fn holds_file(all: Seq<u8>, offset: int, file: ArchiveFile) -> bool {
    let name = name_bytes(file);
    let size = file.bytes@.len();
    &&& 0 <= offset
    &&& offset + 30 + name.len() + size <= all.len()
    &&& le32_at(all, offset) == 0x04034b50
    &&& le16_at(all, offset + 8) == 0
    &&& le32_at(all, offset + 14) == crc32(file.bytes@)
    &&& le32_at(all, offset + 18) == size
    &&& le32_at(all, offset + 22) == size
    &&& le16_at(all, offset + 26) == name.len()
    &&& all.subrange(offset + 30, offset + 30 + name.len()) == name
    &&& all.subrange(offset + 30 + name.len(), offset + 30 + name.len() + size) == file.bytes@
}

/// The end of an archive says how many files there are and where their directory begins.
pub proof fn law_archive_ends_in_its_directory(files: &Vec<ArchiveFile>, bytes: Vec<u8>)
    requires
        call_ensures(build_zip, (files,), bytes),
        files@.len() <= u16::MAX,
        local_entries(files@).len() <= u32::MAX,
        central_entries(files@).len() <= u32::MAX,
    ensures
        ({
            let all = bytes@;
            let end = all.len() - 22;
            &&& end >= 0
            &&& le32_at(all, end) == 0x06054b50
            &&& le16_at(all, end + 8) == files@.len()
            &&& le16_at(all, end + 10) == files@.len()
            &&& le32_at(all, end + 12) + le32_at(all, end + 16) == end
        }),
{
    let all = bytes@;
    let end = all.len() - 22;
    let central = central_entries(files@);
    let local = local_entries(files@);
    let record = crate::cli::diagnostics::end_record(
        files@.len() as int,
        central.len() as int,
        local.len() as int,
    );
    assert(record.len() == 22);
    assert(all.subrange(end, end + 22) =~= record);
    assert(record.subrange(0, 4) =~= le32(0x06054b50));
    assert(record.subrange(8, 10) =~= le16(files@.len() as u16));
    assert(record.subrange(10, 12) =~= le16(files@.len() as u16));
    assert(record.subrange(12, 16) =~= le32(central.len() as u32));
    assert(record.subrange(16, 20) =~= le32(local.len() as u32));
    lemma_within(all, end, record, 0, 4);
    lemma_within(all, end, record, 8, 10);
    lemma_within(all, end, record, 10, 12);
    lemma_within(all, end, record, 12, 16);
    lemma_within(all, end, record, 16, 20);
    law_le32_round_trip(all, end, 0x06054b50);
    law_le16_round_trip(all, end + 8, files@.len() as u16);
    law_le16_round_trip(all, end + 10, files@.len() as u16);
    law_le32_round_trip(all, end + 12, central.len() as u32);
    law_le32_round_trip(all, end + 16, local.len() as u32);
}

/// The directory of an archive has a record of each file, and the place that the record tells is
/// the place at which the file stands.
pub proof fn law_directory_leads_to_each_file(files: &Vec<ArchiveFile>, bytes: Vec<u8>, at: int)
    requires
        call_ensures(build_zip, (files,), bytes),
        0 <= at < files@.len(),
        bytes@.len() <= u32::MAX,
        name_bytes(files@[at]).len() <= u16::MAX,
    ensures
        exists|place: int| #[trigger] leads_to_file(bytes@, place, files@[at]),
{
    let all = bytes@;
    let file = files@[at];
    let offset = local_entries(files@.take(at)).len() as int;
    lemma_size(files, bytes, at);
    lemma_stands_in_archive(files, bytes, at);
    lemma_recorded_at(files@, at);
    lemma_central_fields(file, offset as u32);
    let entry = central_entry(file, offset as u32);
    let inner = central_entries(files@.take(at)).len() as int;
    let place = local_entries(files@).len() + inner;
    lemma_directory_part(files, bytes, inner, entry);
    lemma_recorded_in(all, place, entry, file, offset as u32);
    assert(leads_to_file(all, place, file));
}

proof fn lemma_size(files: &Vec<ArchiveFile>, bytes: Vec<u8>, at: int)
    requires
        call_ensures(build_zip, (files,), bytes),
        0 <= at < files@.len(),
    ensures
        local_entries(files@.take(at)).len() + files@[at].bytes@.len() <= bytes@.len(),
{
    crate::cli::diagnostics::law_offsets_point_at_the_files(files@, at);
    assert(files@[at].bytes@.len() <= local_entry(files@[at]).len());
}

proof fn lemma_directory_part(
    files: &Vec<ArchiveFile>,
    bytes: Vec<u8>,
    inner: int,
    entry: Seq<u8>,
)
    requires
        call_ensures(build_zip, (files,), bytes),
        0 <= inner,
        inner + entry.len() <= central_entries(files@).len(),
        central_entries(files@).subrange(inner, inner + entry.len()) == entry,
    ensures
        local_entries(files@).len() + inner + entry.len() <= bytes@.len(),
        bytes@.subrange(
            local_entries(files@).len() + inner,
            local_entries(files@).len() + inner + entry.len(),
        ) == entry,
{
    let place = local_entries(files@).len() + inner;
    assert(bytes@.subrange(place, place + entry.len()) =~= central_entries(files@).subrange(
        inner,
        inner + entry.len(),
    ));
}

/// At a place of an archive stands a record of a file that stands in the archive.
pub open spec fn leads_to_file(all: Seq<u8>, place: int, file: ArchiveFile) -> bool {
    &&& records_file(all, place, file, le32_at(all, place + 42))
    &&& holds_file(all, le32_at(all, place + 42) as int, file)
}

/// At a place of an archive stands a record of a file, which tells where the file is.
pub open spec fn records_file(all: Seq<u8>, place: int, file: ArchiveFile, offset: u32) -> bool {
    let name = name_bytes(file);
    &&& 0 <= place
    &&& place + 46 + name.len() <= all.len()
    &&& le32_at(all, place) == 0x02014b50
    &&& le32_at(all, place + 16) == crc32(file.bytes@)
    &&& le32_at(all, place + 20) == file.bytes@.len()
    &&& le32_at(all, place + 24) == file.bytes@.len()
    &&& le16_at(all, place + 28) == name.len()
    &&& le32_at(all, place + 42) == offset
    &&& all.subrange(place + 46, place + 46 + name.len()) == name
}

proof fn lemma_recorded_at(files: Seq<ArchiveFile>, at: int)
    requires
        0 <= at < files.len(),
    ensures
        ({
            let inner = central_entries(files.take(at)).len() as int;
            let entry = central_entry(files[at], local_entries(files.take(at)).len() as u32);
            &&& inner + entry.len() <= central_entries(files).len()
            &&& central_entries(files).subrange(inner, inner + entry.len()) == entry
        }),
    decreases files.len(),
{
    let inner = central_entries(files.take(at)).len() as int;
    let entry = central_entry(files[at], local_entries(files.take(at)).len() as u32);
    if at == files.len() - 1 {
        assert(files.take(at) =~= files.drop_last());
        assert(central_entries(files).subrange(inner, inner + entry.len()) =~= entry);
    } else {
        lemma_recorded_at(files.drop_last(), at);
        assert(files.drop_last().take(at) =~= files.take(at));
        assert(central_entries(files).subrange(inner, inner + entry.len()) =~= central_entries(
            files.drop_last(),
        ).subrange(inner, inner + entry.len()));
    }
}

/// Diagnostics hold every log that was collected and the three reports, each under its name.
pub proof fn law_diagnostics_hold_all_logs(
    service_logs: Vec<ArchiveFile>,
    user_logs: Vec<ArchiveFile>,
    status: String,
    disk_status: String,
    versions: String,
    files: Vec<ArchiveFile>,
    at: int,
)
    requires
        call_ensures(assemble, (service_logs, user_logs, status, disk_status, versions), files),
    ensures
        files@.len() == service_logs@.len() + user_logs@.len() + 3,
        0 <= at < service_logs@.len() ==> files@.contains(service_logs@[at]),
        0 <= at < user_logs@.len() ==> files@.contains(user_logs@[at]),
        files@[files@.len() - 3].name@ == "status.json"@,
        files@[files@.len() - 3].bytes@ == vstd::utf8::encode_utf8(status@),
        files@[files@.len() - 2].name@ == "disk-status.json"@,
        files@[files@.len() - 2].bytes@ == vstd::utf8::encode_utf8(disk_status@),
        files@[files@.len() - 1].name@ == "versions.txt"@,
        files@[files@.len() - 1].bytes@ == vstd::utf8::encode_utf8(versions@),
{
    let count = (service_logs@.len() + user_logs@.len()) as int;
    let logs = service_logs@ + user_logs@;
    let reports = files@.skip(count);
    assert(reports[0] == files@[count] && reports[1] == files@[count + 1] && reports[2]
        == files@[count + 2]);
    if 0 <= at < service_logs@.len() {
        assert(files@.take(count)[at] == logs[at]);
        assert(files@[at] == service_logs@[at]);
    }
    if 0 <= at < user_logs@.len() {
        let place = service_logs@.len() + at;
        assert(files@.take(count)[place] == logs[place]);
        assert(files@[place] == user_logs@[at]);
    }
}

/// A file is collected exactly if it is a log that is not too long, and keeps its name.
pub proof fn law_logs_are_collected(
    name: &str,
    is_file: bool,
    length: u64,
    collected: bool,
    prefix: &str,
    entry: String,
)
    requires
        call_ensures(collects, (name, is_file, length), collected),
        call_ensures(entry_name, (prefix, name), entry),
    ensures
        collected ==> is_file && contains_text(name@, ".log"@) && length <= 12 * 1024 * 1024,
        is_file && finishes_with(name@, ".log"@) && length <= 12 * 1024 * 1024 ==> collected,
        begins_with(entry@, prefix@),
        finishes_with(entry@, "/"@ + name@),
{
    reveal_strlit(".log");
    reveal_strlit(".log.");
    if collected {
        if finishes_with(name@, ".log"@) {
            let start = name@.len() - 4;
            assert(name@.subrange(start, start + 4) =~= ".log"@) by {
                assert(name@.skip(start) == ".log"@);
                assert forall|i: int| 0 <= i < 4 implies name@[start + i] == ".log"@[i] by {
                    assert(name@.skip(start)[i] == name@[start + i]);
                }
            }
            assert(occurs_at(name@, ".log"@, start));
        } else {
            let start = choose|at: int| occurs_at(name@, ".log."@, at);
            assert(name@.subrange(start, start + 5) == ".log."@);
            assert forall|i: int| 0 <= i < 4 implies name@[start + i] == ".log"@[i] by {
                assert(name@.subrange(start, start + 5)[i] == name@[start + i]);
            }
            assert(name@.subrange(start, start + 4) =~= ".log"@);
            assert(occurs_at(name@, ".log"@, start));
        }
    }
    let tail = "/"@ + name@;
    assert(entry@.take(prefix@.len() as int) =~= prefix@);
    assert(entry@.skip(entry@.len() - tail.len()) =~= tail);
}

/// Each executable that was found is told by its name, its path and the digest of its contents.
pub proof fn law_versions_tell_each_executable(
    version: Seq<char>,
    found: Seq<FoundExecutable>,
    next: FoundExecutable,
)
    ensures
        versions_text(version, found.push(next)) == versions_text(version, found)
            + next.name@ + " "@ + next.path@ + " "@ + hex_text(sha256_digest(next.contents@))
            + "\n"@,
        begins_with(
            versions_text(version, Seq::<FoundExecutable>::empty()),
            "mirage-cli "@ + version,
        ),
{
    assert(found.push(next).drop_last() =~= found);
    assert(versions_text(version, found.push(next)) =~= versions_text(version, found)
        + next.name@ + " "@ + next.path@ + " "@ + hex_text(sha256_digest(next.contents@))
        + "\n"@);
    let head = "mirage-cli "@ + version;
    assert(versions_text(version, Seq::<FoundExecutable>::empty()).take(head.len() as int)
        =~= head);
}

/// A day has the date of the calendar: the next day is the next date, and a year is a leap year
/// every four years, but every hundred only if every four hundred.
pub proof fn law_dates_follow_the_calendar(
    days: u64,
    date: CivilDate,
    next: CivilDate,
    year: int,
)
    requires
        days < 0xffff_ffff_ffff,
        call_ensures(civil_date, (days,), date),
        call_ensures(civil_date, ((days + 1) as u64,), next),
    ensures
        epoch_days(next) == epoch_days(date) + 1,
        1 <= date.month <= 12,
        1 <= date.day <= 31,
        year % 400 == 0 ==> leap(year),
        year % 100 == 0 && year % 400 != 0 ==> !leap(year),
        year % 4 == 0 && year % 100 != 0 ==> leap(year),
        year % 4 != 0 ==> !leap(year),
        days == 0 ==> date.year == 1970 && date.month == 1 && date.day == 1,
{
    if days == 0 {
        let first = CivilDate { year: 1970, month: 1, day: 1 };
        assert(epoch_days(first) == 0);
        crate::cli::diagnostics::law_a_day_has_one_date(date, first);
    }
}

/// A time ends in its hour, minute and second.
pub proof fn law_times_end_in_hour_minute_and_second(unix_seconds: u64, stamp: String)
    requires
        call_ensures(timestamp, (unix_seconds,), stamp),
    ensures
        exists|hour: nat, minute: nat, second: nat|
            {
                &&& hour < 24 && minute < 60 && second < 60
                &&& 3600 * hour + 60 * minute + second == unix_seconds as int % 86400
                &&& finishes_with(stamp@, #[trigger] clock(hour, minute, second))
            },
{
    let of_day = unix_seconds as int % 86400;
    let hour = (of_day / 3600) as nat;
    let minute = (of_day % 3600 / 60) as nat;
    let second = (of_day % 60) as nat;
    let date = choose|date: CivilDate|
        crate::cli::diagnostics::valid_date(date) && epoch_days(date) == unix_seconds / 86400
            && stamp@ == #[trigger] crate::cli::diagnostics::stamp_text(date, of_day);
    let tail = clock(hour, minute, second);
    assert(stamp@.skip(stamp@.len() - tail.len()) =~= tail);
    assert(3600 * hour + 60 * minute + second == of_day);
}

/// An hour, a minute and a second, of two digits each.
pub open spec fn clock(hour: nat, minute: nat, second: nat) -> Seq<char> {
    "-"@ + padded_text(hour, 2) + padded_text(minute, 2) + padded_text(second, 2)
}

} // verus!
