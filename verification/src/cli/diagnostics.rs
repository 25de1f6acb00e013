//! The support archive: timestamps, log selection and the archive format.

use vstd::prelude::*;
use crate::bytes::{le16, le32, push_all, push_le16, push_le32};
use crate::cli::host::{below, join_path};
use crate::crypto::primitives::{sha256_digest, sha256_of};
use crate::error::{description, MirageError};
use crate::text::{
    contains_text, finishes_with, has_suffix, has_text, hex, hex_text, padded, padded_text,
};

verus! {

/// Larger logs are left out: 12 MiB.
pub const MAX_LOG_BYTES: u64 = 12582912;

// ---------------------------------------------------------------------------
// Dates
// ---------------------------------------------------------------------------

/// Whether a year has 366 days.
pub open spec fn leap(year: int) -> bool {
    year % 4 == 0 && (year % 100 != 0 || year % 400 == 0)
}

/// The days of a year.
pub open spec fn year_days(year: int) -> int {
    if leap(year) {
        366
    } else {
        365
    }
}

/// The days of a month.
pub open spec fn month_days(year: int, month: int) -> int {
    if month == 2 {
        if leap(year) {
            29
        } else {
            28
        }
    } else if month == 4 || month == 6 || month == 9 || month == 11 {
        30
    } else {
        31
    }
}

/// The days of a year before a month.
pub open spec fn days_before_month(year: int, month: int) -> int
    decreases month,
{
    if month <= 1 {
        0
    } else {
        days_before_month(year, month - 1) + month_days(year, month - 1)
    }
}

/// The days from the year 0 to the beginning of a year.
pub open spec fn days_before_year(year: int) -> int {
    365 * year + (year + 3) / 4 - (year + 99) / 100 + (year + 399) / 400
}

/// A date.
#[derive(Debug, Clone, Copy, PartialEq, Eq, Structural)]
pub struct CivilDate {
    pub year: u64,
    pub month: u64,
    pub day: u64,
}

/// Whether a date exists.
pub open spec fn valid_date(date: CivilDate) -> bool {
    1 <= date.month <= 12 && 1 <= date.day <= month_days(date.year as int, date.month as int)
}

/// The days from 1 January 1970 to a date.
pub open spec fn epoch_days(date: CivilDate) -> int {
    days_before_year(date.year as int) - days_before_year(1970) + days_before_month(
        date.year as int,
        date.month as int,
    ) + date.day - 1
}

proof fn lemma_step_by_4(year: int)
    ensures
        (year + 4) / 4 - (year + 3) / 4 == if year % 4 == 0 {
            1int
        } else {
            0
        },
{
    let rest = year % 4;
    let whole = year / 4;
    assert(year == 4 * whole + rest && 0 <= rest < 4);
    assert((year + 4) / 4 == whole + 1);
    if rest == 0 {
        assert((year + 3) / 4 == whole);
    } else {
        assert((year + 3) / 4 == whole + 1);
    }
}

proof fn lemma_step_by_100(year: int)
    ensures
        (year + 100) / 100 - (year + 99) / 100 == if year % 100 == 0 {
            1int
        } else {
            0
        },
{
    let rest = year % 100;
    let whole = year / 100;
    assert(year == 100 * whole + rest && 0 <= rest < 100);
    assert((year + 100) / 100 == whole + 1);
    if rest == 0 {
        assert((year + 99) / 100 == whole);
    } else {
        assert((year + 99) / 100 == whole + 1);
    }
}

proof fn lemma_step_by_400(year: int)
    ensures
        (year + 400) / 400 - (year + 399) / 400 == if year % 400 == 0 {
            1int
        } else {
            0
        },
{
    let rest = year % 400;
    let whole = year / 400;
    assert(year == 400 * whole + rest && 0 <= rest < 400);
    assert((year + 400) / 400 == whole + 1);
    if rest == 0 {
        assert((year + 399) / 400 == whole);
    } else {
        assert((year + 399) / 400 == whole + 1);
    }
}

proof fn lemma_year_step(year: int)
    requires
        year >= 0,
    ensures
        days_before_year(year + 1) == days_before_year(year) + year_days(year),
{
    lemma_step_by_4(year);
    lemma_step_by_100(year);
    lemma_step_by_400(year);
    lemma_leap_cases(year);
}

proof fn lemma_leap_cases(year: int)
    ensures
        year % 400 == 0 ==> year % 100 == 0,
        year % 100 == 0 ==> year % 4 == 0,
{
}

proof fn lemma_cycle(year: int, cycles: int)
    ensures
        days_before_year(year + 400 * cycles) == days_before_year(year) + 146097 * cycles,
        leap(year + 400 * cycles) == leap(year),
{
    let later = year + 400 * cycles;
    assert((later + 3) / 4 == (year + 3) / 4 + 100 * cycles);
    assert((later + 99) / 100 == (year + 99) / 100 + 4 * cycles);
    assert((later + 399) / 400 == (year + 399) / 400 + cycles);
    assert(later % 4 == year % 4);
    assert(later % 100 == year % 100);
    assert(later % 400 == year % 400);
}

proof fn lemma_months(year: int)
    ensures
        days_before_month(year, 1) == 0,
        days_before_month(year, 13) == year_days(year),
{
    reveal_with_fuel(days_before_month, 14);
}

fn is_leap(year: u64) -> (yes: bool)
    ensures
        yes == leap(year as int),
{
    year % 4 == 0 && (year % 100 != 0 || year % 400 == 0)
}

fn length_of_month(year: u64, month: u64) -> (days: u64)
    requires
        1 <= month <= 12,
    ensures
        days == month_days(year as int, month as int),
        28 <= days <= 31,
{
    if month == 2 {
        if is_leap(year) {
            29
        } else {
            28
        }
    } else if month == 4 || month == 6 || month == 9 || month == 11 {
        30
    } else {
        31
    }
}

/// The date of a day, counted from 1 January 1970.
pub fn civil_date(days: u64) -> (date: CivilDate)
    requires
        days <= 0xffff_ffff_ffff,
    ensures
        valid_date(date),
        epoch_days(date) == days,
        date.year >= 1970,
{
    let cycles: u64 = days / 146097;
    let mut rest: u64 = days % 146097;
    let first: u64 = 1970 + 400 * cycles;
    let mut year: u64 = first;
    proof {
        lemma_cycle(1970, cycles as int);
        lemma_cycle(1970, cycles as int + 1);
    }
    let ghost start = days_before_year(1970);
    while rest >= 365 && (rest >= 366 || !is_leap(year))
        invariant
            start == days_before_year(1970),
            first <= year,
            first >= 1970,
            first == 1970 + 400 * cycles,
            cycles <= 0xffff_ffff_ffff,
            rest < 146097,
            days == days_before_year(year as int) - start + rest,
            year - first <= 146097 - rest,
        decreases rest,
    {
        proof {
            lemma_year_step(year as int);
        }
        let length: u64 = if is_leap(year) {
            366
        } else {
            365
        };
        rest = rest - length;
        year = year + 1;
    }
    assert(rest < year_days(year as int));
    proof {
        lemma_months(year as int);
    }
    let mut month: u64 = 1;
    let ghost in_year = rest as int;
    while month < 12 && rest >= length_of_month(year, month)
        invariant
            1 <= month <= 12,
            in_year < year_days(year as int),
            days_before_month(year as int, 13) == year_days(year as int),
            in_year == days_before_month(year as int, month as int) + rest,
        decreases 12 - month,
    {
        rest = rest - length_of_month(year, month);
        month = month + 1;
    }
    proof {
        if month == 12 {
            assert(days_before_month(year as int, 13) == days_before_month(year as int, 12)
                + month_days(year as int, 12));
        }
    }
    CivilDate { year, month, day: rest + 1 }
}

/// Two dates of the same day are the same date.
pub proof fn law_a_day_has_one_date(one: CivilDate, other: CivilDate)
    requires
        valid_date(one),
        valid_date(other),
        epoch_days(one) == epoch_days(other),
    ensures
        one == other,
{
    lemma_date_in_year(one);
    lemma_date_in_year(other);
    if one.year < other.year {
        lemma_years_grow(one.year as int + 1, other.year as int);
        lemma_year_step(one.year as int);
    } else if other.year < one.year {
        lemma_years_grow(other.year as int + 1, one.year as int);
        lemma_year_step(other.year as int);
    }
    let year = one.year as int;
    if one.month < other.month {
        lemma_months_grow(year, one.month as int + 1, other.month as int);
    } else if other.month < one.month {
        lemma_months_grow(year, other.month as int + 1, one.month as int);
    }
}

proof fn lemma_date_in_year(date: CivilDate)
    requires
        valid_date(date),
    ensures
        0 <= days_before_month(date.year as int, date.month as int) + date.day - 1 < year_days(
            date.year as int,
        ),
{
    let year = date.year as int;
    lemma_months(year);
    lemma_months_grow(year, 1, date.month as int);
    lemma_months_grow(year, date.month as int + 1, 13);
}

proof fn lemma_years_grow(from: int, to: int)
    requires
        0 <= from <= to,
    ensures
        days_before_year(from) <= days_before_year(to),
    decreases to - from,
{
    if from < to {
        lemma_year_step(from);
        lemma_years_grow(from + 1, to);
    }
}

proof fn lemma_months_grow(year: int, from: int, to: int)
    requires
        1 <= from <= to,
    ensures
        days_before_month(year, from) <= days_before_month(year, to),
    decreases to - from,
{
    if from < to {
        lemma_months_grow(year, from, to - 1);
    }
}

/// A date and a time of day as text, such as `20240229-235959`.
pub open spec fn stamp_text(date: CivilDate, second_of_day: int) -> Seq<char> {
    padded_text(date.year as nat, 4) + padded_text(date.month as nat, 2) + padded_text(
        date.day as nat,
        2,
    ) + "-"@ + padded_text((second_of_day / 3600) as nat, 2) + padded_text(
        (second_of_day % 3600 / 60) as nat,
        2,
    ) + padded_text((second_of_day % 60) as nat, 2)
}

/// The compact UTC timestamp of a number of seconds since 1 January 1970.
pub fn timestamp(unix_seconds: u64) -> (stamp: String)
    ensures
        exists|date: CivilDate|
            valid_date(date) && epoch_days(date) == unix_seconds / 86400 && stamp@
                == #[trigger] stamp_text(date, unix_seconds as int % 86400),
{
    let days: u64 = unix_seconds / 86400;
    let second: u64 = unix_seconds % 86400;
    let date = civil_date(days);
    let mut stamp = padded(date.year, 4);
    stamp.append(padded(date.month, 2).as_str());
    stamp.append(padded(date.day, 2).as_str());
    stamp.append("-");
    stamp.append(padded(second / 3600, 2).as_str());
    stamp.append(padded(second % 3600 / 60, 2).as_str());
    stamp.append(padded(second % 60, 2).as_str());
    assert(stamp@ == stamp_text(date, second as int));
    stamp
}

// ---------------------------------------------------------------------------
// Collected files
// ---------------------------------------------------------------------------

/// Whether a file is collected: a log, or a rotated one, that is not too large.
pub fn collects(name: &str, is_file: bool, length: u64) -> (yes: bool)
    ensures
        yes == (is_file && (finishes_with(name@, ".log"@) || contains_text(name@, ".log."@))
            && length <= MAX_LOG_BYTES),
{
    is_file && (has_suffix(name, ".log") || has_text(name, ".log.")) && length <= MAX_LOG_BYTES
}

/// The name of a collected file in the archive.
pub fn entry_name(prefix: &str, name: &str) -> (entry: String)
    ensures
        entry@ == prefix@ + "/"@ + name@,
{
    let mut entry: String = prefix.to_owned();
    entry.append("/");
    entry.append(name);
    entry
}

/// The line that tells an executable apart: its name, its path and its SHA-256
/// digest.
pub fn version_line(name: &str, path: &str, contents: &[u8]) -> (line: String)
    ensures
        line@ == name@ + " "@ + path@ + " "@ + hex_text(sha256_digest(contents@)) + "\n"@,
{
    let digest: [u8; 32] = sha256_of(contents);
    let mut line: String = name.to_owned();
    line.append(" ");
    line.append(path);
    line.append(" ");
    line.append(hex(&digest).as_str());
    line.append("\n");
    line
}

/// The executables whose versions are reported. The first one is the running
/// program.
pub const EXECUTABLES: [&'static str; 4] = [
    "mirage.exe",
    "mirage-service.exe",
    "mirage-fs.exe",
    "mirage-ui.exe",
];

/// An executable that is there.
pub struct FoundExecutable {
    pub name: String,
    pub path: String,
    pub contents: Vec<u8>,
}

/// The line of an executable.
pub open spec fn executable_line(executable: FoundExecutable) -> Seq<char> {
    executable.name@ + " "@ + executable.path@ + " "@ + hex_text(
        sha256_digest(executable.contents@),
    ) + "\n"@
}

/// The report on the versions: the program's own, then a line for each
/// executable.
pub open spec fn versions_text(version: Seq<char>, found: Seq<FoundExecutable>) -> Seq<char>
    decreases found.len(),
{
    if found.len() == 0 {
        "mirage-cli "@ + version + "\n"@
    } else {
        versions_text(version, found.drop_last()) + executable_line(found.last())
    }
}

/// The report on the versions of the program and of the executables that are
/// there.
pub fn versions(version: &str, found: &Vec<FoundExecutable>) -> (report: String)
    ensures
        report@ == versions_text(version@, found@),
{
    let mut report: String = "mirage-cli ".to_owned();
    report.append(version);
    report.append("\n");
    let mut at: usize = 0;
    assert(found@.take(0).len() == 0);
    while at < found.len()
        invariant
            at <= found@.len(),
            report@ == versions_text(version@, found@.take(at as int)),
        decreases found@.len() - at,
    {
        proof {
            assert(found@.take(at + 1).drop_last() == found@.take(at as int));
            assert(found@.take(at + 1).last() == found@[at as int]);
        }
        let line = version_line(
            found[at].name.as_str(),
            found[at].path.as_str(),
            found[at].contents.as_slice(),
        );
        report.append(line.as_str());
        at = at + 1;
    }
    assert(found@.take(at as int) == found@);
    report
}

/// What stands for the answer of a service that gave none.
pub fn error_document(error: &MirageError) -> (document: String)
    ensures
        document@ == "{\"error\":\""@ + description(*error) + "\"}"@,
{
    let mut document: String = "{\"error\":\"".to_owned();
    document.append(error.describe().as_str());
    document.append("\"}");
    document
}

/// The directory of the service's logs.
pub fn service_logs_root(program_data: Option<&str>, separator: char) -> (root: String)
    ensures
        root@ == below(
            below(
                match program_data {
                    Some(directory) => directory@,
                    None => "C:\\ProgramData"@,
                },
                separator,
                "MirageSSD"@,
            ),
            separator,
            "logs"@,
        ),
{
    let directory = match program_data {
        Some(directory) => directory,
        None => "C:\\ProgramData",
    };
    let product = join_path(directory, separator, "MirageSSD");
    join_path(product.as_str(), separator, "logs")
}

/// The directory of the user's logs. Without local application data it is a
/// relative one.
pub fn user_logs_root(local_app_data: Option<&str>, separator: char) -> (root: String)
    ensures
        root@ == below(
            below(
                match local_app_data {
                    Some(directory) => directory@,
                    None => ""@,
                },
                separator,
                "MirageSSD"@,
            ),
            separator,
            "logs"@,
        ),
{
    let directory = match local_app_data {
        Some(directory) => directory,
        None => "",
    };
    let product = join_path(directory, separator, "MirageSSD");
    join_path(product.as_str(), separator, "logs")
}

/// Where the archive goes by default: onto the desktop.
pub fn default_destination(user_profile: Option<&str>, separator: char, stamp: &str) -> (path: String)
    ensures
        path@ == below(
            below(
                match user_profile {
                    Some(directory) => directory@,
                    None => ""@,
                },
                separator,
                "Desktop"@,
            ),
            separator,
            "MirageSSD-diagnostics-"@ + stamp@ + ".zip"@,
        ),
{
    let directory = match user_profile {
        Some(directory) => directory,
        None => "",
    };
    let desktop = join_path(directory, separator, "Desktop");
    join_path(desktop.as_str(), separator, archive_name(stamp).as_str())
}

/// The name of the archive.
fn archive_name(stamp: &str) -> (name: String)
    ensures
        name@ == "MirageSSD-diagnostics-"@ + stamp@ + ".zip"@,
{
    let mut name: String = "MirageSSD-diagnostics-".to_owned();
    name.append(stamp);
    name.append(".zip");
    name
}

// ---------------------------------------------------------------------------
// Archive
// ---------------------------------------------------------------------------

/// One step of the division by the CRC-32 polynomial, lowest bit first.
pub open spec fn crc32_step(rest: u32) -> u32 {
    if rest & 1 == 1 {
        (rest >> 1) ^ 0xedb88320
    } else {
        rest >> 1
    }
}

/// So many steps of the division.
pub open spec fn crc32_steps(rest: u32, count: nat) -> u32
    decreases count,
{
    if count == 0 {
        rest
    } else {
        crc32_step(crc32_steps(rest, (count - 1) as nat))
    }
}

/// What is left of some bytes after the division, eight steps for each.
pub open spec fn crc32_rest(bytes: Seq<u8>) -> u32
    decreases bytes.len(),
{
    if bytes.len() == 0 {
        0xffff_ffff
    } else {
        crc32_steps(crc32_rest(bytes.drop_last()) ^ (bytes.last() as u32), 8)
    }
}

/// The CRC-32 checksum of some bytes, as archives have it.
pub open spec fn crc32(bytes: Seq<u8>) -> u32 {
    crc32_rest(bytes) ^ 0xffff_ffff
}

/// `crc32fast::hash`: the CRC-32 checksum with the IEEE polynomial.
#[verifier::external_body]
fn crc32_of(bytes: &[u8]) -> (checksum: u32)
    ensures
        checksum == crc32(bytes@),
{
    crc32fast::hash(bytes)
}

/// A file of an archive.
pub struct ArchiveFile {
    pub name: String,
    pub bytes: Vec<u8>,
}

/// The bytes of a file's name.
pub open spec fn name_bytes(file: ArchiveFile) -> Seq<u8> {
    vstd::utf8::encode_utf8(file.name@)
}

/// A file as it is stored: a header, the name, the contents.
pub open spec fn local_entry(file: ArchiveFile) -> Seq<u8> {
    le32(0x04034b50) + le16(20) + le16(0) + le16(0) + le16(0) + le16(0) + le32(crc32(file.bytes@))
        + le32(file.bytes@.len() as u32) + le32(file.bytes@.len() as u32) + le16(
        name_bytes(file).len() as u16,
    ) + le16(0) + name_bytes(file) + file.bytes@
}

/// A file in the central directory, with the place of its stored form.
pub open spec fn central_entry(file: ArchiveFile, offset: u32) -> Seq<u8> {
    le32(0x02014b50) + le16(20) + le16(20) + le16(0) + le16(0) + le16(0) + le16(0) + le32(
        crc32(file.bytes@),
    ) + le32(file.bytes@.len() as u32) + le32(file.bytes@.len() as u32) + le16(
        name_bytes(file).len() as u16,
    ) + le32(0) + le32(0) + le32(0) + le32(offset) + name_bytes(file)
}

/// The stored forms of some files, one after the other.
pub open spec fn local_entries(files: Seq<ArchiveFile>) -> Seq<u8>
    decreases files.len(),
{
    if files.len() == 0 {
        Seq::empty()
    } else {
        local_entries(files.drop_last()) + local_entry(files.last())
    }
}

/// The central directory of some files.
pub open spec fn central_entries(files: Seq<ArchiveFile>) -> Seq<u8>
    decreases files.len(),
{
    if files.len() == 0 {
        Seq::empty()
    } else {
        central_entries(files.drop_last()) + central_entry(
            files.last(),
            local_entries(files.drop_last()).len() as u32,
        )
    }
}

/// The record that ends an archive.
pub open spec fn end_record(count: int, central_length: int, central_offset: int) -> Seq<u8> {
    le32(0x06054b50) + le16(0) + le16(0) + le16(count as u16) + le16(count as u16) + le32(
        central_length as u32,
    ) + le32(central_offset as u32) + le16(0)
}

/// A whole archive of stored files.
pub open spec fn archive(files: Seq<ArchiveFile>) -> Seq<u8> {
    local_entries(files) + central_entries(files) + end_record(
        files.len() as int,
        central_entries(files).len() as int,
        local_entries(files).len() as int,
    )
}

fn push_local_entry(out: &mut Vec<u8>, file: &ArchiveFile, checksum: u32)
    requires
        checksum == crc32(file.bytes@),
    ensures
        final(out)@ == old(out)@ + local_entry(*file),
{
    let ghost before = out@;
    let name = file.name.as_str().as_bytes();
    let mut entry: Vec<u8> = Vec::new();
    push_le32(&mut entry, 0x04034b50);
    assert(entry@ == le32(0x04034b50));
    push_le16(&mut entry, 20);
    push_le16(&mut entry, 0);
    push_le16(&mut entry, 0);
    push_le16(&mut entry, 0);
    push_le16(&mut entry, 0);
    push_le32(&mut entry, checksum);
    push_le32(&mut entry, file.bytes.len() as u32);
    push_le32(&mut entry, file.bytes.len() as u32);
    push_le16(&mut entry, name.len() as u16);
    push_le16(&mut entry, 0);
    push_all(&mut entry, name);
    push_all(&mut entry, file.bytes.as_slice());
    push_all(out, entry.as_slice());
}

fn push_central_entry(out: &mut Vec<u8>, file: &ArchiveFile, checksum: u32, offset: u32)
    requires
        checksum == crc32(file.bytes@),
    ensures
        final(out)@ == old(out)@ + central_entry(*file, offset),
{
    let name = file.name.as_str().as_bytes();
    let mut entry: Vec<u8> = Vec::new();
    push_le32(&mut entry, 0x02014b50);
    assert(entry@ == le32(0x02014b50));
    push_le16(&mut entry, 20);
    push_le16(&mut entry, 20);
    push_le16(&mut entry, 0);
    push_le16(&mut entry, 0);
    push_le16(&mut entry, 0);
    push_le16(&mut entry, 0);
    push_le32(&mut entry, checksum);
    push_le32(&mut entry, file.bytes.len() as u32);
    push_le32(&mut entry, file.bytes.len() as u32);
    push_le16(&mut entry, name.len() as u16);
    push_le32(&mut entry, 0);
    push_le32(&mut entry, 0);
    push_le32(&mut entry, 0);
    push_le32(&mut entry, offset);
    push_all(&mut entry, name);
    push_all(out, entry.as_slice());
}

fn text_file(name: &str, text: String) -> (file: ArchiveFile)
    ensures
        file.name@ == name@,
        file.bytes@ == vstd::utf8::encode_utf8(text@),
{
    let mut bytes: Vec<u8> = Vec::new();
    push_all(&mut bytes, text.as_str().as_bytes());
    assert(bytes@ == vstd::utf8::encode_utf8(text@));
    ArchiveFile { name: name.to_owned(), bytes }
}

/// The files of the archive: the logs of the service, those of the user, and
/// then the three reports. Nothing else is put in.
pub fn assemble(
    service_logs: Vec<ArchiveFile>,
    user_logs: Vec<ArchiveFile>,
    status: String,
    disk_status: String,
    versions: String,
) -> (files: Vec<ArchiveFile>)
    ensures
        files@.len() == service_logs@.len() + user_logs@.len() + 3,
        files@.take((service_logs@.len() + user_logs@.len()) as int) == service_logs@ + user_logs@,
        ({
            let reports = files@.skip((service_logs@.len() + user_logs@.len()) as int);
            &&& reports[0].name@ == "status.json"@
            &&& reports[0].bytes@ == vstd::utf8::encode_utf8(status@)
            &&& reports[1].name@ == "disk-status.json"@
            &&& reports[1].bytes@ == vstd::utf8::encode_utf8(disk_status@)
            &&& reports[2].name@ == "versions.txt"@
            &&& reports[2].bytes@ == vstd::utf8::encode_utf8(versions@)
        }),
{
    let mut files = service_logs;
    let mut more = user_logs;
    files.append(&mut more);
    files.push(text_file("status.json", status));
    files.push(text_file("disk-status.json", disk_status));
    files.push(text_file("versions.txt", versions));
    assert(files@.take((service_logs@.len() + user_logs@.len()) as int) =~= service_logs@
        + user_logs@);
    files
}

/// Builds an archive of stored files. Its lengths and places are recorded in 32
/// bits, its counts and name lengths in 16.
pub fn build_zip(files: &Vec<ArchiveFile>) -> (bytes: Vec<u8>)
    ensures
        bytes@ == archive(files@),
{
    let mut out: Vec<u8> = Vec::new();
    let mut central: Vec<u8> = Vec::new();
    let mut at: usize = 0;
    assert(files@.take(0).len() == 0);
    while at < files.len()
        invariant
            at <= files@.len(),
            out@ == local_entries(files@.take(at as int)),
            central@ == central_entries(files@.take(at as int)),
        decreases files@.len() - at,
    {
        proof {
            assert(files@.take(at + 1).drop_last() == files@.take(at as int));
            assert(files@.take(at + 1).last() == files@[at as int]);
        }
        let checksum: u32 = crc32_of(files[at].bytes.as_slice());
        let offset: u32 = out.len() as u32;
        push_local_entry(&mut out, &files[at], checksum);
        push_central_entry(&mut central, &files[at], checksum, offset);
        at = at + 1;
    }
    assert(files@.take(at as int) == files@);
    let central_offset: u32 = out.len() as u32;
    let ghost stored = out@;
    push_all(&mut out, central.as_slice());
    let mut end: Vec<u8> = Vec::new();
    push_le32(&mut end, 0x06054b50);
    assert(end@ == le32(0x06054b50));
    push_le16(&mut end, 0);
    push_le16(&mut end, 0);
    push_le16(&mut end, files.len() as u16);
    push_le16(&mut end, files.len() as u16);
    push_le32(&mut end, central.len() as u32);
    push_le32(&mut end, central_offset);
    push_le16(&mut end, 0);
    push_all(&mut out, end.as_slice());
    out
}

/// The central directory records where each file is stored: at that place stands
/// the file's stored form.
pub proof fn law_offsets_point_at_the_files(files: Seq<ArchiveFile>, at: int)
    requires
        0 <= at < files.len(),
    ensures
        ({
            let offset = local_entries(files.take(at)).len() as int;
            &&& offset + local_entry(files[at]).len() <= archive(files).len()
            &&& archive(files).subrange(offset, offset + local_entry(files[at]).len())
                == local_entry(files[at])
        }),
{
    lemma_stored_at(files, at);
    let offset = local_entries(files.take(at)).len() as int;
    let entry = local_entry(files[at]);
    assert(archive(files).subrange(offset, offset + entry.len()) =~= local_entries(files).subrange(
        offset,
        offset + entry.len(),
    ));
}

proof fn lemma_stored_at(files: Seq<ArchiveFile>, at: int)
    requires
        0 <= at < files.len(),
    ensures
        ({
            let offset = local_entries(files.take(at)).len() as int;
            &&& offset + local_entry(files[at]).len() <= local_entries(files).len()
            &&& local_entries(files).subrange(offset, offset + local_entry(files[at]).len())
                == local_entry(files[at])
        }),
    decreases files.len(),
{
    let offset = local_entries(files.take(at)).len() as int;
    let entry = local_entry(files[at]);
    if at == files.len() - 1 {
        assert(files.take(at) =~= files.drop_last());
        assert(local_entries(files).subrange(offset, offset + entry.len()) =~= entry);
    } else {
        lemma_stored_at(files.drop_last(), at);
        assert(files.drop_last().take(at) =~= files.take(at));
        assert(local_entries(files).subrange(offset, offset + entry.len()) =~= local_entries(
            files.drop_last(),
        ).subrange(offset, offset + entry.len()));
    }
}

} // verus!
