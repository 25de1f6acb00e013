//! Build and schema versions, and how failures are put.

use vstd::prelude::*;
use crate::cli::host::optional_text;
use crate::config::model::CONFIG_FORMAT_VERSION;
use crate::text::{
    chars_of, decimal, decimal_text, hex_digit, is_hex_digit, joined, same_text, texts, trim,
    trimmed,
};

verus! {

/// The version of the envelope around the program's JSON output.
pub const CLI_ENVELOPE_VERSION: u32 = 1;

/// The version of the public form of errors.
pub const PUBLIC_ERROR_VERSION: u32 = 1;

/// Whether a text can be a build hash: 7 to 64 hexadecimal digits.
pub open spec fn is_build_hash(value: Seq<char>) -> bool {
    7 <= value.len() <= 64 && forall|i: int|
        0 <= i < value.len() ==> is_hex_digit(#[trigger] value[i])
}

/// Whether a text can be a build hash: 7 to 64 hexadecimal digits.
pub fn valid_build_hash(value: &str) -> (valid: bool)
    ensures
        valid == is_build_hash(value@),
{
    let chars = chars_of(value);
    let length: usize = chars.len();
    if length < 7 || length > 64 {
        return false;
    }
    for at in 0..length
        invariant
            length == chars@.len(),
            chars@ == value@,
            forall|i: int| 0 <= i < at ==> is_hex_digit(#[trigger] value@[i]),
    {
        if !hex_digit(chars[at]) {
            assert(!is_hex_digit(value@[at as int]));
            return false;
        }
    }
    true
}

/// The build hash: the configured one if it is valid, else what git printed if
/// that is valid without the white space around it, else `unknown`.
pub open spec fn build_hash_of(configured: Option<Seq<char>>, git: Option<Seq<char>>) -> Seq<char> {
    if configured is Some && is_build_hash(configured->Some_0) {
        configured->Some_0
    } else if git is Some && is_build_hash(trimmed(git->Some_0)) {
        trimmed(git->Some_0)
    } else {
        "unknown"@
    }
}

/// Chooses the build hash.
pub fn build_hash(configured: Option<&str>, git: Option<&str>) -> (hash: String)
    ensures
        hash@ == build_hash_of(optional_text(configured), optional_text(git)),
{
    if let Some(value) = configured {
        if valid_build_hash(value) {
            return value.to_owned();
        }
    }
    if let Some(printed) = git {
        let value = trim(printed);
        if valid_build_hash(value.as_str()) {
            return value;
        }
    }
    "unknown".to_owned()
}

/// What the version report names.
#[derive(Debug)]
pub struct VersionInfo {
    pub cli_version: String,
    pub rust_version: String,
    pub build_hash: String,
    pub target: String,
}

/// The first line of the version report.
pub fn version_line(info: &VersionInfo) -> (line: String)
    ensures
        line@ == "mirage "@ + info.cli_version@ + " ("@ + info.build_hash@ + "; "@ + info.target@
            + "; "@ + info.rust_version@ + ")"@,
{
    let mut line = joined("mirage ", info.cli_version.as_str());
    line.append(" (");
    line.append(info.build_hash.as_str());
    line.append("; ");
    line.append(info.target.as_str());
    line.append("; ");
    line.append(info.rust_version.as_str());
    line.append(")");
    line
}

/// The second line of the version report.
pub fn schema_line() -> (line: String)
    ensures
        line@ == "schemas: cli-envelope="@ + decimal_text(CLI_ENVELOPE_VERSION as nat)
            + ", service-config="@ + decimal_text(CONFIG_FORMAT_VERSION as nat)
            + ", public-error="@ + decimal_text(PUBLIC_ERROR_VERSION as nat),
{
    let mut line = joined(
        "schemas: cli-envelope=",
        decimal(CLI_ENVELOPE_VERSION as u64).as_str(),
    );
    line.append(", service-config=");
    line.append(decimal(CONFIG_FORMAT_VERSION as u64).as_str());
    line.append(", public-error=");
    line.append(decimal(PUBLIC_ERROR_VERSION as u64).as_str());
    line
}

/// The line that reports a valid configuration.
pub fn configuration_line(format_version: u32) -> (line: String)
    ensures
        line@ == "configuration valid (format "@ + decimal_text(format_version as nat) + ")"@,
{
    let mut line = joined("configuration valid (format ", decimal(format_version as u64).as_str());
    line.append(")");
    line
}

/// The place of the argument behind the first `--log-file`, if there is one.
pub open spec fn log_file_place(arguments: Seq<Seq<char>>, from: int) -> Option<int>
    decreases arguments.len() - from,
{
    if from < 0 || from >= arguments.len() {
        None
    } else if arguments[from] == "--log-file"@ {
        if from + 1 < arguments.len() {
            Some(from + 1)
        } else {
            None
        }
    } else {
        log_file_place(arguments, from + 1)
    }
}

/// The place of the argument behind the first `--log-file`, if there is one.
pub fn log_file_argument(arguments: &Vec<String>) -> (place: Option<usize>)
    ensures
        match place {
            Some(place) => log_file_place(texts(arguments@), 0) == Some(place as int),
            None => log_file_place(texts(arguments@), 0) is None,
        },
{
    let ghost all = texts(arguments@);
    let mut at: usize = 0;
    while at < arguments.len()
        invariant
            at <= arguments@.len(),
            all == texts(arguments@),
            log_file_place(all, 0) == log_file_place(all, at as int),
        decreases arguments@.len() - at,
    {
        assert(all[at as int] == arguments@[at as int]@);
        if same_text(arguments[at].as_str(), "--log-file") {
            if at + 1 < arguments.len() {
                return Some(at + 1);
            }
            return None;
        }
        at = at + 1;
    }
    None
}

/// The line that a failed command leaves in its log.
pub fn command_error_line(error: &str) -> (line: String)
    ensures
        line@ == "MirageSSD command error: "@ + error@ + "\n"@,
{
    let mut line = joined("MirageSSD command error: ", error);
    line.append("\n");
    line
}

} // verus!
