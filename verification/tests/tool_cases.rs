//! Sign-in, diagnostics, repositories, simulation and the Drive gate.

use miragessd::cli::backend_login::{
    answer_callback, backend_status, check_account, check_client_contents, check_client_file,
    check_deadline, check_live_client, check_live_client_file, check_stored_scope, check_timeout,
    granted_scopes, live_lines, logout_line, parse_request, quota_available, read_callback,
    redirect_uri, require_refresh_token, resolve_client_id, resolve_token_path, respond,
    status_lines, validate_client_id, CallbackOutcome, LoginMetadata,
};
use miragessd::cli::diagnostics::{
    assemble, build_zip, civil_date, collects, default_destination, entry_name, error_document,
    service_logs_root, timestamp, user_logs_root, versions, ArchiveFile, CivilDate,
    FoundExecutable, MAX_LOG_BYTES,
};
use miragessd::cli::disk::{split_byte_size, unit_multiplier};
use miragessd::cli::drive_gate::{
    backing, cache_cap, check_work_directory, choose_pack, combined, evidence, gate_page, gate_slice,
    incorrect_bytes, initial_state, next_read, read_segments, repository_id, splitmix64,
    update_id, verify_pack, FaultOnce, GateEvent, GateRun, GateStage, InjectedFault, PackChoice,
    PageCache, ProviderTotals, RandomRead, BASE_UNIQUE_PAGES, LOGICAL_BYTES, LOGICAL_PAGES,
    PAGE_BYTES, UPDATED_LOGICAL_PAGES, UPDATE_UNIQUE_PAGES,
};
use miragessd::cli::gate_reads::{
    base_pages, plan_load, update_pages, GateLocation, GatePage, PackEntry, PageLoad, ReadBatch,
};
use miragessd::cli::host::{HostPath, DRIVE_FILE};
use miragessd::cli::maintenance::{
    check_database, check_line, count_outcomes, integrity_class, pages_to_verify, verify_line,
    DatabaseReport, IntegrityClass, PinReason, VerifyOutcome,
};
use miragessd::cli::repository::{
    check_level, check_local_only, check_manifest, check_packs, classification_rules,
    ensure_report_outside_source, is_pack_name, key_plan, pack_files, parse_hex,
    reported_extensions, signer, temporary_report_name, write_new_or_identical, KeyPlan,
};
use miragessd::cli::simulate::{
    admit_block, check_page_size, check_quality, check_sweep, network, sweep_networks, TraceQuality,
    MAX_SESSION_EVENTS,
};
use miragessd::cli::version::{
    build_hash, command_error_line, configuration_line, log_file_argument, schema_line,
    valid_build_hash, version_line, VersionInfo,
};
use miragessd::error::{MirageError, MirageErrorKind};
use miragessd::ids::RepositoryId;

fn path(text: &str) -> HostPath {
    HostPath { text: text.to_owned(), absolute: true }
}

fn relative(text: &str) -> HostPath {
    HostPath { text: text.to_owned(), absolute: false }
}

fn list(texts: &[&str]) -> Vec<String> {
    texts.iter().map(|text| text.to_string()).collect()
}

const CLIENT: &str = "x.apps.googleusercontent.com";

// ---------------------------------------------------------------------------
// Sign-in
// ---------------------------------------------------------------------------

#[test]
fn sign_in_requests_are_bounded() {
    assert!(check_timeout(29).is_err());
    assert!(check_timeout(30).is_ok());
    assert!(check_timeout(900).is_ok());
    assert!(check_timeout(901).is_err());
    assert!(validate_client_id(CLIENT).is_ok());
    assert!(validate_client_id("").is_err());
    assert!(validate_client_id("x").is_err());
    assert!(validate_client_id(&format!("{}{CLIENT}", "y".repeat(512))).is_err());
    assert!(validate_client_id(&format!("\u{7}{CLIENT}")).is_err());
    assert!(check_client_file(&relative("x"), 1).is_err());
    assert!(check_client_file(&path("x"), 0).is_err());
    assert!(check_client_file(&path("x"), 65536).is_ok());
    assert!(check_client_file(&path("x"), 65537).is_err());
    assert!(check_client_contents(CLIENT, "secret", None).is_ok());
    assert!(check_client_contents(CLIENT, "secret", Some(CLIENT)).is_ok());
    assert_eq!(
        check_client_contents(CLIENT, "secret", Some("other")).unwrap_err().message,
        "OAuth client ID does not match the Desktop client JSON"
    );
    assert!(check_client_contents(CLIENT, "", None).is_err());
    assert!(check_client_contents(CLIENT, "a\nb", None).is_err());
    assert!(check_live_client_file(&path("x"), 0).is_err());
    assert!(check_live_client_file(&path("x"), 5).is_ok());
    assert!(check_live_client(CLIENT, "s").is_ok());
    assert!(check_live_client("x", "s").is_err());
}

#[test]
fn the_client_identity_comes_from_the_argument_first() {
    assert_eq!(resolve_client_id(Some(CLIENT), Some("bad")).unwrap(), CLIENT);
    assert_eq!(resolve_client_id(None, Some(CLIENT)).unwrap(), CLIENT);
    assert_eq!(
        resolve_client_id(None, None).unwrap_err().message,
        "Google OAuth client ID is required via --client-id, --client-credentials, or \
         MIRAGE_DRIVE_CLIENT_ID"
    );
    assert_eq!(resolve_token_path(Some(&path("t")), None, '/').unwrap(), "t");
    assert!(resolve_token_path(Some(&relative("t")), None, '/').is_err());
    assert!(resolve_token_path(None, None, '/').is_err());
    assert_eq!(
        resolve_token_path(None, Some(r"C:\l"), '\\').unwrap(),
        r"C:\l\MirageSSD\credentials\drive-token.json"
    );
}

#[test]
fn callbacks_are_read_from_the_request_line() {
    let request = "GET /oauth/callback?state=a%20b&code=c&state=z HTTP/1.1\r\nHost: x\r\n\r\n";
    let callback = parse_request(Some(request)).unwrap().unwrap();
    assert_eq!(callback.state, "a b");
    assert_eq!(callback.code.as_deref(), Some("c"));
    assert!(callback.error.is_none());
    let denied = parse_request(Some("GET /oauth/callback?error=no&state=s HTTP/1.0")).unwrap();
    assert_eq!(denied.unwrap().error.as_deref(), Some("no"));
    assert!(parse_request(Some("GET /favicon.ico HTTP/1.1\r\n")).unwrap().is_none());
    assert_eq!(
        parse_request(Some("GET /oauth/callback?code=c HTTP/1.1")).unwrap_err().message,
        "OAuth callback omitted state"
    );
    for request in ["", "POST / HTTP/1.1", "GET /", "GET / HTTP/2"] {
        assert_eq!(
            parse_request(Some(request)).unwrap_err().message,
            "OAuth callback request was invalid"
        );
    }
    assert!(parse_request(None).is_err());
    assert_eq!(
        parse_request(Some("GET :99999999/ HTTP/1.1")).unwrap_err().message,
        "OAuth callback URL was invalid"
    );
}

#[test]
fn of_repeated_names_the_first_value_counts() {
    let query = vec![
        ("state".to_owned(), "one".to_owned()),
        ("state".to_owned(), "two".to_owned()),
    ];
    let callback = read_callback("/oauth/callback", &query).unwrap().unwrap();
    assert_eq!(callback.state, "one");
    assert!(read_callback("/", &query).unwrap().is_none());
    assert!(read_callback("/oauth/callback", &vec![]).is_err());
}

#[test]
fn callbacks_are_answered_in_http() {
    assert_eq!(redirect_uri(8080), "http://127.0.0.1:8080/oauth/callback");
    assert_eq!(
        respond(404, "ä"),
        "HTTP/1.1 404 Error\r\nContent-Type: text/html; charset=utf-8\r\nContent-Length: 68\r\n\
         Connection: close\r\n\r\n<!doctype html><meta charset=utf-8><title>MirageSSD</title><p>ä</p>"
    );
    let (page, done) = answer_callback(CallbackOutcome::Accepted);
    assert!(page.starts_with("HTTP/1.1 200 OK\r\n") && done);
    let (page, done) = answer_callback(CallbackOutcome::Unrelated);
    assert!(page.starts_with("HTTP/1.1 404 Error\r\n") && !done);
    let (page, done) = answer_callback(CallbackOutcome::Refused);
    assert!(page.starts_with("HTTP/1.1 400 Error\r\n") && done);
    assert!(check_deadline(29_999, 30).is_ok());
    assert_eq!(
        check_deadline(30_000, 30).unwrap_err().kind,
        MirageErrorKind::BackendUnavailable
    );
}

#[test]
fn grants_have_exactly_the_scope_that_was_asked_for() {
    assert_eq!(granted_scopes(&vec![]).unwrap(), [DRIVE_FILE]);
    assert_eq!(granted_scopes(&list(&[DRIVE_FILE])).unwrap(), [DRIVE_FILE]);
    assert_eq!(
        granted_scopes(&list(&[DRIVE_FILE, "more"])).unwrap_err().kind,
        MirageErrorKind::BackendPermissionDenied
    );
    assert!(require_refresh_token(true).is_ok());
    assert!(require_refresh_token(false).is_err());
    assert!(check_stored_scope(&list(&[DRIVE_FILE])).is_ok());
    assert!(check_stored_scope(&vec![]).is_err());
    assert!(check_account("a", "a").is_ok());
    assert!(check_account("a", "b").is_err());
    assert_eq!(quota_available(Some(5), 3), Some(2));
    assert_eq!(quota_available(Some(5), 9), Some(0));
    assert_eq!(quota_available(None, 9), None);
}

#[test]
fn the_login_status_is_told_without_tokens() {
    let status = backend_status(Some(LoginMetadata {
        account_id: "me".to_owned(),
        scopes: list(&["a", "b"]),
        issued_unix_seconds: 7,
    }));
    assert_eq!(
        status_lines(&status),
        [
            "Google Drive: authenticated",
            "Account ID: me",
            "Scopes: a, b",
            "Credential protection: current-user-dpapi",
        ]
    );
    assert_eq!(
        status_lines(&backend_status(None)),
        ["Google Drive: not authenticated", "Credential protection: current-user-dpapi"]
    );
    assert_eq!(logout_line(true), "Google Drive credentials removed.");
    assert_eq!(logout_line(false), "Google Drive credentials were not present.");
    assert_eq!(live_lines("me", Some(5))[2], "Available quota: 5");
    assert_eq!(live_lines("me", None)[2], "Available quota: unlimited");
}

// ---------------------------------------------------------------------------
// Diagnostics
// ---------------------------------------------------------------------------

#[test]
fn dates_are_civil_utc_dates() {
    assert_eq!(timestamp(0), "19700101-000000");
    assert_eq!(timestamp(1_709_251_199), "20240229-235959");
    assert_eq!(timestamp(1_709_251_200), "20240301-000000");
    assert_eq!(timestamp(951_782_400), "20000229-000000");
    assert_eq!(timestamp(4_107_542_400), "21000301-000000");
    assert_eq!(civil_date(0), CivilDate { year: 1970, month: 1, day: 1 });
    assert_eq!(civil_date(364), CivilDate { year: 1970, month: 12, day: 31 });
}

fn archive_file(name: &str, bytes: &[u8]) -> ArchiveFile {
    ArchiveFile { name: name.to_owned(), bytes: bytes.to_vec() }
}

#[test]
fn zip_store_writer_produces_a_valid_archive() {
    let bytes = build_zip(&vec![archive_file("a.txt", b"hello")]);
    assert_eq!(&bytes[..4], &0x04034b50_u32.to_le_bytes());
    assert!(bytes.ends_with(&[0; 1]) || bytes.len() > 60);
    assert!(bytes.windows(5).any(|w| w == b"a.txt"));
}

#[test]
fn archives_hold_checksums_lengths_and_places() {
    let bytes = build_zip(&vec![archive_file("a.txt", b"hello"), archive_file("b", b"")]);
    assert_eq!(&bytes[14..18], &0x3610_a686_u32.to_le_bytes());
    assert_eq!(&bytes[18..22], &5_u32.to_le_bytes());
    assert_eq!(&bytes[30..35], b"a.txt");
    assert_eq!(&bytes[35..40], b"hello");
    assert_eq!(&bytes[40..44], &0x04034b50_u32.to_le_bytes());
    let central = 40 + 31;
    assert_eq!(&bytes[central..central + 4], &0x02014b50_u32.to_le_bytes());
    let second = central + 46 + 5;
    assert_eq!(&bytes[second + 42..second + 46], &40_u32.to_le_bytes());
    let end = second + 46 + 1;
    assert_eq!(&bytes[end..end + 4], &0x06054b50_u32.to_le_bytes());
    assert_eq!(&bytes[end + 10..end + 12], &2_u16.to_le_bytes());
    assert_eq!(&bytes[end + 16..end + 20], &(central as u32).to_le_bytes());
    assert_eq!(bytes.len(), end + 22);
    assert_eq!(build_zip(&vec![]).len(), 22);
}

#[test]
fn only_logs_are_collected() {
    assert!(collects("service.log", true, 5));
    assert!(collects("service.log.1", true, MAX_LOG_BYTES));
    assert!(!collects("service.log", true, MAX_LOG_BYTES + 1));
    assert!(!collects("drive-token.json", true, 5));
    assert!(!collects("service.log", false, 5));
    assert_eq!(entry_name("user", "a.log"), "user/a.log");
    let files = assemble(
        vec![archive_file("service/a.log", b"1")],
        vec![archive_file("user/b.log", b"2")],
        "s".to_owned(),
        "d".to_owned(),
        "v".to_owned(),
    );
    let names: Vec<&str> = files.iter().map(|file| file.name.as_str()).collect();
    assert_eq!(
        names,
        ["service/a.log", "user/b.log", "status.json", "disk-status.json", "versions.txt"]
    );
}

#[test]
fn version_reports_name_the_digest_of_each_executable() {
    let found = vec![FoundExecutable {
        name: "mirage.exe".to_owned(),
        path: r"C:\mirage.exe".to_owned(),
        contents: b"abc".to_vec(),
    }];
    assert_eq!(
        versions("0.1", &found),
        "mirage-cli 0.1\nmirage.exe C:\\mirage.exe \
         ba7816bf8f01cfea414140de5dae2223b00361a396177a9cb410ff61f20015ad\n"
    );
    assert_eq!(service_logs_root(None, '\\'), r"C:\ProgramData\MirageSSD\logs");
    assert_eq!(user_logs_root(None, '\\'), r"MirageSSD\logs");
    assert_eq!(
        default_destination(Some(r"C:\u"), '\\', "20240229-235959"),
        r"C:\u\Desktop\MirageSSD-diagnostics-20240229-235959.zip"
    );
    assert_eq!(
        error_document(&MirageError::invalid_argument("m")),
        "{\"error\":\"[MIRAGE_INVALID_ARGUMENT] m\"}"
    );
}

// ---------------------------------------------------------------------------
// Sizes, versions, maintenance
// ---------------------------------------------------------------------------

#[test]
fn byte_sizes_are_taken_apart() {
    let parts = split_byte_size(" 1.5 GiB ").unwrap();
    assert_eq!((parts.number.as_str(), parts.unit.as_str()), ("1.5", "GiB"));
    assert_eq!(unit_multiplier(&parts.unit).unwrap(), 1 << 30);
    assert_eq!(split_byte_size("4096").unwrap().unit, "");
    assert_eq!(split_byte_size(".5k").unwrap().number, ".5");
    for bad in ["abc", "-5", "", ".", "1.2.3", "GiB"] {
        assert_eq!(split_byte_size(bad).unwrap_err().message, "invalid byte size");
    }
    for (unit, bytes) in [
        ("", 1_u64),
        ("b", 1),
        ("K", 1000),
        ("kb", 1000),
        ("KiB", 1 << 10),
        ("M", 1_000_000),
        ("MiB", 1 << 20),
        ("GB", 1_000_000_000),
        ("T", 1_000_000_000_000),
        ("TiB", 1 << 40),
    ] {
        assert_eq!(unit_multiplier(unit).unwrap(), bytes);
    }
    assert_eq!(unit_multiplier("QB").unwrap_err().message, "unknown byte-size unit");
    assert!(unit_multiplier(&split_byte_size("1e30").unwrap().unit).is_err());
}

#[test]
fn build_hashes_are_hexadecimal() {
    assert!(valid_build_hash("0123abc"));
    assert!(valid_build_hash(&"F".repeat(64)));
    assert!(!valid_build_hash("012345"));
    assert!(!valid_build_hash(&"f".repeat(65)));
    assert!(!valid_build_hash("0123abg"));
    assert_eq!(build_hash(Some("0123abc"), Some("fedcba9\n")), "0123abc");
    assert_eq!(build_hash(Some("bad"), Some("fedcba9\n")), "fedcba9");
    assert_eq!(build_hash(None, None), "unknown");
    let info = VersionInfo {
        cli_version: "0.1".to_owned(),
        rust_version: "rustc 1.94".to_owned(),
        build_hash: "abc".to_owned(),
        target: "x86_64".to_owned(),
    };
    assert_eq!(version_line(&info), "mirage 0.1 (abc; x86_64; rustc 1.94)");
    assert_eq!(schema_line(), "schemas: cli-envelope=1, service-config=1, public-error=1");
    assert_eq!(configuration_line(1), "configuration valid (format 1)");
}

#[test]
fn failures_go_to_the_log_that_was_named() {
    assert_eq!(log_file_argument(&list(&["mirage", "--log-file", "x", "--log-file", "y"])), Some(2));
    assert_eq!(log_file_argument(&list(&["mirage", "--log-file"])), None);
    assert_eq!(log_file_argument(&list(&["mirage"])), None);
    assert_eq!(command_error_line("m"), "MirageSSD command error: m\n");
}

#[test]
fn databases_pass_only_without_findings() {
    let good = DatabaseReport {
        quick_check_ok: true,
        integrity_check_ok: true,
        foreign_key_violation_count: 0,
    };
    assert!(check_database(&good).is_ok());
    let bad = DatabaseReport { foreign_key_violation_count: 3, ..good };
    assert_eq!(
        check_database(&bad).unwrap_err().message,
        "database check failed with 3 foreign-key violations"
    );
    assert!(check_database(&DatabaseReport { quick_check_ok: false, ..good }).is_err());
    assert!(check_database(&DatabaseReport { integrity_check_ok: false, ..good }).is_err());
}

#[test]
fn cache_pages_are_classified_and_counted() {
    assert_eq!(integrity_class(&vec![]), IntegrityClass::Clean);
    assert_eq!(integrity_class(&vec![PinReason::Other]), IntegrityClass::PinnedClean);
    assert_eq!(
        integrity_class(&vec![PinReason::Other, PinReason::Dirty]),
        IntegrityClass::Dirty
    );
    let counts = count_outcomes(&vec![
        VerifyOutcome::Verified,
        VerifyOutcome::Absent,
        VerifyOutcome::Verified,
        VerifyOutcome::Quarantined,
        VerifyOutcome::RecoveryRequired,
    ]);
    assert_eq!(
        verify_line(&counts),
        "cache verify: 2 verified, 1 quarantined, 1 recovery-required"
    );
    assert_eq!(check_line(4, 3, 2, 1), "cache check: 4 inspected, 3 planned, 2 repaired, 1 blocked");
    assert_eq!(pages_to_verify(5, Some(2)), 2);
    assert_eq!(pages_to_verify(5, Some(9)), 5);
    assert_eq!(pages_to_verify(5, None), 5);
}

// ---------------------------------------------------------------------------
// Repositories
// ---------------------------------------------------------------------------

#[test]
fn extensions_are_normalized() {
    let given = list(&[".PAK", "bin", "pak", "..Ucas"]);
    assert_eq!(classification_rules(&given, 1).unwrap(), ["PAK", "bin", "pak", "Ucas"]);
    assert_eq!(reported_extensions(&given, 1).unwrap(), ["bin", "pak", "ucas"]);
    let bounds = "virtual asset classification policy is out of bounds";
    assert_eq!(classification_rules(&given, 0).unwrap_err().message, bounds);
    assert_eq!(classification_rules(&vec!["a".to_owned(); 65], 1).unwrap_err().message, bounds);
    for bad in ["", "...", "a.b", "12345678901234567", "é"] {
        assert_eq!(
            reported_extensions(&list(&[bad]), 1).unwrap_err().message,
            "virtual asset extensions must be 1-16 ASCII alphanumeric characters"
        );
    }
}

#[test]
fn packs_are_found_in_order() {
    assert!(is_pack_name("pack-1.bin"));
    assert!(!is_pack_name("pack-1.bin.partial"));
    let names = list(&["pack-b.bin", "base-manifest.cbor", "pack-a.bin", "pack-B.bin"]);
    assert_eq!(pack_files(&names), ["pack-B.bin", "pack-a.bin", "pack-b.bin"]);
    assert!(check_packs(0, 0).is_ok());
    assert!(check_packs(1, 5).is_ok());
    assert_eq!(check_packs(0, 5).unwrap_err().message, "import contains no pack files");
    let one = RepositoryId::from_bytes([1; 16]);
    let two = RepositoryId::from_bytes([2; 16]);
    assert!(check_manifest(&one, &one, "--repository-id").is_ok());
    assert_eq!(
        check_manifest(&one, &two, "--repository-id").unwrap_err().message,
        "import manifest repository does not match --repository-id"
    );
}

#[test]
fn content_keys_are_never_replaced() {
    let packs = list(&["pack-1.bin"]);
    assert_eq!(key_plan(true, false, &packs).unwrap(), KeyPlan::Unencrypted);
    assert_eq!(key_plan(false, true, &packs).unwrap(), KeyPlan::Load);
    assert_eq!(key_plan(false, false, &vec![]).unwrap(), KeyPlan::Create);
    assert_eq!(
        key_plan(false, false, &packs).unwrap_err().message,
        "encrypted import key is missing for existing packs"
    );
}

#[test]
fn hexadecimal_arguments_have_their_exact_length() {
    assert_eq!(parse_hex::<2>("00Ff", "key").unwrap(), [0, 255]);
    assert_eq!(
        parse_hex::<2>("00f", "key").unwrap_err().message,
        "key must be exactly 4 hexadecimal characters"
    );
    assert!(parse_hex::<2>("00fg", "key").is_err());
    let parts = signer(&"01".repeat(16), &"02".repeat(32)).unwrap();
    assert_eq!((parts.key_id, parts.key), ([1; 16], [2; 32]));
    assert_eq!(
        signer("x", "y").err().unwrap().message,
        "key id must be exactly 32 hexadecimal characters"
    );
    assert_eq!(
        signer(&"01".repeat(16), "y").err().unwrap().message,
        "test key must be exactly 64 hexadecimal characters"
    );
}

#[test]
fn requests_outside_the_milestone_are_refused() {
    assert!(check_local_only(true).is_ok());
    assert!(check_local_only(false).is_err());
    assert!(check_level("metadata").is_ok());
    assert!(check_level("content").is_err());
    assert!(write_new_or_identical(None, b"x").unwrap());
    assert!(!write_new_or_identical(Some(b"x"), b"x").unwrap());
    assert!(write_new_or_identical(Some(b"y"), b"x").is_err());
}

#[test]
fn reports_stay_outside_the_scanned_tree() {
    let root = list(&["/", "games"]);
    assert!(ensure_report_outside_source(&root, &list(&["/", "reports"]), Some("r.json")).is_ok());
    assert!(ensure_report_outside_source(&root, &list(&["/"]), Some("r.json")).is_ok());
    for parent in [list(&["/", "games"]), list(&["/", "games", "deep"])] {
        assert_eq!(
            ensure_report_outside_source(&root, &parent, Some("r.json")).unwrap_err().message,
            "inventory report must be outside the scanned source tree"
        );
    }
    assert!(ensure_report_outside_source(&root, &list(&["/"]), Some("games")).is_err());
    assert!(ensure_report_outside_source(&root, &list(&["/"]), None).is_err());
    let taken = list(&[".r.json.mirage-tmp-0", ".r.json.mirage-tmp-1"]);
    assert_eq!(
        temporary_report_name(Some("r.json"), &taken).unwrap(),
        ".r.json.mirage-tmp-2"
    );
    assert!(temporary_report_name(None, &taken).is_err());
}

// ---------------------------------------------------------------------------
// Simulation
// ---------------------------------------------------------------------------

#[test]
fn networks_are_built_from_latencies() {
    let model = network(5, 7, 3).unwrap();
    assert_eq!(model.base_latency_ns, 5_000_000);
    assert_eq!((model.jitter_ns, model.jitter_seed, model.max_concurrency), (0, 3, 1));
    assert!(network(u64::MAX, 7, 3).is_err());
    let networks = sweep_networks(&vec![1, 2], 7).unwrap();
    assert_eq!(networks[1].jitter_seed, 1);
    assert_eq!(networks[1].base_latency_ns, 2_000_000);
    assert!(sweep_networks(&vec![1, u64::MAX], 7).is_err());
}

#[test]
fn traces_are_checked_before_they_are_replayed() {
    assert!(check_page_size(4096, 4096).is_ok());
    assert!(check_page_size(4096, 8192).is_err());
    assert!(admit_block(MAX_SESSION_EVENTS - 1, 1).is_ok());
    assert!(admit_block(MAX_SESSION_EVENTS, 1).is_err());
    assert!(admit_block(1, usize::MAX).is_err());
    let clean = TraceQuality { non_monotonic_timestamps: 0, unknown_files: 0, invalid_ranges: 0 };
    assert!(check_quality(&clean).is_ok());
    assert!(check_quality(&TraceQuality { invalid_ranges: 1, ..clean }).is_err());
    assert!(check_sweep(&vec![1, 2], 2).is_ok());
    assert!(check_sweep(&vec![1, 2], 3).is_err());
}

// ---------------------------------------------------------------------------
// The Drive gate
// ---------------------------------------------------------------------------

#[test]
fn random_numbers_are_the_published_ones() {
    let mut state = 0;
    assert_eq!(splitmix64(&mut state), 0xE220_A839_7B1D_CDAF);
    assert_eq!(splitmix64(&mut state), 0x6E78_9E6A_A1B9_65F4);
}

#[test]
fn gate_pages_are_deterministic_and_different() {
    let page = gate_page("base", 0);
    assert_eq!(page.len() as u64, PAGE_BYTES);
    assert_eq!(page, gate_page("base", 0));
    assert_ne!(page[..64], gate_page("base", 1)[..64]);
    assert_ne!(page[..64], gate_page("update", 0)[..64]);
    assert_eq!(gate_slice("base", 0, 100, 50), page[100..150]);
    assert_ne!(repository_id("a"), repository_id("b"));
    assert_ne!(update_id(repository_id("a")), *repository_id("a").as_bytes());
}

#[test]
fn reads_are_cut_at_page_bounds() {
    let mut state = initial_state(false);
    for _ in 0..100 {
        let read = next_read(&mut state);
        assert!(read.length >= 1 && read.start + read.length <= LOGICAL_BYTES);
        let total: u64 = read_segments(read).iter().map(|segment| segment.take).sum();
        assert_eq!(total, read.length);
    }
    let segments = read_segments(RandomRead { start: PAGE_BYTES - 10, length: 30 });
    assert_eq!(segments.len(), 2);
    assert_eq!((segments[0].page, segments[0].in_page, segments[0].take), (0, PAGE_BYTES - 10, 10));
    assert_eq!((segments[1].page, segments[1].in_page, segments[1].take), (1, 0, 20));
    assert_ne!(initial_state(false), initial_state(true));
}

#[test]
fn wrong_bytes_are_counted() {
    let segment = read_segments(RandomRead { start: 5, length: 40 }).remove(0);
    let (domain, index) = backing(false, 0);
    let mut page = gate_page(domain, index);
    assert_eq!(incorrect_bytes(&page, segment, false), 0);
    page[6] ^= 1;
    page[44] ^= 1;
    page[45] ^= 1;
    assert_eq!(incorrect_bytes(&page, segment, false), 2);
}

#[test]
fn the_page_cache_keeps_to_its_cap() {
    let mut cache = PageCache::new(10);
    cache.insert([1; 32], vec![1; 6]).unwrap();
    assert_eq!(cache.get(&[1; 32]), Some(vec![1; 6]));
    cache.insert([2; 32], vec![2; 6]).unwrap();
    assert_eq!(cache.get(&[1; 32]), None);
    assert_eq!(cache.get(&[2; 32]), Some(vec![2; 6]));
    assert!(cache.peak() <= 10);
    assert_eq!(
        cache.insert([3; 32], vec![3; 11]).unwrap_err().kind,
        MirageErrorKind::CacheFull
    );
}

fn connected(account: &str) -> GateEvent {
    GateEvent::Connected {
        account_id: account.to_owned(),
        quota_limit: Some(100),
        quota_usage: 40,
    }
}

fn passing_events() -> Vec<GateEvent> {
    vec![
        connected("me"),
        GateEvent::BasePublished { commit: [1; 32], pack_bytes: 10, injected: 2, retries: 2 },
        GateEvent::Probed { early: false, offset: 256 * 1024, completed: true },
        connected("me"),
        GateEvent::Recovered { head: [1; 32], chain_length: 1, generation: 0 },
        GateEvent::Read { incorrect: 0, peak: 5 },
        GateEvent::Refetched { same: true, peak: 5 },
        GateEvent::Recovered { head: [1; 32], chain_length: 1, generation: 0 },
        GateEvent::Staged {
            remote_hash: [3; 32],
            local_hash: [3; 32],
            remote_bytes: 7,
            local_bytes: 7,
        },
        GateEvent::Reread { same: true },
        GateEvent::UpdatePublished { commit: [2; 32] },
        connected("me"),
        GateEvent::Recovered { head: [2; 32], chain_length: 2, generation: 1 },
        GateEvent::Read { incorrect: 0, peak: 6 },
    ]
}

fn run_gate(events: Vec<GateEvent>) -> Result<GateRun, MirageError> {
    let mut run = GateRun::begin();
    for event in events {
        run = run.advance(event)?;
    }
    Ok(run)
}

#[test]
fn a_correct_gate_run_passes_and_leaves_evidence() {
    let run = run_gate(passing_events()).ok().unwrap();
    assert_eq!(run.stage, GateStage::Passed);
    let cost = ProviderTotals { requests: 1, retries: 2, uploaded_bytes: 3, downloaded_bytes: 4 };
    let cost = combined(cost, cost).unwrap();
    assert_eq!((cost.requests, cost.downloaded_bytes), (2, 8));
    assert!(combined(cost, ProviderTotals { retries: u64::MAX, ..cost }).is_none());
    let proof = evidence(&run, 99, cost).unwrap();
    assert_eq!(proof.provider, cost);
    assert!(proof.physical_model.starts_with("100 GiB logical corpus"));
    assert_eq!(proof.incorrect_bytes, 0);
    assert_eq!(proof.signed_chain_length, 2);
    assert_eq!(proof.authoritative_generation, 1);
    assert_eq!(proof.completed_unix_seconds, 99);
    assert_eq!(proof.quota_available_before_bytes, Some(60));
    assert_eq!(proof.gate_d_cache_cap_bytes, cache_cap(false));
    let half = run_gate(passing_events().into_iter().take(5).collect()).ok().unwrap();
    assert!(evidence(&half, 99, cost).is_none());
}

#[test]
fn any_wrong_report_fails_the_gate() {
    let mut wrong_account = passing_events();
    wrong_account[3] = connected("other");
    assert!(run_gate(wrong_account).is_err());
    let mut wrong_head = passing_events();
    wrong_head[4] = GateEvent::Recovered { head: [9; 32], chain_length: 1, generation: 0 };
    assert!(run_gate(wrong_head).is_err());
    let mut wrong_bytes = passing_events();
    wrong_bytes[13] = GateEvent::Read { incorrect: 1, peak: 6 };
    assert!(run_gate(wrong_bytes).is_err());
    let mut not_same = passing_events();
    not_same[6] = GateEvent::Refetched { same: false, peak: 5 };
    assert!(run_gate(not_same).is_err());
    let mut out_of_order = passing_events();
    out_of_order.swap(0, 1);
    assert!(run_gate(out_of_order).is_err());
}

#[test]
fn gate_packs_and_faults_are_what_they_have_to_be() {
    assert_eq!(choose_pack(0).unwrap(), PackChoice::Create);
    assert_eq!(choose_pack(1).unwrap(), PackChoice::Verify);
    assert!(choose_pack(2).is_err());
    let pages = vec![gate_page("base", 0), gate_page("base", 1)];
    assert!(verify_pack(true, &pages, "base", 2).is_ok());
    assert!(verify_pack(false, &pages, "base", 2).is_err());
    assert!(verify_pack(true, &pages, "base", 3).is_err());
    assert!(verify_pack(true, &pages, "update", 2).is_err());
    let mut faults = FaultOnce::new();
    assert_eq!(faults.next(), InjectedFault::TooManyRequests);
    assert_eq!(faults.next(), InjectedFault::Interruption);
    assert_eq!(faults.next(), InjectedFault::PassThrough);
    assert_eq!(faults.injected(), 2);
    assert!(check_work_directory(true, false).is_ok());
    assert!(check_work_directory(false, false).is_err());
    assert!(check_work_directory(true, true).is_err());
}

#[test]
fn batches_ask_for_the_pages_of_every_read() {
    let mut batch = ReadBatch::new(false);
    let mut state = initial_state(false);
    for _ in 0..3 {
        for segment in read_segments(next_read(&mut state)) {
            let wanted = batch.wanted().unwrap();
            assert_eq!(wanted, segment);
            assert_eq!(batch.wanted().unwrap(), segment);
            let (domain, index) = backing(false, segment.page);
            let mut page = gate_page(domain, index);
            assert!(!batch.compare(&page[..10]));
            if segment.in_page > 0 {
                page[0] ^= 1;
            }
            assert!(batch.compare(&page));
            assert!(!batch.compare(&page));
        }
    }
    assert_eq!(batch.incorrect(), 0);
    let wanted = batch.wanted().unwrap();
    assert!(batch.compare(&vec![0; PAGE_BYTES as usize]));
    assert!(batch.incorrect() > 0 && batch.incorrect() <= wanted.take);
}

fn entry(byte: u8) -> PackEntry {
    PackEntry {
        page_hash: [byte; 32],
        frame_offset: 1000 + u64::from(byte),
        frame_length: 2000,
        logical_length: 3000,
    }
}

#[test]
fn manifests_repeat_the_unique_pages_in_turn() {
    let unique: Vec<[u8; 32]> = (0..BASE_UNIQUE_PAGES as u8).map(|byte| [byte; 32]).collect();
    let entries: Vec<PackEntry> = (0..BASE_UNIQUE_PAGES as u8).map(entry).collect();
    let pages = base_pages(&unique, &entries).unwrap();
    assert_eq!(pages.len() as u32, LOGICAL_PAGES);
    assert_eq!(pages[65].page_hash, [1; 32]);
    assert_eq!(pages[65].frame_offset, 1001);
    assert_eq!(u64::from(pages[65].logical_length), PAGE_BYTES);
    assert_eq!(
        base_pages(&unique, &entries[1..].to_vec()).unwrap_err().message,
        "base pack omitted a deterministic page"
    );
    let few = unique[..UPDATE_UNIQUE_PAGES as usize].to_vec();
    let mapped = update_pages(&few, &entries).unwrap();
    assert_eq!(mapped.len() as u32, UPDATED_LOGICAL_PAGES);
    assert_eq!((mapped[17].page_index, mapped[17].page_hash), (17, [1; 32]));
    assert_eq!(mapped[17].logical_length, 3000);
    assert!(update_pages(&few, &vec![]).is_err());
}

#[test]
fn pages_are_loaded_from_the_cache_first() {
    let pages = vec![
        GatePage { plaintext_hash: [1; 32], remote_location: 0, logical_length: 3 },
        GatePage { plaintext_hash: [2; 32], remote_location: 1, logical_length: 3 },
        GatePage { plaintext_hash: [3; 32], remote_location: 9, logical_length: 3 },
    ];
    let locations = vec![
        GateLocation { offset: 0, encoded_length: 3, compressed: false },
        GateLocation { offset: 3, encoded_length: 3, compressed: true },
    ];
    let mut cache = PageCache::new(10);
    assert!(matches!(
        plan_load(&pages, &locations, 0, &cache),
        Ok(PageLoad::Fetch { location: 0 })
    ));
    cache.insert([1; 32], vec![7; 3]).unwrap();
    match plan_load(&pages, &locations, 0, &cache) {
        Ok(PageLoad::Cached { bytes }) => assert_eq!(bytes, [7; 3]),
        _ => panic!("the page is cached"),
    }
    assert_eq!(
        plan_load(&pages, &locations, 1, &cache).unwrap_err().kind,
        MirageErrorKind::UnsupportedLayout
    );
    assert_eq!(
        plan_load(&pages, &locations, 2, &cache).unwrap_err().message,
        "Drive gate remote location is absent"
    );
    assert_eq!(
        plan_load(&pages, &locations, 3, &cache).unwrap_err().message,
        "Drive gate page ordinal is absent"
    );
}
