use cargo_cross::download::{
    progress_kind, Progress, archive_name, classify_entry, finalize_plan, is_retryable_error, needs_download, next_step,
    permission_order, resolve_format, retry_delay_secs, temp_name, writable_mode, ArchiveFormat,
    DownloadTask, EntryKind, Failure, Finalize, Outcome, Step, MAX_RETRIES,
};
use cargo_cross::error::CrossError;
use cargo_cross::orchestrator::{
    provisioning_due, advance, after_target, lists_target, offers_target, prereq, setup_cross_env, Event, Next,
    Prereq, Provisioner, Stage,
};
use cargo_cross::config::get_target_config;

#[test]
fn format_detection_ignores_case() {
    assert_eq!(ArchiveFormat::from_url("https://x/Y.TAR.GZ"), Some(ArchiveFormat::TarGz));
    assert_eq!(ArchiveFormat::from_url("A.Zip"), Some(ArchiveFormat::Zip));
    assert_eq!(ArchiveFormat::from_lowercase("A.ZIP"), None);
    assert_eq!(ArchiveFormat::from_url("zip"), None);
    assert_eq!(ArchiveFormat::from_url(""), None);
}

#[test]
fn format_is_the_callers_or_the_urls() {
    assert!(matches!(resolve_format("a.bin", Some(ArchiveFormat::Zip)), Ok(ArchiveFormat::Zip)));
    assert!(matches!(resolve_format("a.tgz", None), Ok(ArchiveFormat::TarGz)));
    assert!(matches!(resolve_format("a.zip", Some(ArchiveFormat::TarGz)), Ok(ArchiveFormat::TarGz)));
    match resolve_format("a.bin", None) {
        Err(CrossError::UnsupportedArchiveFormat(u)) => assert_eq!(u, "a.bin"),
        _ => panic!("expected an error"),
    }
}

#[test]
fn names_beside_the_destination() {
    assert_eq!(temp_name("v0.7.7"), "v0.7.7.tmp");
    assert_eq!(archive_name("x.tmp", ArchiveFormat::TarGz), "x.tmp.tar.gz");
    assert_eq!(archive_name("x.tmp", ArchiveFormat::Zip), "x.tmp.zip");
}

#[test]
fn two_server_errors_then_success() {
    assert_eq!(next_step(0, Outcome::Response(503)), Step::Retry { delay_secs: 1 });
    assert_eq!(next_step(1, Outcome::Response(503)), Step::Retry { delay_secs: 2 });
    assert_eq!(next_step(2, Outcome::Response(200)), Step::Accept);
}

#[test]
fn ceiling_of_consecutive_failures_is_fatal() {
    assert_eq!(MAX_RETRIES, 3);
    assert_eq!(next_step(MAX_RETRIES - 1, Outcome::Response(503)), Step::GiveUp);
    assert_eq!(next_step(MAX_RETRIES - 1, Outcome::Failed(Failure::Timeout)), Step::GiveUp);
    assert_eq!(next_step(MAX_RETRIES, Outcome::Failed(Failure::Connect)), Step::GiveUp);
    assert_eq!(next_step(u32::MAX, Outcome::Failed(Failure::Connect)), Step::GiveUp);
}

#[test]
fn fatal_failures_are_not_retried() {
    assert_eq!(next_step(0, Outcome::Response(404)), Step::GiveUp);
    assert_eq!(next_step(0, Outcome::Response(403)), Step::GiveUp);
    assert_eq!(next_step(0, Outcome::Failed(Failure::Other)), Step::GiveUp);
    assert_eq!(next_step(0, Outcome::Failed(Failure::Status(404))), Step::GiveUp);
    assert_eq!(next_step(0, Outcome::Failed(Failure::Status(502))), Step::Retry { delay_secs: 1 });
    assert_eq!(next_step(0, Outcome::Response(206)), Step::Accept);
    assert!(is_retryable_error(Failure::Request));
    assert!(is_retryable_error(Failure::Status(599)));
    assert!(!is_retryable_error(Failure::Status(600)));
    assert!(!is_retryable_error(Failure::Status(499)));
}

#[test]
fn delay_doubles() {
    assert_eq!(retry_delay_secs(1), 1);
    assert_eq!(retry_delay_secs(2), 2);
    assert_eq!(retry_delay_secs(3), 4);
}

fn task(n: u64) -> DownloadTask {
    DownloadTask { url: "u".to_string(), destination_path: "d".to_string(), already_downloaded: n, total_size: None }
}

#[test]
fn resumed_download_is_byte_identical() {
    let data: Vec<u8> = (0..=255u8).cycle().take(1000).collect();
    for honours_range in [true, false] {
        let mut file: Vec<u8> = data[..400].to_vec();
        let mut t = task(file.len() as u64);
        assert_eq!(t.range_start(), Some(400));
        let (status, body) = if honours_range { (206u16, data[400..].to_vec()) } else { (200u16, data.clone()) };
        if !t.appends(status) {
            file.clear();
        }
        t.begin_body(status);
        for chunk in body.chunks(128) {
            file.extend_from_slice(chunk);
            t.record_chunk(chunk.len() as u64);
        }
        assert_eq!(file, data);
        assert_eq!(t.already_downloaded, 1000);
    }
}

#[test]
fn fresh_download_asks_for_everything() {
    let mut t = task(0);
    assert_eq!(t.range_start(), None);
    assert!(!t.appends(206));
    assert!(!t.appends(200));
    t.begin_body(200);
    t.record_chunk(7);
    assert_eq!(t.already_downloaded, 7);
    assert_eq!(t.range_start(), Some(7));
}

#[test]
fn single_top_level_folder_is_unwrapped() {
    assert_eq!(finalize_plan(1, true), Finalize::MoveOnlyChild);
    assert_eq!(finalize_plan(1, false), Finalize::MoveWhole);
    assert_eq!(finalize_plan(2, true), Finalize::MoveWhole);
    assert_eq!(finalize_plan(0, false), Finalize::MoveWhole);
    assert!(needs_download(false, false));
    assert!(needs_download(true, false));
    assert!(!needs_download(true, true));
}

#[test]
fn symlink_entries_are_links_where_supported() {
    assert_eq!(classify_entry(true, false, true), EntryKind::Symlink);
    assert_eq!(classify_entry(true, true, true), EntryKind::Symlink);
    assert_eq!(classify_entry(true, false, false), EntryKind::File);
    assert_eq!(classify_entry(true, true, false), EntryKind::Directory);
    assert_eq!(classify_entry(false, true, true), EntryKind::Directory);
    assert_eq!(classify_entry(false, false, true), EntryKind::File);
    assert_eq!(writable_mode(0o555), 0o755);
    assert_eq!(writable_mode(0), 0o700);
}

#[test]
fn permissions_go_deepest_first() {
    let paths: Vec<String> = ["a", "a/b/c", "a/b", "z", "a/b/c"].iter().map(|s| s.to_string()).collect();
    let order = permission_order(&paths);
    let sorted: Vec<&str> = order.iter().map(|&i| paths[i].as_str()).collect();
    assert_eq!(sorted, vec!["z", "a/b/c", "a/b/c", "a/b", "a"]);
    let mut seen = order.clone();
    seen.sort_unstable();
    assert_eq!(seen, vec![0, 1, 2, 3, 4]);
    assert!(permission_order(&vec![]).is_empty());
}

#[test]
fn stages_run_in_order() {
    let mut s = Stage::Idle;
    for (e, expect) in [
        (Event::Start, Stage::PrereqCheck),
        (Event::Succeeded, Stage::Provision),
        (Event::Succeeded, Stage::Compose),
        (Event::Succeeded, Stage::Invoke),
        (Event::Exited(0), Stage::Done),
        (Event::Start, Stage::Done),
    ] {
        s = advance(s, e);
        assert_eq!(s, expect);
    }
    assert_eq!(advance(Stage::Invoke, Event::Exited(2)), Stage::Failed);
    assert_eq!(advance(Stage::Provision, Event::Errored), Stage::Failed);
    assert_eq!(advance(Stage::Idle, Event::Succeeded), Stage::Failed);
    assert_eq!(advance(Stage::Failed, Event::Succeeded), Stage::Failed);
}

#[test]
fn first_failure_stops_the_run() {
    assert_eq!(after_target(0, 3, Stage::Done, Some(0)), Next::Target(1));
    assert_eq!(after_target(2, 3, Stage::Done, Some(0)), Next::Finish);
    assert_eq!(after_target(0, 3, Stage::Failed, Some(101)), Next::Stop(101));
    assert_eq!(after_target(0, 3, Stage::Failed, None), Next::Stop(1));
    assert_eq!(after_target(0, 3, Stage::Failed, Some(0)), Next::Stop(1));
}

#[test]
fn prerequisites() {
    assert_eq!(prereq(true, true, true), Prereq::Installed);
    assert_eq!(prereq(false, true, true), Prereq::Install);
    assert_eq!(prereq(false, false, true), Prereq::BuildStd);
    assert_eq!(prereq(false, false, false), Prereq::Unknown);
    let lines: Vec<String> = ["  x86_64-unknown-linux-gnu (installed)", " aarch64-apple-darwin \r"]
        .iter()
        .map(|s| s.to_string())
        .collect();
    assert!(lists_target(&lines, "aarch64-apple-darwin"));
    assert!(!lists_target(&lines, "x86_64-unknown-linux-gnu"));
    assert!(offers_target(&lines, "x86_64-unknown-linux-gnu"));
    assert!(!offers_target(&lines, "riscv64"));
}

#[test]
fn provisioner_by_system() {
    let pick = |t: &str, skip: bool| setup_cross_env(&get_target_config(t).unwrap(), skip);
    assert_eq!(pick("x86_64-unknown-linux-musl", false), Provisioner::Linux);
    assert_eq!(pick("x86_64-pc-windows-gnu", false), Provisioner::Windows);
    assert_eq!(pick("x86_64-unknown-freebsd", false), Provisioner::FreeBsd);
    assert_eq!(pick("aarch64-apple-darwin", false), Provisioner::Darwin);
    assert_eq!(pick("aarch64-apple-ios", false), Provisioner::Ios);
    assert_eq!(pick("aarch64-apple-ios-sim", false), Provisioner::Ios);
    assert_eq!(pick("aarch64-linux-android", false), Provisioner::Android);
    assert_eq!(pick("aarch64-linux-android", true), Provisioner::Skip);
}

#[test]
fn progress_against_a_known_total_only() {
    assert_eq!(progress_kind(Some(10)), Progress::Bar(10));
    assert_eq!(progress_kind(None), Progress::Spinner);
}

#[test]
fn errors_have_messages() {
    assert_eq!(CrossError::CargoFailed { code: -7 }.message(), "Cargo exited with code -7");
    assert_eq!(CrossError::CargoFailed { code: 101 }.message(), "Cargo exited with code 101");
    assert_eq!(CrossError::CargoFailed { code: 0 }.message(), "Cargo exited with code 0");
    assert_eq!(
        CrossError::CargoFailed { code: i32::MIN }.message(),
        "Cargo exited with code -2147483648"
    );
    assert_eq!(
        CrossError::TargetNotFound { target: "x".to_string() }.message(),
        "Target not found: x\nUse '--list-targets' to see available targets"
    );
    assert_eq!(
        CrossError::InvalidTargetTriple { target: "a B".to_string(), invalid: ' ' }.message(),
        "Invalid target triple 'a B': contains invalid character ' '\nTarget triples may only contain lowercase letters (a-z), digits (0-9), hyphens (-), and underscores (_)"
    );
    assert_eq!(
        CrossError::UnsupportedGlibcVersion { version: "2.0".to_string(), supported: "2.28".to_string() }
            .message(),
        "Unsupported glibc version '2.0'\nSupported versions: 2.28"
    );
    assert_eq!(CrossError::Other("plain".to_string()).message(), "plain");
    assert_eq!(
        CrossError::TargetInstallFailed { target: "t".to_string() }.message(),
        "Failed to install Rust target: t\nRun 'rustup target add t' manually to see details"
    );
    assert_eq!(cargo_cross::text::decimal(0), "0");
    assert_eq!(cargo_cross::text::decimal(u64::MAX), "18446744073709551615");
}

#[test]
fn range_header_names_the_first_missing_byte() {
    assert_eq!(task(0).range_header(), None);
    assert_eq!(task(1).range_header(), Some("bytes=1-".to_string()));
    assert_eq!(task(4096).range_header(), Some("bytes=4096-".to_string()));
    assert_eq!(task(u64::MAX).range_header(), Some("bytes=18446744073709551615-".to_string()));
}

#[test]
fn provisioning_is_left_out_where_not_due() {
    assert!(provisioning_due(true, false, false));
    assert!(!provisioning_due(false, false, false));
    assert!(!provisioning_due(true, true, false));
    assert!(!provisioning_due(true, false, true));
}
