use ptd_launcher::compute_percent;
use ptd_launcher::milestone;
use ptd_launcher::DownloadError;
use ptd_launcher::DownloadSession;

const MIB: u64 = 1024 * 1024;

#[test]
fn percent_is_the_floored_ratio() {
    assert_eq!(compute_percent(0, 200), 0);
    assert_eq!(compute_percent(50, 200), 25);
    assert_eq!(compute_percent(199, 200), 99);
    assert_eq!(compute_percent(200, 200), 100);
    assert_eq!(compute_percent(1, 3), 33);
}

#[test]
fn percent_of_unknown_total_is_zero() {
    assert_eq!(compute_percent(12345, 0), 0);
}

#[test]
fn percent_is_clamped_when_the_host_lied() {
    assert_eq!(compute_percent(300, 200), 100);
    assert_eq!(compute_percent(u64::MAX, 3), 100);
}

#[test]
fn milestones_carry_the_phrase_and_no_byte_counts() {
    let ev = milestone(&"ruffle".to_string(), 0, "Fetching latest nightly...");
    assert_eq!(ev.item, "ruffle");
    assert_eq!(ev.progress, 0);
    assert_eq!(ev.downloaded, 0);
    assert_eq!(ev.total, 0);
    assert_eq!(ev.status, "Fetching latest nightly...");
}

#[test]
fn http_status_classification() {
    assert!(DownloadSession::check_http_status(200).is_ok());
    assert!(DownloadSession::check_http_status(204).is_ok());
    assert!(DownloadSession::check_http_status(299).is_ok());
    assert!(matches!(
        DownloadSession::check_http_status(404),
        Err(DownloadError::HttpStatus(404))
    ));
    assert!(matches!(
        DownloadSession::check_http_status(500),
        Err(DownloadError::HttpStatus(500))
    ));
    assert!(matches!(
        DownloadSession::check_http_status(199),
        Err(DownloadError::HttpStatus(199))
    ));
    assert!(matches!(
        DownloadSession::check_http_status(301),
        Err(DownloadError::HttpStatus(301))
    ));
}

#[test]
fn declared_length_over_the_limit_dies_before_any_chunk() {
    // Declared content length of 1 GiB against a 500 MiB limit: refused
    // immediately, so no temporary file would ever be created.
    let r = DownloadSession::begin("flash_player".to_string(), 500 * MIB, 1024 * MIB);
    assert!(matches!(r, Err(DownloadError::SizeLimitExceeded)));
}

#[test]
fn declared_length_at_the_limit_is_accepted() {
    let s = DownloadSession::begin("x".to_string(), 500 * MIB, 500 * MIB).unwrap();
    assert_eq!(s.downloaded, 0);
    assert_eq!(s.total, 500 * MIB);
}

#[test]
fn destination_length_equals_the_final_reported_count() {
    // The destination stands in for the published file: it receives
    // exactly the accepted chunks.
    let mut destination: Vec<u8> = Vec::new();
    let mut session = DownloadSession::begin("x".to_string(), 500 * MIB, 25536).unwrap();
    let mut last_reported = 0u64;
    for chunk_len in [1000usize, 24000, 536] {
        let event = session.on_chunk(chunk_len as u64).unwrap();
        destination.extend(std::iter::repeat(0u8).take(chunk_len));
        assert!(event.downloaded >= last_reported);
        last_reported = event.downloaded;
        assert_eq!(event.status, "Downloading...");
        assert_eq!(event.item, "x");
        assert_eq!(event.total, 25536);
    }
    let total = session.finish();
    assert_eq!(total, 25536);
    assert_eq!(destination.len() as u64, total);
    assert_eq!(last_reported, total);
}

#[test]
fn chunk_over_the_limit_aborts_mid_stream() {
    let mut session = DownloadSession::begin("x".to_string(), 100, 0).unwrap();
    assert!(session.on_chunk(60).is_ok());
    let r = session.on_chunk(41);
    assert!(matches!(r, Err(DownloadError::SizeLimitExceeded)));
    // The refused chunk was not counted.
    assert_eq!(session.downloaded, 60);
}

#[test]
fn streaming_percentages_are_exact_and_monotone() {
    let mut session = DownloadSession::begin("x".to_string(), 1000, 200).unwrap();
    let p1 = session.on_chunk(50).unwrap();
    assert_eq!(p1.progress, 25);
    assert_eq!(p1.downloaded, 50);
    let p2 = session.on_chunk(50).unwrap();
    assert_eq!(p2.progress, 50);
    let p3 = session.on_chunk(100).unwrap();
    assert_eq!(p3.progress, 100);
    assert_eq!(p3.downloaded, 200);
}

#[test]
fn unknown_total_streams_with_zero_percent() {
    let mut session = DownloadSession::begin("x".to_string(), 1000, 0).unwrap();
    let p = session.on_chunk(999).unwrap();
    assert_eq!(p.progress, 0);
    assert_eq!(p.downloaded, 999);
    assert_eq!(p.total, 0);
}
