use ptd_launcher::base_url_of;
use ptd_launcher::concat2;
use ptd_launcher::concat3;
use ptd_launcher::join_path;
use ptd_launcher::last_segment;
use ptd_launcher::last_slash_index;
use ptd_launcher::str_contains;
use ptd_launcher::str_ends_with;
use ptd_launcher::str_starts_with;

#[test]
fn join_path_inserts_one_separator() {
    assert_eq!(join_path("/home/u/data", "Games"), "/home/u/data/Games");
    assert_eq!(join_path("", "x"), "/x");
}

#[test]
fn concat_builds_messages() {
    assert_eq!(concat2("PTD1", ".swf"), "PTD1.swf");
    assert_eq!(
        concat3("Game '", "PTD9", "' not found in configuration"),
        "Game 'PTD9' not found in configuration"
    );
}

#[test]
fn base_url_cuts_after_last_slash() {
    assert_eq!(
        base_url_of("https://ptd.onl/ptd1-latest.swf"),
        "https://ptd.onl/"
    );
    assert_eq!(base_url_of("a/b/c"), "a/b/");
}

#[test]
fn base_url_of_slashless_is_itself() {
    assert_eq!(base_url_of("nopath"), "nopath");
}

#[test]
fn last_segment_is_the_archive_name() {
    assert_eq!(
        last_segment("https://host/releases/download/tag/ruffle-nightly-linux-x86_64.tar.gz"),
        "ruffle-nightly-linux-x86_64.tar.gz"
    );
    assert_eq!(last_segment("plain"), "plain");
    assert_eq!(last_segment("ends/with/"), "");
}

#[test]
fn last_slash_index_finds_the_last_one() {
    assert_eq!(last_slash_index("a/b/c"), Some(3));
    assert_eq!(last_slash_index("abc"), None);
    assert_eq!(last_slash_index("/"), Some(0));
}

#[test]
fn ends_and_starts_with() {
    assert!(str_ends_with("archive.tar.gz", ".tar.gz"));
    assert!(!str_ends_with("archive.tar.gz", ".zip"));
    assert!(!str_ends_with("gz", ".tar.gz"));
    assert!(str_starts_with("PTD1-v2.swf", "PTD1-v"));
    assert!(!str_starts_with("PTD1.swf", "PTD1-v"));
    assert!(str_ends_with("x", ""));
    assert!(str_starts_with("x", ""));
}

#[test]
fn contains_finds_substrings() {
    assert!(str_contains(
        "ruffle-nightly-2026_02_09-windows-x86_64.zip",
        "windows-x86_64.zip"
    ));
    assert!(!str_contains("ruffle-nightly-linux-x86_64.tar.gz", "windows"));
    assert!(str_contains("abc", ""));
    assert!(!str_contains("ab", "abc"));
    assert!(str_contains("extension-pack", "extension"));
}
