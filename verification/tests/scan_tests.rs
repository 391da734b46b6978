use pyver::command_cached;
use pyver::command_list;
use pyver::command_which;
use pyver::find_tarball;
use pyver::find_unpacked;
use pyver::str_ends_with;
use pyver::str_starts_with;
use pyver::DirEntry;
use pyver::NotFoundKind;
use pyver::PyVerError;

fn file(name: &str) -> DirEntry {
    DirEntry { name: String::from(name), is_dir: false }
}

fn dir(name: &str) -> DirEntry {
    DirEntry { name: String::from(name), is_dir: true }
}

#[test]
fn find_tarball_matches_tgz() {
    let entries = vec![file("README"), file("Python-3.11.4.tgz")];
    let r = find_tarball("/r/sources/3.11.4", &entries);
    assert_eq!(r.unwrap(), "/r/sources/3.11.4/Python-3.11.4.tgz");
}

#[test]
fn find_tarball_matches_xz() {
    let entries = vec![file("Python-3.11.4.tar.xz")];
    let r = find_tarball("/r/sources/3.11.4", &entries);
    assert_eq!(r.unwrap(), "/r/sources/3.11.4/Python-3.11.4.tar.xz");
}

#[test]
fn find_tarball_takes_first_match_in_listing_order() {
    let entries = vec![file("b.xz"), file("a.tgz")];
    let r = find_tarball("/d", &entries);
    assert_eq!(r.unwrap(), "/d/b.xz");
}

#[test]
fn find_tarball_ignores_other_extensions() {
    let entries = vec![file("Python-3.11.4.tar.gz"), file("notes.txt")];
    let r = find_tarball("/d", &entries);
    assert_eq!(r.unwrap_err(), PyVerError::NotFound { kind: NotFoundKind::Tarball });
}

#[test]
fn find_tarball_on_empty_listing_reports_tarball_not_found() {
    let entries: Vec<DirEntry> = Vec::new();
    let r = find_tarball("/d", &entries);
    assert_eq!(r.unwrap_err(), PyVerError::NotFound { kind: NotFoundKind::Tarball });
}

#[test]
fn find_unpacked_returns_first_directory_entry() {
    let entries = vec![file("Python-3.11.4.tgz"), dir("Python-3.11.4")];
    let r = find_unpacked("/r/sources/3.11.4", &entries);
    assert_eq!(r.unwrap(), "/r/sources/3.11.4/Python-3.11.4");
}

#[test]
fn find_unpacked_without_directory_reports_unpacked_not_found() {
    let entries = vec![file("Python-3.11.4.tgz")];
    let r = find_unpacked("/d", &entries);
    assert_eq!(r.unwrap_err(), PyVerError::NotFound { kind: NotFoundKind::Unpacked });
}

#[test]
fn which_prefix_matches_installed_version() {
    let entries = vec![dir("3.9.1"), dir("3.11.4")];
    let r = command_which("/r/versions", "3.11", &entries);
    assert_eq!(r.unwrap(), "/r/versions/3.11.4/bin/python3");
}

#[test]
fn which_does_not_match_other_versions() {
    let entries = vec![dir("3.9.1")];
    let r = command_which("/r/versions", "3.11", &entries);
    assert_eq!(r.unwrap_err(), PyVerError::NotFound { kind: NotFoundKind::Tarball });
}

#[test]
fn which_takes_first_prefix_match_in_listing_order() {
    let entries = vec![dir("3.11.2"), dir("3.11.4")];
    let r = command_which("/r/versions", "3.11", &entries);
    assert_eq!(r.unwrap(), "/r/versions/3.11.2/bin/python3");
}

#[test]
fn list_on_empty_directory_prints_nothing() {
    let entries: Vec<DirEntry> = Vec::new();
    let lines = command_list(&entries);
    assert!(lines.is_empty());
}

#[test]
fn cached_on_empty_directory_prints_nothing() {
    let entries: Vec<DirEntry> = Vec::new();
    let lines = command_cached(&entries);
    assert!(lines.is_empty());
}

#[test]
fn list_prints_each_entry_name_in_order() {
    let entries = vec![dir("3.11.4"), dir("3.9.1")];
    let lines = command_list(&entries);
    assert_eq!(lines, vec![String::from("3.11.4"), String::from("3.9.1")]);
}

#[test]
fn cached_prints_each_entry_name_in_order() {
    let entries = vec![dir("3.9.1"), file("stray.tgz")];
    let lines = command_cached(&entries);
    assert_eq!(lines, vec![String::from("3.9.1"), String::from("stray.tgz")]);
}

#[test]
fn starts_with_is_exact_on_prefixes() {
    assert!(str_starts_with("3.11.4", "3.11"));
    assert!(!str_starts_with("3.9.1", "3.11"));
    assert!(str_starts_with("abc", ""));
    assert!(!str_starts_with("ab", "abc"));
}

#[test]
fn ends_with_is_exact_on_suffixes() {
    assert!(str_ends_with("Python-3.11.4.tgz", ".tgz"));
    assert!(str_ends_with("a.xz", ".xz"));
    assert!(!str_ends_with("a.tar.gz", ".tgz"));
    assert!(!str_ends_with("gz", ".tgz"));
}
