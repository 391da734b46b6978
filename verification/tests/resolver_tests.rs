use pyver::ensure_directory;
use pyver::get_relative_to_root;
use pyver::normalize_root;
use pyver::resolve_base_root;
use pyver::DirAction;
use pyver::DirProbe;
use pyver::NotFoundKind;
use pyver::PyVerError;

#[test]
fn normalize_appends_one_separator() {
    assert_eq!(normalize_root("/opt/pyver"), "/opt/pyver/");
}

#[test]
fn normalize_keeps_a_single_trailing_separator() {
    assert_eq!(normalize_root("/opt/pyver/"), "/opt/pyver/");
}

#[test]
fn normalize_collapses_repeated_trailing_separators() {
    assert_eq!(normalize_root("/opt/pyver//"), "/opt/pyver/");
}

#[test]
fn normalize_of_empty_is_the_separator() {
    assert_eq!(normalize_root(""), "/");
}

#[test]
fn normalize_of_the_filesystem_root_stays_the_separator() {
    assert_eq!(normalize_root("/"), "/");
}

#[test]
fn explicit_root_wins_over_environment() {
    let r = resolve_base_root(
        Some(String::from("/explicit")),
        Some(String::from("/env")),
        Some(String::from("/home/me")),
    );
    assert_eq!(r.unwrap(), "/explicit");
}

#[test]
fn environment_root_wins_over_home_default() {
    let r = resolve_base_root(None, Some(String::from("/env")), Some(String::from("/home/me")));
    assert_eq!(r.unwrap(), "/env");
}

#[test]
fn home_default_is_dot_pyver() {
    let r = resolve_base_root(None, None, Some(String::from("/home/me")));
    assert_eq!(r.unwrap(), "/home/me/.pyver");
}

#[test]
fn no_root_at_all_is_an_environment_lookup_failure() {
    let r = resolve_base_root(None, None, None);
    assert_eq!(r.unwrap_err(), PyVerError::EnvironmentLookupFailure);
}

#[test]
fn resolver_plans_root_and_child() {
    let plan = get_relative_to_root(Some(String::from("/opt/pyver")), None, None, "versions")
        .unwrap();
    assert_eq!(plan.root_dir, "/opt/pyver/");
    assert_eq!(plan.child_dir, "/opt/pyver/versions");
}

#[test]
fn resolver_is_idempotent_on_identical_arguments() {
    let first = get_relative_to_root(Some(String::from("/opt/pyver")), None, None, "sources")
        .unwrap();
    let second = get_relative_to_root(Some(String::from("/opt/pyver")), None, None, "sources")
        .unwrap();
    assert_eq!(first.root_dir, second.root_dir);
    assert_eq!(first.child_dir, second.child_dir);
    // Once the first run has created both directories, the second run's
    // probes answer `Directory` and nothing more is created.
    assert_eq!(
        ensure_directory(&second.root_dir, DirProbe::Directory).unwrap(),
        DirAction::AlreadyThere
    );
    assert_eq!(
        ensure_directory(&second.child_dir, DirProbe::Directory).unwrap(),
        DirAction::AlreadyThere
    );
}

#[test]
fn missing_directory_is_created() {
    assert_eq!(ensure_directory("/r", DirProbe::Missing).unwrap(), DirAction::CreateIt);
}

#[test]
fn root_preexisting_as_regular_file_is_rejected() {
    let r = ensure_directory("/r", DirProbe::NotDirectory);
    assert_eq!(r.unwrap_err(), PyVerError::RootNotDirectory { path: String::from("/r") });
}

#[test]
fn error_messages_render_one_line_each() {
    assert_eq!(
        PyVerError::NotFound { kind: NotFoundKind::Tarball }.message(),
        "Could not find tarball"
    );
    assert_eq!(
        PyVerError::NotFound { kind: NotFoundKind::Unpacked }.message(),
        "Could not find unpacked"
    );
    assert_eq!(
        PyVerError::RootNotDirectory { path: String::from("/r") }.message(),
        "/r is not a directory"
    );
    assert_eq!(
        PyVerError::EnvironmentLookupFailure.message(),
        "environment variable not found"
    );
    assert_eq!(PyVerError::TransportFailure.message(), "network transfer failed");
    assert_eq!(PyVerError::SubprocessFailure.message(), "could not spawn subprocess");
}
