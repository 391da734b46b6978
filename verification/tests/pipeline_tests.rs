use pyver::Action;
use pyver::DirEntry;
use pyver::Event;
use pyver::NotFoundKind;
use pyver::Pipeline;
use pyver::PyVerError;

fn file(name: &str) -> DirEntry {
    DirEntry { name: String::from(name), is_dir: false }
}

fn dir(name: &str) -> DirEntry {
    DirEntry { name: String::from(name), is_dir: true }
}

/// Drives a pipeline to a terminal action, answering each request the way a
/// cooperating environment would and serving the scripted listings in order.
/// Returns every action the pipeline asked for, the terminal one included.
fn drive(mut pipeline: Pipeline, mut listings: Vec<Vec<DirEntry>>) -> Vec<Action> {
    listings.reverse();
    let mut actions = Vec::new();
    loop {
        let action = pipeline.pending_action();
        actions.push(action.clone());
        let event = match action {
            Action::EnsureDir { .. } => Event::DirReady,
            Action::MakeDirAll { .. } => Event::DirReady,
            Action::ScanDir { .. } => Event::Listing {
                entries: listings.pop().expect("script ran out of listings"),
            },
            Action::Fetch { .. } => Event::Fetched,
            Action::RunTar { .. } => Event::ToolFinished,
            Action::RunConfigure { .. } => Event::ToolFinished,
            Action::RunMake { .. } => Event::ToolFinished,
            Action::SkipBuild { .. } | Action::Done | Action::Fail { .. } => break,
        };
        pipeline = pipeline.step(event);
        if actions.len() > 100 {
            panic!("pipeline did not reach a terminal action");
        }
    }
    actions
}

fn start(version: &str, dry_run: bool) -> Pipeline {
    Pipeline::ensure_installed(Some(String::from("/r")), None, None, version, dry_run).unwrap()
}

#[test]
fn fresh_root_fetches_extracts_and_builds_once_in_order() {
    let p = start("3.11.4", false);
    let actions = drive(
        p,
        vec![
            Vec::new(),
            vec![file("Python-3.11.4.tgz"), dir("Python-3.11.4")],
        ],
    );
    let src = String::from("/r/sources/3.11.4");
    let dest = String::from("/r/sources/3.11.4/Python-3.11.4.tgz");
    let unpacked = String::from("/r/sources/3.11.4/Python-3.11.4");
    assert_eq!(
        actions,
        vec![
            Action::EnsureDir { path: String::from("/r/") },
            Action::EnsureDir { path: src.clone() },
            Action::ScanDir { path: src.clone() },
            Action::MakeDirAll { path: src.clone() },
            Action::Fetch {
                url: String::from("https://www.python.org/ftp/python/3.11.4/Python-3.11.4.tgz"),
                dest: dest.clone(),
            },
            Action::RunTar { archive: dest, working_dir: src.clone() },
            Action::ScanDir { path: src },
            Action::EnsureDir { path: String::from("/r/") },
            Action::EnsureDir { path: String::from("/r/versions/3.11.4") },
            Action::RunConfigure {
                prefix: String::from("/r/versions/3.11.4"),
                working_dir: unpacked.clone(),
            },
            Action::RunMake { working_dir: unpacked },
            Action::Done,
        ]
    );
}

#[test]
fn cached_archive_is_never_fetched() {
    let p = start("3.11.4", false);
    let actions = drive(
        p,
        vec![
            vec![file("Python-3.11.4.tgz")],
            vec![file("Python-3.11.4.tgz"), dir("Python-3.11.4")],
        ],
    );
    for a in &actions {
        assert!(!matches!(a, Action::Fetch { .. }));
        assert!(!matches!(a, Action::MakeDirAll { .. }));
    }
    assert!(actions.iter().any(|a| matches!(a, Action::RunTar { .. })));
    assert_eq!(*actions.last().unwrap(), Action::Done);
}

#[test]
fn extracted_directory_is_never_extracted_again() {
    let p = start("3.11.4", false);
    let actions = drive(p, vec![vec![file("Python-3.11.4.tgz"), dir("Python-3.11.4")]]);
    for a in &actions {
        assert!(!matches!(a, Action::RunTar { .. }));
        assert!(!matches!(a, Action::Fetch { .. }));
    }
    assert_eq!(*actions.last().unwrap(), Action::Done);
}

#[test]
fn dry_run_never_invokes_the_build_toolchain() {
    let p = start("3.11.4", true);
    let actions = drive(
        p,
        vec![
            Vec::new(),
            vec![file("Python-3.11.4.tgz"), dir("Python-3.11.4")],
        ],
    );
    for a in &actions {
        assert!(!matches!(a, Action::RunConfigure { .. }));
        assert!(!matches!(a, Action::RunMake { .. }));
    }
    assert_eq!(
        *actions.last().unwrap(),
        Action::SkipBuild { message: String::from("Dry run only, not building") }
    );
}

#[test]
fn cached_archive_is_extracted_once_and_the_new_directory_returned() {
    let mut p = start("3.11.4", false);
    let mut tar_runs = 0;
    loop {
        let action = p.pending_action();
        let event = match &action {
            Action::EnsureDir { .. } => Event::DirReady,
            Action::ScanDir { .. } => {
                if tar_runs == 0 {
                    Event::Listing { entries: vec![file("Python-3.11.4.tgz")] }
                } else {
                    Event::Listing {
                        entries: vec![file("Python-3.11.4.tgz"), dir("Python-3.11.4")],
                    }
                }
            },
            Action::RunTar { archive, working_dir } => {
                tar_runs += 1;
                assert_eq!(archive, "/r/sources/3.11.4/Python-3.11.4.tgz");
                assert_eq!(working_dir, "/r/sources/3.11.4");
                Event::ToolFinished
            },
            Action::RunConfigure { .. } | Action::RunMake { .. } => Event::ToolFinished,
            Action::Done => break,
            other => panic!("unexpected action {:?}", other),
        };
        p = p.step(event);
    }
    assert_eq!(tar_runs, 1);
    assert_eq!(p.unpacked, "/r/sources/3.11.4/Python-3.11.4");
}

#[test]
fn missing_directory_after_extraction_fails_with_unpacked_not_found() {
    let p = start("3.11.4", false);
    let actions = drive(p, vec![vec![file("Python-3.11.4.tgz")], vec![file("junk")]]);
    assert_eq!(
        *actions.last().unwrap(),
        Action::Fail { error: PyVerError::NotFound { kind: NotFoundKind::Unpacked } }
    );
}

#[test]
fn dry_run_on_fully_cached_root_only_materializes_directories() {
    let p = start("3.11.4", true);
    let actions = drive(p, vec![vec![file("Python-3.11.4.tgz"), dir("Python-3.11.4")]]);
    let src = String::from("/r/sources/3.11.4");
    assert_eq!(
        actions,
        vec![
            Action::EnsureDir { path: String::from("/r/") },
            Action::EnsureDir { path: src.clone() },
            Action::ScanDir { path: src },
            Action::EnsureDir { path: String::from("/r/") },
            Action::EnsureDir { path: String::from("/r/versions/3.11.4") },
            Action::SkipBuild { message: String::from("Dry run only, not building") },
        ]
    );
}

#[test]
fn directory_entry_wins_over_archive_entry_in_the_cache_check() {
    // The extracted-tree check runs before the archive check, and it goes by
    // the entry being a directory, whatever its name.
    let p = start("3.11.4", false);
    let actions = drive(p, vec![vec![dir("leftover.tgz")]]);
    for a in &actions {
        assert!(!matches!(a, Action::RunTar { .. }));
    }
    assert!(actions.iter().any(|a| matches!(
        a,
        Action::RunConfigure { working_dir, .. } if working_dir == "/r/sources/3.11.4/leftover.tgz"
    )));
}

#[test]
fn pipeline_without_any_root_fails_to_start() {
    let r = Pipeline::ensure_installed(None, None, None, "3.11.4", false);
    assert!(matches!(r, Err(PyVerError::EnvironmentLookupFailure)));
}

#[test]
fn pipeline_derives_paths_from_environment_root() {
    let p = Pipeline::ensure_installed(None, Some(String::from("/env/pyver")), None, "3.9.1", true)
        .unwrap();
    assert_eq!(p.base_dir, "/env/pyver/");
    assert_eq!(p.src_dir, "/env/pyver/sources/3.9.1");
    assert_eq!(p.prefix_dir, "/env/pyver/versions/3.9.1");
    assert_eq!(p.url, "https://www.python.org/ftp/python/3.9.1/Python-3.9.1.tgz");
    assert_eq!(p.fetch_dest, "/env/pyver/sources/3.9.1/Python-3.9.1.tgz");
}
