//! The acquisition-and-build pipeline, as a state machine.
//!
//! `ensure_installed` is the ordered, idempotent-by-inspection sequence that
//! turns a version string into an installed interpreter: materialize the
//! per-version source directory, look for a cached archive, fetch one on a
//! miss, extract unless an extracted tree already exists, then configure and
//! install into the per-version prefix — or stop before the toolchain on a
//! dry run.
//!
//! The machine decides; the caller acts. [`Pipeline::pending_action`] names
//! the one piece of outside work the pipeline is waiting on, the caller
//! performs it (directory creation, a directory listing, the network fetch,
//! a subprocess) and answers with an [`Event`], and [`Pipeline::step`]
//! advances the state. Every step is mirrored by the spec-level
//! [`spec_step`], so whole runs can be reasoned about as [`spec_run`]
//! traces: the lemmas at the end of this module state the sequencing laws of
//! the pipeline over all such runs.

use vstd::prelude::*;

use crate::error::NotFoundKind;
use crate::error::PyVerError;
use crate::resolver::normalize_root;
use crate::resolver::normalized_root;
use crate::resolver::resolve_base_root;
use crate::resolver::spec_base_root;
use crate::scan::find_tarball;
use crate::scan::find_unpacked;
use crate::scan::spec_find_tarball;
use crate::scan::spec_find_unpacked;
use crate::scan::DirEntry;
use crate::scan::EntryModel;
use crate::scan::is_tarball_name;

verus! {

/// What the pipeline is waiting on.
///
/// The stages up to `AwaitScan` materialize and list the per-version source
/// directory; `AwaitCacheDir` and `AwaitFetch` are the network fallback of a
/// cache miss; `AwaitTar` and `AwaitRescan` are extraction; the remaining
/// waiting stages materialize the install prefix and run the toolchain.
#[derive(Clone, Copy, PartialEq, Eq, Structural, Debug)]
pub enum Stage {
    /// Waiting for the base root to exist, on the way to the sources side.
    AwaitRootForSources,
    /// Waiting for the per-version source directory to exist.
    AwaitSourcesDir,
    /// Waiting for the listing of the source directory (the cache check).
    AwaitScan,
    /// Cache miss: waiting for the source directory and its ancestors.
    AwaitCacheDir,
    /// Waiting for the archive download.
    AwaitFetch,
    /// Waiting for the archive tool to return.
    AwaitTar,
    /// Waiting for the listing taken after extraction.
    AwaitRescan,
    /// Waiting for the base root to exist, on the way to the prefix side.
    AwaitRootForPrefix,
    /// Waiting for the install prefix directory to exist.
    AwaitPrefixDir,
    /// Waiting for the configure step to return.
    AwaitConfigure,
    /// Waiting for the install step to return.
    AwaitMake,
    /// A dry run that reached the build stage and stops before it.
    SkippedBuild,
    /// The run is complete.
    Finished,
    /// No extracted directory appeared after extraction.
    Failed,
}

/// The outside work the pipeline asks its caller to perform next.
#[derive(Clone, PartialEq, Eq, Debug)]
pub enum Action {
    /// Make this directory exist (probe it and obey the
    /// `ensure_directory` decision); answer `DirReady`.
    EnsureDir { path: String },
    /// Create this directory and all missing ancestors; answer `DirReady`.
    MakeDirAll { path: String },
    /// List this directory's entries; answer `Listing`.
    ScanDir { path: String },
    /// Download `url` and write the whole body to `dest`; answer `Fetched`.
    Fetch { url: String, dest: String },
    /// Spawn the archive tool to extract `archive` with `working_dir` as the
    /// working directory; answer `ToolFinished` once it returns.
    RunTar { archive: String, working_dir: String },
    /// Spawn the configure step with this install prefix in `working_dir`;
    /// answer `ToolFinished`.
    RunConfigure { prefix: String, working_dir: String },
    /// Spawn the install step in `working_dir`; answer `ToolFinished`.
    RunMake { working_dir: String },
    /// Terminal: a dry run; report intent instead of building.
    SkipBuild { message: String },
    /// Terminal: the run is complete.
    Done,
    /// Terminal: the run failed; propagate this error.
    Fail { error: PyVerError },
}

/// What the caller answers once an action is performed.
pub enum Event {
    /// The requested directory now exists.
    DirReady,
    /// The requested listing, in filesystem enumeration order.
    Listing { entries: Vec<DirEntry> },
    /// The download completed and the file is written.
    Fetched,
    /// The spawned tool returned (its exit status is not inspected).
    ToolFinished,
}

/// The abstract value of a [`Pipeline`].
pub struct PipelineModel {
    pub dry_run: bool,
    pub base_dir: Seq<char>,
    pub src_dir: Seq<char>,
    pub prefix_dir: Seq<char>,
    pub url: Seq<char>,
    pub fetch_dest: Seq<char>,
    pub tarball: Seq<char>,
    pub unpacked: Seq<char>,
    pub stage: Stage,
}

/// The abstract value of an [`Action`].
pub enum ActionModel {
    EnsureDir { path: Seq<char> },
    MakeDirAll { path: Seq<char> },
    ScanDir { path: Seq<char> },
    Fetch { url: Seq<char>, dest: Seq<char> },
    RunTar { archive: Seq<char>, working_dir: Seq<char> },
    RunConfigure { prefix: Seq<char>, working_dir: Seq<char> },
    RunMake { working_dir: Seq<char> },
    SkipBuild { message: Seq<char> },
    Done,
    Fail { error: PyVerError },
}

/// The abstract value of an [`Event`].
pub enum EventModel {
    DirReady,
    Listing { entries: Seq<EntryModel> },
    Fetched,
    ToolFinished,
}

impl View for Action {
    type V = ActionModel;

    open spec fn view(&self) -> ActionModel {
        match self {
            Action::EnsureDir { path } => ActionModel::EnsureDir { path: path@ },
            Action::MakeDirAll { path } => ActionModel::MakeDirAll { path: path@ },
            Action::ScanDir { path } => ActionModel::ScanDir { path: path@ },
            Action::Fetch { url, dest } => ActionModel::Fetch { url: url@, dest: dest@ },
            Action::RunTar { archive, working_dir } => ActionModel::RunTar {
                archive: archive@,
                working_dir: working_dir@,
            },
            Action::RunConfigure { prefix, working_dir } => ActionModel::RunConfigure {
                prefix: prefix@,
                working_dir: working_dir@,
            },
            Action::RunMake { working_dir } => ActionModel::RunMake { working_dir: working_dir@ },
            Action::SkipBuild { message } => ActionModel::SkipBuild { message: message@ },
            Action::Done => ActionModel::Done,
            Action::Fail { error } => ActionModel::Fail { error: *error },
        }
    }
}

impl View for Event {
    type V = EventModel;

    open spec fn view(&self) -> EventModel {
        match self {
            Event::DirReady => EventModel::DirReady,
            Event::Listing { entries } => EventModel::Listing { entries: entries.deep_view() },
            Event::Fetched => EventModel::Fetched,
            Event::ToolFinished => EventModel::ToolFinished,
        }
    }
}

/// The pipeline's state: the paths derived once from (root, version), the
/// archive and extracted-tree paths once known, and the current stage.
pub struct Pipeline {
    pub dry_run: bool,
    /// The normalized base root (ends with one separator).
    pub base_dir: String,
    /// `<root>/sources/<version>`.
    pub src_dir: String,
    /// `<root>/versions/<version>`, the install prefix.
    pub prefix_dir: String,
    /// The canonical remote location of the source archive.
    pub url: String,
    /// Where a fetched archive is written: `<src_dir>/Python-<version>.tgz`.
    pub fetch_dest: String,
    /// The archive being extracted; meaningful from `AwaitTar` on.
    pub tarball: String,
    /// The extracted source tree; meaningful from `AwaitRootForPrefix` on.
    pub unpacked: String,
    pub stage: Stage,
}

impl View for Pipeline {
    type V = PipelineModel;

    open spec fn view(&self) -> PipelineModel {
        PipelineModel {
            dry_run: self.dry_run,
            base_dir: self.base_dir@,
            src_dir: self.src_dir@,
            prefix_dir: self.prefix_dir@,
            url: self.url@,
            fetch_dest: self.fetch_dest@,
            tarball: self.tarball@,
            unpacked: self.unpacked@,
            stage: self.stage,
        }
    }
}

/// The deterministic archive filename for a version.
pub open spec fn spec_archive_name(version: Seq<char>) -> Seq<char> {
    "Python-"@ + version + ".tgz"@
}

/// The canonical remote location of a version's source archive.
pub open spec fn spec_download_url(version: Seq<char>) -> Seq<char> {
    "https://www.python.org/ftp/python/"@ + version + "/"@ + spec_archive_name(version)
}

/// The initial pipeline state for a base root and version, or nothing when
/// no base root can be resolved.
pub open spec fn spec_init(
    explicit: Option<Seq<char>>,
    env_root: Option<Seq<char>>,
    home: Option<Seq<char>>,
    version: Seq<char>,
    dry_run: bool,
) -> Option<PipelineModel> {
    match spec_base_root(explicit, env_root, home) {
        Some(base) => {
            let base_dir = normalized_root(base);
            Some(
                PipelineModel {
                    dry_run,
                    base_dir,
                    src_dir: base_dir + "sources/"@ + version,
                    prefix_dir: base_dir + "versions/"@ + version,
                    url: spec_download_url(version),
                    fetch_dest: base_dir + "sources/"@ + version + "/"@ + spec_archive_name(
                        version,
                    ),
                    tarball: Seq::empty(),
                    unpacked: Seq::empty(),
                    stage: Stage::AwaitRootForSources,
                },
            )
        },
        None => None,
    }
}

/// The action a pipeline state is waiting on.
pub open spec fn spec_pending(m: PipelineModel) -> ActionModel {
    match m.stage {
        Stage::AwaitRootForSources => ActionModel::EnsureDir { path: m.base_dir },
        Stage::AwaitSourcesDir => ActionModel::EnsureDir { path: m.src_dir },
        Stage::AwaitScan => ActionModel::ScanDir { path: m.src_dir },
        Stage::AwaitCacheDir => ActionModel::MakeDirAll { path: m.src_dir },
        Stage::AwaitFetch => ActionModel::Fetch { url: m.url, dest: m.fetch_dest },
        Stage::AwaitTar => ActionModel::RunTar { archive: m.tarball, working_dir: m.src_dir },
        Stage::AwaitRescan => ActionModel::ScanDir { path: m.src_dir },
        Stage::AwaitRootForPrefix => ActionModel::EnsureDir { path: m.base_dir },
        Stage::AwaitPrefixDir => ActionModel::EnsureDir { path: m.prefix_dir },
        Stage::AwaitConfigure => ActionModel::RunConfigure {
            prefix: m.prefix_dir,
            working_dir: m.unpacked,
        },
        Stage::AwaitMake => ActionModel::RunMake { working_dir: m.unpacked },
        Stage::SkippedBuild => ActionModel::SkipBuild {
            message: "Dry run only, not building"@,
        },
        Stage::Finished => ActionModel::Done,
        Stage::Failed => ActionModel::Fail {
            error: PyVerError::NotFound { kind: NotFoundKind::Unpacked },
        },
    }
}

/// One step of the pipeline: how a state absorbs the answer to its pending
/// action. An answer that is not the one the stage awaits leaves the state
/// unchanged (the pending action simply stands again).
pub open spec fn spec_step(m: PipelineModel, e: EventModel) -> PipelineModel {
    match (m.stage, e) {
        (Stage::AwaitRootForSources, EventModel::DirReady) => PipelineModel {
            stage: Stage::AwaitSourcesDir,
            ..m
        },
        (Stage::AwaitSourcesDir, EventModel::DirReady) => PipelineModel {
            stage: Stage::AwaitScan,
            ..m
        },
        (Stage::AwaitScan, EventModel::Listing { entries }) => {
            match spec_find_unpacked(entries) {
                Some(name) => PipelineModel {
                    stage: Stage::AwaitRootForPrefix,
                    unpacked: m.src_dir + "/"@ + name,
                    ..m
                },
                None => match spec_find_tarball(entries) {
                    Some(name) => PipelineModel {
                        stage: Stage::AwaitTar,
                        tarball: m.src_dir + "/"@ + name,
                        ..m
                    },
                    None => PipelineModel { stage: Stage::AwaitCacheDir, ..m },
                },
            }
        },
        (Stage::AwaitCacheDir, EventModel::DirReady) => PipelineModel {
            stage: Stage::AwaitFetch,
            ..m
        },
        (Stage::AwaitFetch, EventModel::Fetched) => PipelineModel {
            stage: Stage::AwaitTar,
            tarball: m.fetch_dest,
            ..m
        },
        (Stage::AwaitTar, EventModel::ToolFinished) => PipelineModel {
            stage: Stage::AwaitRescan,
            ..m
        },
        (Stage::AwaitRescan, EventModel::Listing { entries }) => {
            match spec_find_unpacked(entries) {
                Some(name) => PipelineModel {
                    stage: Stage::AwaitRootForPrefix,
                    unpacked: m.src_dir + "/"@ + name,
                    ..m
                },
                None => PipelineModel { stage: Stage::Failed, ..m },
            }
        },
        (Stage::AwaitRootForPrefix, EventModel::DirReady) => PipelineModel {
            stage: Stage::AwaitPrefixDir,
            ..m
        },
        (Stage::AwaitPrefixDir, EventModel::DirReady) => {
            if m.dry_run {
                PipelineModel { stage: Stage::SkippedBuild, ..m }
            } else {
                PipelineModel { stage: Stage::AwaitConfigure, ..m }
            }
        },
        (Stage::AwaitConfigure, EventModel::ToolFinished) => PipelineModel {
            stage: Stage::AwaitMake,
            ..m
        },
        (Stage::AwaitMake, EventModel::ToolFinished) => PipelineModel {
            stage: Stage::Finished,
            ..m
        },
        _ => m,
    }
}

/// The actions a run performs: the pending action of every state the run
/// visits, in order, while the events last.
pub open spec fn spec_run(m: PipelineModel, events: Seq<EventModel>) -> Seq<ActionModel>
    decreases events.len(),
{
    if events.len() == 0 {
        seq![spec_pending(m)]
    } else {
        seq![spec_pending(m)] + spec_run(spec_step(m, events[0]), events.drop_first())
    }
}

impl Pipeline {
    /// The `ensure_installed` entry point: derive every path of the run from
    /// the configuration and the version, and start before the first
    /// directory is materialized. Fails only when no base root resolves.
    pub fn ensure_installed(
        explicit: Option<String>,
        env_root: Option<String>,
        home: Option<String>,
        version: &str,
        dry_run: bool,
    ) -> (r: Result<Pipeline, PyVerError>)
        ensures
            match r {
                Ok(p) => spec_init(
                    explicit.deep_view(),
                    env_root.deep_view(),
                    home.deep_view(),
                    version@,
                    dry_run,
                ) == Some(p@),
                Err(e) => spec_init(
                    explicit.deep_view(),
                    env_root.deep_view(),
                    home.deep_view(),
                    version@,
                    dry_run,
                ) is None && e == PyVerError::EnvironmentLookupFailure,
            },
    {
        let base = resolve_base_root(explicit, env_root, home)?;
        let base_dir = normalize_root(base.as_str());
        let src_dir = base_dir.clone().concat("sources/").concat(version);
        let prefix_dir = base_dir.clone().concat("versions/").concat(version);
        let archive_name = String::from_str("Python-").concat(version).concat(".tgz");
        let url = String::from_str("https://www.python.org/ftp/python/").concat(version).concat(
            "/",
        ).concat(archive_name.as_str());
        let fetch_dest = src_dir.clone().concat("/").concat(archive_name.as_str());
        Ok(
            Pipeline {
                dry_run,
                base_dir,
                src_dir,
                prefix_dir,
                url,
                fetch_dest,
                tarball: String::new(),
                unpacked: String::new(),
                stage: Stage::AwaitRootForSources,
            },
        )
    }

    /// The outside work this state waits on; terminal states answer
    /// `SkipBuild`, `Done` or `Fail`.
    pub fn pending_action(&self) -> (a: Action)
        ensures
            a@ == spec_pending(self@),
    {
        match self.stage {
            Stage::AwaitRootForSources => Action::EnsureDir { path: self.base_dir.clone() },
            Stage::AwaitSourcesDir => Action::EnsureDir { path: self.src_dir.clone() },
            Stage::AwaitScan => Action::ScanDir { path: self.src_dir.clone() },
            Stage::AwaitCacheDir => Action::MakeDirAll { path: self.src_dir.clone() },
            Stage::AwaitFetch => Action::Fetch {
                url: self.url.clone(),
                dest: self.fetch_dest.clone(),
            },
            Stage::AwaitTar => Action::RunTar {
                archive: self.tarball.clone(),
                working_dir: self.src_dir.clone(),
            },
            Stage::AwaitRescan => Action::ScanDir { path: self.src_dir.clone() },
            Stage::AwaitRootForPrefix => Action::EnsureDir { path: self.base_dir.clone() },
            Stage::AwaitPrefixDir => Action::EnsureDir { path: self.prefix_dir.clone() },
            Stage::AwaitConfigure => Action::RunConfigure {
                prefix: self.prefix_dir.clone(),
                working_dir: self.unpacked.clone(),
            },
            Stage::AwaitMake => Action::RunMake { working_dir: self.unpacked.clone() },
            Stage::SkippedBuild => Action::SkipBuild {
                message: String::from_str("Dry run only, not building"),
            },
            Stage::Finished => Action::Done,
            Stage::Failed => Action::Fail {
                error: PyVerError::NotFound { kind: NotFoundKind::Unpacked },
            },
        }
    }

    /// Absorb the answer to the pending action and move to the next state.
    pub fn step(self, event: Event) -> (r: Pipeline)
        ensures
            r@ == spec_step(self@, event@),
    {
        match (self.stage, event) {
            (Stage::AwaitRootForSources, Event::DirReady) => Pipeline {
                stage: Stage::AwaitSourcesDir,
                ..self
            },
            (Stage::AwaitSourcesDir, Event::DirReady) => Pipeline {
                stage: Stage::AwaitScan,
                ..self
            },
            (Stage::AwaitScan, Event::Listing { entries }) => {
                match find_unpacked(self.src_dir.as_str(), &entries) {
                    Ok(unpacked) => Pipeline {
                        stage: Stage::AwaitRootForPrefix,
                        unpacked,
                        ..self
                    },
                    Err(_) => match find_tarball(self.src_dir.as_str(), &entries) {
                        Ok(tarball) => Pipeline { stage: Stage::AwaitTar, tarball, ..self },
                        Err(_) => Pipeline { stage: Stage::AwaitCacheDir, ..self },
                    },
                }
            },
            (Stage::AwaitCacheDir, Event::DirReady) => Pipeline {
                stage: Stage::AwaitFetch,
                ..self
            },
            (Stage::AwaitFetch, Event::Fetched) => {
                let tarball = self.fetch_dest.clone();
                Pipeline { stage: Stage::AwaitTar, tarball, ..self }
            },
            (Stage::AwaitTar, Event::ToolFinished) => Pipeline {
                stage: Stage::AwaitRescan,
                ..self
            },
            (Stage::AwaitRescan, Event::Listing { entries }) => {
                match find_unpacked(self.src_dir.as_str(), &entries) {
                    Ok(unpacked) => Pipeline {
                        stage: Stage::AwaitRootForPrefix,
                        unpacked,
                        ..self
                    },
                    Err(_) => Pipeline { stage: Stage::Failed, ..self },
                }
            },
            (Stage::AwaitRootForPrefix, Event::DirReady) => Pipeline {
                stage: Stage::AwaitPrefixDir,
                ..self
            },
            (Stage::AwaitPrefixDir, Event::DirReady) => {
                if self.dry_run {
                    Pipeline { stage: Stage::SkippedBuild, ..self }
                } else {
                    Pipeline { stage: Stage::AwaitConfigure, ..self }
                }
            },
            (Stage::AwaitConfigure, Event::ToolFinished) => Pipeline {
                stage: Stage::AwaitMake,
                ..self
            },
            (Stage::AwaitMake, Event::ToolFinished) => Pipeline {
                stage: Stage::Finished,
                ..self
            },
            (_, _) => self,
        }
    }
}

/// The action is part of the build invocation (configure or install).
pub open spec fn is_build_action(a: ActionModel) -> bool {
    a is RunConfigure || a is RunMake
}

/// The action is part of the archive fetcher (materializing the cache
/// directory or the download itself).
pub open spec fn is_fetch_action(a: ActionModel) -> bool {
    a is Fetch || a is MakeDirAll
}

/// No action of the trace belongs to the build invocation.
pub open spec fn no_build_actions(trace: Seq<ActionModel>) -> bool {
    forall|i: int| 0 <= i < trace.len() ==> !is_build_action(#[trigger] trace[i])
}

/// No action of the trace belongs to the archive fetcher.
pub open spec fn no_fetch_actions(trace: Seq<ActionModel>) -> bool {
    forall|i: int| 0 <= i < trace.len() ==> !is_fetch_action(#[trigger] trace[i])
}

/// No action of the trace invokes the archive tool.
pub open spec fn no_extract_actions(trace: Seq<ActionModel>) -> bool {
    forall|i: int| 0 <= i < trace.len() ==> !((#[trigger] trace[i]) is RunTar)
}

/// The state is not at a build-invocation stage.
pub open spec fn outside_build(m: PipelineModel) -> bool {
    !(m.stage is AwaitConfigure) && !(m.stage is AwaitMake)
}

/// The state is not at a fetcher stage.
pub open spec fn outside_fetch(m: PipelineModel) -> bool {
    !(m.stage is AwaitCacheDir) && !(m.stage is AwaitFetch)
}

/// The state is at neither a fetcher nor an extraction stage.
pub open spec fn outside_extract(m: PipelineModel) -> bool {
    outside_fetch(m) && !(m.stage is AwaitTar)
}

/// If the event is a directory listing, some entry of it is an archive.
pub open spec fn listing_has_tarball(e: EventModel) -> bool {
    e matches EventModel::Listing { entries } ==> exists|i: int|
        0 <= i < entries.len() && is_tarball_name(#[trigger] entries[i].name)
}

/// If the event is a directory listing, some entry of it is a directory.
pub open spec fn listing_has_dir(e: EventModel) -> bool {
    e matches EventModel::Listing { entries } ==> exists|i: int|
        0 <= i < entries.len() && (#[trigger] entries[i]).is_dir
}

proof fn lemma_dry_run_avoids_build(m: PipelineModel, e: EventModel)
    requires
        m.dry_run,
        outside_build(m),
    ensures
        outside_build(spec_step(m, e)),
        spec_step(m, e).dry_run,
{
}

/// A dry run never invokes the build toolchain: from any dry-run state that
/// is not already inside the build invocation — the initial state included —
/// no run, whatever events come back, performs a configure or install action,
/// even when the source is freshly fetched and extracted.
pub proof fn lemma_dry_run_never_builds(m: PipelineModel, events: Seq<EventModel>)
    requires
        m.dry_run,
        outside_build(m),
    ensures
        no_build_actions(spec_run(m, events)),
    decreases events.len(),
{
    if events.len() > 0 {
        lemma_dry_run_avoids_build(m, events[0]);
        lemma_dry_run_never_builds(spec_step(m, events[0]), events.drop_first());
    }
}

proof fn lemma_cache_hit_avoids_fetch(m: PipelineModel, e: EventModel)
    requires
        outside_fetch(m),
        listing_has_tarball(e),
    ensures
        outside_fetch(spec_step(m, e)),
{
    if m.stage is AwaitScan {
        match e {
            EventModel::Listing { entries } => crate::scan::lemma_find_tarball_some(entries),
            _ => (),
        }
    }
}

/// The cache-hit path is idempotent: when every listing of the source
/// directory shows an archive already cached, the archive fetcher is never
/// invoked — the run performs neither a download nor the fetcher's directory
/// creation.
pub proof fn lemma_cached_archive_skips_fetch(m: PipelineModel, events: Seq<EventModel>)
    requires
        outside_fetch(m),
        forall|i: int| 0 <= i < events.len() ==> listing_has_tarball(#[trigger] events[i]),
    ensures
        no_fetch_actions(spec_run(m, events)),
    decreases events.len(),
{
    if events.len() > 0 {
        lemma_cache_hit_avoids_fetch(m, events[0]);
        assert forall|i: int| 0 <= i < events.drop_first().len() implies listing_has_tarball(
            #[trigger] events.drop_first()[i],
        ) by {
            assert(events.drop_first()[i] == events[i + 1]);
        }
        lemma_cached_archive_skips_fetch(spec_step(m, events[0]), events.drop_first());
    }
}

proof fn lemma_extracted_avoids_tar(m: PipelineModel, e: EventModel)
    requires
        outside_extract(m),
        listing_has_dir(e),
    ensures
        outside_extract(spec_step(m, e)),
{
    if m.stage is AwaitScan {
        match e {
            EventModel::Listing { entries } => crate::scan::lemma_find_unpacked_some(entries),
            _ => (),
        }
    }
}

/// Extraction is idempotent by skip: when every listing of the source
/// directory shows an extracted directory already present, the archive
/// extractor is never invoked.
pub proof fn lemma_extracted_tree_skips_extract(m: PipelineModel, events: Seq<EventModel>)
    requires
        outside_extract(m),
        forall|i: int| 0 <= i < events.len() ==> listing_has_dir(#[trigger] events[i]),
    ensures
        no_extract_actions(spec_run(m, events)),
    decreases events.len(),
{
    if events.len() > 0 {
        lemma_extracted_avoids_tar(m, events[0]);
        assert forall|i: int| 0 <= i < events.drop_first().len() implies listing_has_dir(
            #[trigger] events.drop_first()[i],
        ) by {
            assert(events.drop_first()[i] == events[i + 1]);
        }
        lemma_extracted_tree_skips_extract(spec_step(m, events[0]), events.drop_first());
    }
}

/// On a fresh root — the first listing of the source directory shows neither
/// an archive nor an extracted directory — a non-dry run performs exactly one
/// fetch, one extraction and one build invocation, in that order: its whole
/// trace is the twelve actions below and nothing else.
pub proof fn lemma_fresh_run_trace(
    explicit: Option<Seq<char>>,
    env_root: Option<Seq<char>>,
    home: Option<Seq<char>>,
    version: Seq<char>,
    initial_listing: Seq<EntryModel>,
    after_extract: Seq<EntryModel>,
)
    requires
        spec_init(explicit, env_root, home, version, false) is Some,
        spec_find_unpacked(initial_listing) is None,
        spec_find_tarball(initial_listing) is None,
        spec_find_unpacked(after_extract) is Some,
    ensures
        ({
            let m = spec_init(explicit, env_root, home, version, false).unwrap();
            let events = seq![
                EventModel::DirReady,
                EventModel::DirReady,
                EventModel::Listing { entries: initial_listing },
                EventModel::DirReady,
                EventModel::Fetched,
                EventModel::ToolFinished,
                EventModel::Listing { entries: after_extract },
                EventModel::DirReady,
                EventModel::DirReady,
                EventModel::ToolFinished,
                EventModel::ToolFinished,
            ];
            let unpacked = m.src_dir + "/"@ + spec_find_unpacked(after_extract).unwrap();
            spec_run(m, events) =~= seq![
                ActionModel::EnsureDir { path: m.base_dir },
                ActionModel::EnsureDir { path: m.src_dir },
                ActionModel::ScanDir { path: m.src_dir },
                ActionModel::MakeDirAll { path: m.src_dir },
                ActionModel::Fetch { url: m.url, dest: m.fetch_dest },
                ActionModel::RunTar { archive: m.fetch_dest, working_dir: m.src_dir },
                ActionModel::ScanDir { path: m.src_dir },
                ActionModel::EnsureDir { path: m.base_dir },
                ActionModel::EnsureDir { path: m.prefix_dir },
                ActionModel::RunConfigure { prefix: m.prefix_dir, working_dir: unpacked },
                ActionModel::RunMake { working_dir: unpacked },
                ActionModel::Done,
            ]
        }),
{
    reveal_with_fuel(spec_run, 13);
}

} // verus!
