//! A local version manager for a Python toolchain: the verified core.
//!
//! The library holds the logic of the manager — root resolution, path
//! construction, directory-scan decisions, and the acquisition-and-build
//! pipeline as a state machine — over plain values. The surrounding binary
//! performs the filesystem, environment, network and subprocess work and
//! feeds the results back as events.

mod error;
mod pipeline;
mod resolver;
mod scan;
mod text;

pub use error::NotFoundKind;
pub use error::PyVerError;
pub use pipeline::is_build_action;
pub use pipeline::is_fetch_action;
pub use pipeline::lemma_cached_archive_skips_fetch;
pub use pipeline::lemma_dry_run_never_builds;
pub use pipeline::lemma_extracted_tree_skips_extract;
pub use pipeline::lemma_fresh_run_trace;
pub use pipeline::listing_has_dir;
pub use pipeline::listing_has_tarball;
pub use pipeline::no_build_actions;
pub use pipeline::no_extract_actions;
pub use pipeline::no_fetch_actions;
pub use pipeline::outside_build;
pub use pipeline::outside_extract;
pub use pipeline::outside_fetch;
pub use pipeline::spec_archive_name;
pub use pipeline::spec_download_url;
pub use pipeline::spec_init;
pub use pipeline::spec_pending;
pub use pipeline::spec_run;
pub use pipeline::spec_step;
pub use pipeline::Action;
pub use pipeline::ActionModel;
pub use pipeline::Event;
pub use pipeline::EventModel;
pub use pipeline::Pipeline;
pub use pipeline::PipelineModel;
pub use pipeline::Stage;
pub use resolver::dir_ensurable;
pub use resolver::dir_probe_of;
pub use resolver::ensure_directory;
pub use resolver::get_relative_to_root;
pub use resolver::lemma_materialized_probe_is_directory;
pub use resolver::lemma_resolver_idempotent;
pub use resolver::lemma_resolver_rejects_occupied_child;
pub use resolver::lemma_resolver_rejects_occupied_root;
pub use resolver::normalize_root;
pub use resolver::normalized_root;
pub use resolver::resolve_base_root;
pub use resolver::resolver_fs;
pub use resolver::resolver_succeeds;
pub use resolver::spec_base_root;
pub use resolver::spec_resolved_child;
pub use resolver::strip_trailing_slashes;
pub use resolver::with_dir;
pub use resolver::DirAction;
pub use resolver::DirProbe;
pub use resolver::FsModel;
pub use resolver::FsNode;
pub use resolver::RootPlan;
pub use scan::command_cached;
pub use scan::command_list;
pub use scan::command_which;
pub use scan::find_tarball;
pub use scan::find_unpacked;
pub use scan::is_tarball_name;
pub use scan::lemma_find_tarball_some;
pub use scan::lemma_find_unpacked_some;
pub use scan::print_contents;
pub use scan::spec_find_tarball;
pub use scan::spec_find_unpacked;
pub use scan::spec_find_version;
pub use scan::spec_names;
pub use scan::DirEntry;
pub use scan::EntryModel;
pub use text::seq_ends_with;
pub use text::seq_starts_with;
pub use text::str_ends_with;
pub use text::str_starts_with;
