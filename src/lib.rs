//! A hot-reload supervisor: it builds a project, loads the built dynamic
//! library, calls its entry point, and waits for a source change after a
//! failed build. The decisions live here; the process, file and loader work
//! is performed by the caller on the actions this library hands out.

pub mod artifact;
pub mod builder;
pub mod cycle;
pub mod driver;
pub mod logger;
pub mod watcher;

pub use artifact::{library_extension, locate_artifact, ArtifactPath, Platform};
pub use builder::{build_arguments, BuildProfile, BuildResult};
pub use logger::{init, level_name, Logger, SetLoggerError};
pub use watcher::{change_seen, Timestamp, POLL_INTERVAL_SECS};
pub use driver::{Action, ActionView, Driver, Event, Phase, ENTRY_SYMBOL};
pub use cycle::{
    count_unloads, driver_after, holds_module, in_load_part, in_wait_part, lemma_entry_outcome_unloads_once,
    lemma_failed_build_waits, lemma_load_only_after_success, lemma_successful_build_never_waits,
    lemma_unloads_match_loads, lemma_watcher_waits_for_change, loads_after, phase_after, phases_after,
    unloads_after,
};
