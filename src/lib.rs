//! Shared speedrun-timer state and the auto-splitter catalog of an overlay
//! plugin: a registry that lets overlay instances share one live timer per
//! splits file, the catalog of auto-splitters indexed by game name, the
//! remote-then-cache fetch of that catalog, the acquisition of a
//! splitter's module files, the run that a splits file gives a timer, the
//! plugin's localized texts, and the filter lists of its file dialogs.

pub mod text;
pub mod catalog;
pub mod registry;
pub mod fetch;
pub mod paths;
pub mod download;
pub mod run;
pub mod localization;
pub mod filter;
pub mod launch;
pub mod media;
