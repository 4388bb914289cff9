//! A verified core for a version manager of the WasmEdge runtime and its
//! plugins: platform detection and naming, release and plugin URL
//! construction with a fallback convention, download integrity checking,
//! archive-content placement planning, and the plugin lifecycle. Network and
//! file-system work is the caller's; every value it acts on is decided here.

pub mod archive;
pub mod cli;
pub mod downloader;
pub mod installer;
pub mod platform;
pub mod plugin;
pub mod strutil;
