//! Scan, catalog and update the packages installed through several Linux
//! package managers (APT, Snap, Flatpak, AppImage), with the view state
//! machine that drives them.
//!
//! - `package`: packages, their sources and kinds, sorting and search
//! - `app`: the catalog, its filtered view and the selection cursor
//! - `controller`: key presses and outside results as state transitions
//! - `scanner`: scanners by source, streaming scan events, merging results
//! - `updates`: update reconciliation into the catalog
//! - `parse`: the listings printed by the package managers' tools
//! - `appimage`: AppImage names and versions from file names
//! - `updater`: release selection for the self-update
//! - `text`: case folding, substring search and string order

pub mod text;
pub mod package;
pub mod app;
pub mod scanner;
pub mod updates;
pub mod controller;
pub mod appimage;
pub mod updater;
pub mod parse;
