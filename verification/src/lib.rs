//! Interactive dashboard core for a Subversion working copy.
//!
//! The crate covers the logic of the dashboard: parsing `svn status`
//! output into structured entries, reconstructing three-way merge
//! conflicts from loosely related status lines, maintaining the filtered
//! file-list model with its selection and scroll state, and the
//! mouse/keyboard interaction state machine.  Terminal rendering and
//! process spawning live outside the library and talk to it through
//! plain values.

pub mod app;
pub mod command;
pub mod config;
pub mod error;
pub mod svn;
pub mod text;
