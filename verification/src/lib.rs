//! The rules of a terminal dashboard for the worktrees of one git
//! repository.
//!
//! The dashboard shows every checkout of a repository with its branch, its
//! status and its recent history, and has to be there at once: it paints
//! from a disk cache first and fetches the live data in the background. This
//! crate holds everything of it that can be said without touching a disk, a
//! terminal or a clock: what a record is, how records are collected and how
//! details are merged into them, in which order they are shown and which of
//! them a search lets through, how the selection follows a record across a
//! refresh, and what every key does. The program around it reads and paints.
//!
//! * [`model`]: the worktree record and the small enumerations.
//! * [`fetch`]: from what was read in the repository to the list of records.
//! * [`cache`]: the envelope of the disk cache, its freshness and its file.
//! * [`ordering`], [`search`], [`index`]: display order, filter, selection.
//! * [`state`]: the state of the dashboard and the refresh coordinator.
//! * [`commands`], [`branches`], [`input`]: what the user can do.
//! * [`display`]: what is shown of a record.
//! * [`text`], [`paths`]: strings and paths.

pub mod branches;
pub mod cache;
pub mod commands;
pub mod display;
pub mod fetch;
pub mod index;
pub mod input;
pub mod model;
pub mod ordering;
pub mod paths;
pub mod search;
pub mod state;
pub mod text;
