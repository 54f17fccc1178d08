//! Logs each Git commit as one row of a Markdown table in a date-organised
//! diary file of a note vault.
//!
//! The library computes everything that is written: the diary path derived from
//! the commit time, the skeleton of a new diary file, the row of one commit, and
//! the order of the file operations of one save. The program around it reads the
//! repository and the configuration and performs the file operations.
//!
//! - [`vim_commit`]: the commit record, its row, the diary skeleton and the diary path.
//! - [`saver`]: the steps of one save, driven by [`run_commit_saver`].
//! - [`config`]: the command line, the home directory and the configuration file.
//! - [`text`], [`path`], [`datetime`]: text, path-text and time-rendering operations.

pub mod text;
pub mod path;
pub mod datetime;
pub mod vim_commit;
pub mod saver;
pub mod config;

pub use saver::run_commit_saver;
