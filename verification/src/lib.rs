//! The decisions of a small Hugo website server and of an upload file
//! server: where the configuration file is found and how its paths resolve,
//! which directories the site is cloned and built into, how the site is set
//! up and kept up to date, which upload and download names are accepted,
//! how errors and caching are answered, what is sent to the Algolia search
//! index, and which log records are kept.
//!
//! Paths are Unix paths, held as strings.

pub mod algolia;
pub mod args;
pub mod cache;
pub mod cmd;
pub mod config;
pub mod env;
pub mod file_config;
pub mod log_filter;
pub mod paths;
pub mod server_error;
pub mod text;
pub mod uploads;
pub mod website;
