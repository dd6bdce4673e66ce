//! A small line-oriented text search library.
//!
//! The library splits a text into lines, keeps the lines that contain a
//! query string (case-sensitively or under a simple per-character lowercase
//! folding), and resolves a search configuration from an argument list and
//! an environment flag.  Every executable function carries a contract that
//! pins its result down over sequence views of the strings involved.

pub mod chars;
pub mod config;
pub mod laws;
pub mod lines;
pub mod matching;
pub mod search;

pub use config::Config;
pub use config::ConfigError;
pub use search::matching_lines;
pub use search::search;
pub use search::search_case_insensitive;
