//! Resolution of a search configuration from an argument list and an
//! environment flag.
//!
//! The caller collects the process arguments and looks the environment
//! variable up; resolution itself is a pure function of those values.

use vstd::prelude::*;

verus! {

/// A validated search configuration: what to search for, in which file,
/// and whether matching ignores case.
pub struct Config {
    pub query: String,
    pub filename: String,
    pub ignore_case: bool,
}

/// Why a configuration could not be resolved from the arguments.
#[derive(Clone, Copy, Debug, PartialEq, Eq)]
pub enum ConfigError {
    /// No query argument was given.
    MissingQuery,
    /// A query was given but no file name.
    MissingFilename,
}

impl ConfigError {
    /// A human-readable diagnostic naming the missing argument.
    pub fn message(&self) -> (r: &'static str)
        ensures
            *self matches ConfigError::MissingQuery ==> r@ == "Didn't get query string"@,
            *self matches ConfigError::MissingFilename ==> r@ == "Didn't get a file name"@,
    {
        match self {
            ConfigError::MissingQuery => "Didn't get query string",
            ConfigError::MissingFilename => "Didn't get a file name",
        }
    }
}

impl Config {
    /// Resolves a configuration from an argument vector and the presence
    /// of the `IGNORE_CASE` environment variable.
    ///
    /// `args[0]` is the program name and is discarded; `args[1]` becomes
    /// the query and `args[2]` the file name, and anything after that is
    /// ignored.  Only the presence of `IGNORE_CASE` matters, never its
    /// value, so the caller passes that presence as `env_ignore_case`.
    pub fn new(args: &Vec<String>, env_ignore_case: bool) -> (r: Result<Config, ConfigError>)
        ensures
            args@.len() < 2 ==> r == Err::<Config, ConfigError>(ConfigError::MissingQuery),
            args@.len() == 2 ==> r == Err::<Config, ConfigError>(ConfigError::MissingFilename),
            args@.len() >= 3 ==> (r matches Ok(c) && c.query@ == args@[1]@ && c.filename@
                == args@[2]@ && c.ignore_case == env_ignore_case),
    {
        if args.len() < 2 {
            return Err(ConfigError::MissingQuery);
        }
        if args.len() < 3 {
            return Err(ConfigError::MissingFilename);
        }
        let query = args[1].clone();
        let filename = args[2].clone();
        Ok(Config { query, filename, ignore_case: env_ignore_case })
    }
}

} // verus!
