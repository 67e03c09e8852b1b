use vstd::prelude::*;

use crate::repo::spec_logfile_path;
use crate::repo::logfile_path;

verus! {

/// The web front end's configuration. The listen address and port are
/// combined into a socket address by the server that binds them.
pub struct Config {
    pub log_path: String,
    pub static_root: String,
    pub database_url: String,
    pub listen_address: String,
    pub listen_port: u16,
}

impl Config {
    /// The log file of a build under this configuration.
    pub fn logfile(&self, id: i32) -> (r: String)
        ensures
            r@ == spec_logfile_path(self.log_path@, id as int),
    {
        logfile_path(self.log_path.as_str(), id)
    }
}

} // verus!
