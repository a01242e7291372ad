//! Dashboard configuration and the values a configuration source can
//! override.

use vstd::prelude::*;

verus! {

/// Runtime configuration of the dashboard.
#[derive(Debug, Clone, Copy, PartialEq, Eq, Structural)]
pub struct Config {
    /// Seconds between automatic status refreshes.
    pub svn_status_timeout: u8,
}

/// The overridable values read from a configuration file or the command
/// line; `None` leaves the current value in place.
#[derive(Debug, Clone, Copy, PartialEq, Eq, Structural)]
pub struct ConfigSource {
    pub svn_timeout: Option<u8>,
}

impl Default for Config {
    fn default() -> (r: Config)
        ensures
            r.svn_status_timeout == 2,
    {
        Config { svn_status_timeout: 2 }
    }
}

impl Config {
    /// Apply a configuration source: present values override, absent
    /// values keep the current setting.
    pub fn update(&mut self, args: ConfigSource)
        ensures
            final(self).svn_status_timeout == match args.svn_timeout {
                Some(n) => n,
                None => old(self).svn_status_timeout,
            },
    {
        if let Some(n) = args.svn_timeout {
            self.svn_status_timeout = n;
        }
    }
}

} // verus!
