//! The application configuration: where the external tools live, plus
//! the front end's theme.  Reading and deserialising the configuration
//! file is I/O and stays outside the library; what is verified here is
//! the shape of the value and how relative tool paths are resolved
//! against the directory the file came from.

use vstd::prelude::*;

use crate::utils::{join_paths_spec, relative_to_less_relative};

verus! {

/// The resolved configuration: paths to the compiler and decompiler
/// executables, the platform-runtime prefix (required only on hosts
/// that cannot execute the compiler natively), and the theme name.
#[derive(Debug)]
pub struct Config {
    pub studiomdl: String,
    pub crowbar: String,
    pub wineprefix: Option<String>,
    pub theme: String,
}

impl Clone for Config {
    fn clone(&self) -> (r: Self)
        ensures
            r == *self,
    {
        Config {
            studiomdl: self.studiomdl.clone(),
            crowbar: self.crowbar.clone(),
            wineprefix: match &self.wineprefix {
                Some(w) => Some(w.clone()),
                None => None,
            },
            theme: self.theme.clone(),
        }
    }
}

impl Config {
    /// The configuration with both tool paths resolved against `root`,
    /// the directory the configuration file came from: a relative path
    /// is joined onto `root`, an absolute one is kept.
    pub fn resolved(&self, root: &str) -> (r: Config)
        ensures
            r.studiomdl@ == join_paths_spec(root@, self.studiomdl@),
            r.crowbar@ == join_paths_spec(root@, self.crowbar@),
            r.wineprefix == self.wineprefix,
            r.theme == self.theme,
    {
        Config {
            studiomdl: relative_to_less_relative(root, self.studiomdl.as_str()),
            crowbar: relative_to_less_relative(root, self.crowbar.as_str()),
            wineprefix: match &self.wineprefix {
                Some(w) => Some(w.clone()),
                None => None,
            },
            theme: self.theme.clone(),
        }
    }
}

} // verus!
