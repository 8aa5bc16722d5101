//! The settings of a user, which hold for all projects.

use vstd::prelude::*;

verus! {

/// The settings of a user.
#[derive(Debug)]
pub struct GlobalConfig {
    /// The team number that a new project starts with.
    pub team: Option<u16>,
    /// Where deploy descriptors are looked for: files, and directories of
    /// them.
    pub deploy_descriptor_paths: Vec<String>,
}

} // verus!
