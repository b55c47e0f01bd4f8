//! How a host node process is launched: the paths and ports the launcher
//! hands to the node binary. Spawning the process and watching it are the
//! launcher's own business, outside this library.

use vstd::prelude::*;

verus! {

/// The arguments a node launch is configured with.
pub struct RunNodeArgs {
    pub foundry_path: String,
    pub rust_log: String,
    pub app_desc_path: String,
    pub link_desc_path: String,
    pub config_path: String,
    pub graphql_port: u16,
}

} // verus!
