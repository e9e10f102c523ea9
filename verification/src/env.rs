//! The settings that the environment can give.

use vstd::prelude::*;

verus! {

/// The settings that can be given through the environment instead of a
/// configuration file.
pub struct EnvConfig {
    pub host: [u8; 4],
    pub port: u16,
    pub repo_url: String,
    pub repo_dst: String,
    pub algolia_index_name: String,
    pub algolia_application_id: String,
    pub algolia_api_key: String,
}

} // verus!
