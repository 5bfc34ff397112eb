//! The configuration value for a run: server endpoint and credential,
//! the selected stream kind, and the optional per-dimension address
//! lists. Loaded once by the caller and passed immutably; the core never
//! reads configuration ambiently.

use vstd::prelude::*;

verus! {

/// Server endpoint settings: address, credential (may be empty), and the
/// transport-security flag (`true` selects the unencrypted scheme).
pub struct ServerConfig {
    pub address: String,
    pub authorization: String,
    pub insecure: bool,
}

/// The selected stream kind, as its configured textual identifier.
pub struct StreamConfig {
    pub stream_type: String,
}

/// The optional address lists, one per filter dimension. An absent or
/// empty list means no filtering on that dimension.
pub struct FiltersConfig {
    pub programs: Option<Vec<String>>,
    pub pools: Option<Vec<String>>,
    pub tokens: Option<Vec<String>>,
    pub traders: Option<Vec<String>>,
    pub senders: Option<Vec<String>>,
    pub receivers: Option<Vec<String>>,
    pub addresses: Option<Vec<String>>,
    pub signers: Option<Vec<String>>,
}

/// The immutable configuration for one run.
pub struct Config {
    pub server: ServerConfig,
    pub stream: StreamConfig,
    pub filters: FiltersConfig,
}

} // verus!
