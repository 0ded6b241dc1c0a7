use vstd::prelude::*;

verus! {

/// Run-wide settings, loaded once at startup and passed in unchanged:
/// the remote table's credentials and identifiers, the root of the
/// exchange node's data directory, and the look-back window in days.
#[derive(Clone)]
pub struct Config {
    /// The API key for authenticating with the remote analytics service.
    pub dune_api_key: String,
    /// The directory under which the node's per-day data directories live.
    pub hyperliquid_data_dir: String,
    /// The user namespace that owns the remote table.
    pub dune_user_namespace: String,
    /// The name of the remote table.
    pub dune_table_name: String,
    /// How many days before "now" the run's date range starts.
    pub look_back_period: i64,
}

} // verus!
