//! Core data model: per-index counters, display rows, cluster-wide health
//! and the detail record shown in the drill-down popup.
//!
//! Rates are carried as integers in thousandths of an operation per second
//! (`rate_milli`), so that a displayed rate of `10.0/s` is `10_000`.

use vstd::prelude::*;

verus! {

/// One displayable resource row: rebuilt on every poll from counter deltas
/// plus the smoothing history.
#[derive(Debug)]
pub struct IndexRate {
    pub name: String,
    pub doc_count: u64,
    /// Smoothed write rate, in thousandths of an operation per second.
    pub rate_milli: u64,
    pub size_bytes: u64,
    pub health: String,
}


/// Raw cumulative counters for one index, captured at one poll.
#[derive(Debug)]
pub struct IndexSnapshot {
    pub doc_count: u64,
    /// Cumulative write-operation counter; monotone except on counter reset.
    pub index_total: u64,
    pub size_bytes: u64,
    pub health: String,
}


/// Cluster-wide counters, replaced wholesale on each successful poll.
///
/// The active-shard percentage is carried in thousandths of a percent.
#[derive(Debug)]
pub struct ClusterHealth {
    pub cluster_name: String,
    pub status: String,
    pub number_of_nodes: u32,
    pub number_of_data_nodes: u32,
    pub active_primary_shards: u32,
    pub active_shards: u32,
    pub relocating_shards: u32,
    pub initializing_shards: u32,
    pub unassigned_shards: u32,
    pub active_shards_percent_milli: u64,
    pub number_of_pending_tasks: u32,
}

impl Default for ClusterHealth {
    fn default() -> (r: Self)
        ensures
            r.cluster_name@ == Seq::<char>::empty(),
            r.status@ == Seq::<char>::empty(),
            r.number_of_nodes == 0,
            r.number_of_data_nodes == 0,
            r.active_primary_shards == 0,
            r.active_shards == 0,
            r.relocating_shards == 0,
            r.initializing_shards == 0,
            r.unassigned_shards == 0,
            r.active_shards_percent_milli == 0,
            r.number_of_pending_tasks == 0,
    {
        ClusterHealth {
            cluster_name: String::new(),
            status: String::new(),
            number_of_nodes: 0,
            number_of_data_nodes: 0,
            active_primary_shards: 0,
            active_shards: 0,
            relocating_shards: 0,
            initializing_shards: 0,
            unassigned_shards: 0,
            active_shards_percent_milli: 0,
            number_of_pending_tasks: 0,
        }
    }
}

/// Allocation of one shard, as reported for the detail popup.
#[derive(Debug)]
pub struct ShardInfo {
    pub shard_id: u32,
    pub primary: bool,
    pub state: String,
    pub node: String,
    pub docs: Option<u64>,
    pub size: Option<String>,
}

/// Membership of an index in a data stream, for the detail popup.
#[derive(Debug)]
pub struct DataStreamDetails {
    pub name: String,
    pub timestamp_field: String,
    pub generation: u64,
    pub total_backing_indices: usize,
    pub backing_index_position: usize,
    pub is_write_index: bool,
    pub template: Option<String>,
    pub data_retention: Option<String>,
}

/// Extended metadata for exactly one index; created when a detail fetch
/// starts and dropped when the popup closes.
#[derive(Debug)]
pub struct IndexDetails {
    pub name: String,
    pub provided_name: Option<String>,
    pub creation_date: Option<String>,
    pub primary_shards: u32,
    pub replica_shards: u32,
    pub is_frozen: bool,
    pub is_partial: bool,
    pub ilm_policy: Option<String>,
    pub ilm_phase: Option<String>,
    pub total_segments: u64,
    pub shard_allocation: Vec<ShardInfo>,
    pub templates: Vec<String>,
    pub uuid: Option<String>,
    pub health: Option<String>,
    pub status: Option<String>,
    pub doc_count: u64,
    /// Smoothed write rate, in thousandths of an operation per second.
    pub rate_milli: u64,
    pub size_bytes: u64,
    pub data_stream: Option<DataStreamDetails>,
}


/// How requests to the monitoring endpoint authenticate: already-resolved
/// credentials carried to the transport layer.
#[derive(Debug, Clone)]
pub enum AuthConfig {
    /// No credentials attached.
    Anonymous,
    /// Basic authentication with a username and password.
    Basic { username: String, password: String },
    /// A pre-encoded API key.
    ApiKey(String),
}

} // verus!
