//! Shapes of the monitoring API responses, as plain data. Keyed objects are
//! carried as vectors of name/entry pairs; the transport layer fills these in
//! from the wire before handing them to the core.

use vstd::prelude::*;

verus! {

/// Per-index statistics response: one entry per index name.
#[derive(Debug)]
pub struct StatsResponse {
    pub indices: Vec<(String, IndexStatsEntry)>,
}

#[derive(Debug)]
pub struct IndexStatsEntry {
    pub primaries: PrimaryStats,
    pub health: String,
}

#[derive(Debug)]
pub struct PrimaryStats {
    pub docs: DocsStats,
    pub indexing: IndexingStats,
    pub store: StoreStats,
}

#[derive(Debug)]
pub struct DocsStats {
    pub count: u64,
}

#[derive(Debug)]
pub struct IndexingStats {
    pub index_total: u64,
}

#[derive(Debug)]
pub struct StoreStats {
    pub size_in_bytes: u64,
}

/// Per-index settings response: one entry per index name.
#[derive(Debug)]
pub struct IndexSettingsResponse {
    pub indices: Vec<(String, IndexSettingsEntry)>,
}

#[derive(Debug)]
pub struct IndexSettingsEntry {
    pub settings: IndexSettings,
}

#[derive(Debug)]
pub struct IndexSettings {
    pub index: IndexSettingsIndex,
}

#[derive(Debug)]
pub struct IndexSettingsIndex {
    pub creation_date: Option<String>,
    pub number_of_shards: Option<String>,
    pub number_of_replicas: Option<String>,
    pub uuid: Option<String>,
    pub frozen: Option<String>,
    pub store: Option<IndexStoreSettings>,
    pub lifecycle: Option<IndexLifecycleSettings>,
    pub provided_name: Option<String>,
}

#[derive(Debug)]
pub struct IndexLifecycleSettings {
    pub name: Option<String>,
}

#[derive(Debug)]
pub struct IndexStoreSettings {
    pub store_type: Option<String>,
}

/// Lifecycle-explain response: one status per index name.
#[derive(Debug)]
pub struct IlmExplainResponse {
    pub indices: Vec<(String, IlmIndexStatus)>,
}

#[derive(Debug)]
pub struct IlmIndexStatus {
    pub managed: bool,
    pub policy: Option<String>,
    pub phase: Option<String>,
}

/// Segment statistics response: one entry per index name.
#[derive(Debug)]
pub struct SegmentsStatsResponse {
    pub indices: Vec<(String, SegmentsIndexStats)>,
}

#[derive(Debug)]
pub struct SegmentsIndexStats {
    pub primaries: SegmentsPrimaryStats,
}

#[derive(Debug)]
pub struct SegmentsPrimaryStats {
    pub segments: SegmentsCount,
}

#[derive(Debug)]
pub struct SegmentsCount {
    pub count: u64,
}

/// One row of the shard-catalogue listing.
#[derive(Debug)]
pub struct CatShardEntry {
    pub index: String,
    pub shard: String,
    pub prirep: String,
    pub state: String,
    pub docs: Option<String>,
    pub store: Option<String>,
    pub node: Option<String>,
}

/// Index-template listing.
#[derive(Debug)]
pub struct IndexTemplateResponse {
    pub index_templates: Vec<IndexTemplateEntry>,
}

#[derive(Debug)]
pub struct IndexTemplateEntry {
    pub name: String,
    pub index_template: IndexTemplateDetails,
}

#[derive(Debug)]
pub struct IndexTemplateDetails {
    pub index_patterns: Vec<String>,
}

/// One row of the index-catalogue listing.
#[derive(Debug)]
pub struct CatIndexEntry {
    pub health: Option<String>,
    pub status: Option<String>,
    pub index: String,
}

/// Data-stream listing.
#[derive(Debug)]
pub struct DataStreamsResponse {
    pub data_streams: Vec<DataStreamInfo>,
}

#[derive(Debug)]
pub struct DataStreamInfo {
    pub name: String,
    pub timestamp_field: DataStreamTimestampField,
    pub indices: Vec<DataStreamIndex>,
    pub generation: u64,
    pub status: Option<String>,
    pub template: Option<String>,
    pub lifecycle: Option<DataStreamLifecycle>,
}

#[derive(Debug)]
pub struct DataStreamTimestampField {
    pub name: String,
}

#[derive(Debug)]
pub struct DataStreamIndex {
    pub index_name: String,
    pub index_uuid: String,
}

#[derive(Debug)]
pub struct DataStreamLifecycle {
    pub data_retention: Option<String>,
}

} // verus!
