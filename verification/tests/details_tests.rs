use esticli::es_details::{assemble_index_details, build_details_result, pattern_matches, SubFetchError};
use esticli::es_types::{
    CatIndexEntry, CatShardEntry, DataStreamIndex, DataStreamInfo, DataStreamTimestampField,
    DataStreamsResponse, IlmExplainResponse, IlmIndexStatus, IndexLifecycleSettings,
    IndexSettings, IndexSettingsEntry, IndexSettingsIndex, IndexSettingsResponse,
    IndexTemplateDetails, IndexTemplateEntry, IndexTemplateResponse, SegmentsCount,
    SegmentsIndexStats, SegmentsPrimaryStats, SegmentsStatsResponse,
};
use esticli::text::parse_u64;

#[test]
fn test_pattern_matching() {
    assert!(pattern_matches("*", "anything"));
    assert!(pattern_matches("logs-*", "logs-2024"));
    assert!(!pattern_matches("logs-*", "metrics-2024"));
    assert!(pattern_matches("*-prod", "search-prod"));
    assert!(!pattern_matches("*-prod", "search-dev"));
    assert!(pattern_matches("exact", "exact"));
    assert!(!pattern_matches("exact", "exactly"));
}

#[test]
fn test_parse_decimal() {
    assert_eq!(parse_u64("0"), Some(0));
    assert_eq!(parse_u64("1234"), Some(1234));
    assert_eq!(parse_u64("18446744073709551615"), Some(u64::MAX));
    assert_eq!(parse_u64("18446744073709551616"), None);
    assert_eq!(parse_u64(""), None);
    assert_eq!(parse_u64("12a"), None);
    assert_eq!(parse_u64("-5"), None);
}

fn settings_for(name: &str) -> IndexSettingsResponse {
    IndexSettingsResponse {
        indices: vec![
            (
                name.to_string(),
                IndexSettingsEntry {
                    settings: IndexSettings {
                        index: IndexSettingsIndex {
                            creation_date: Some("1672531200000".to_string()),
                            number_of_shards: Some("3".to_string()),
                            number_of_replicas: Some("1".to_string()),
                            uuid: Some("abc-123".to_string()),
                            frozen: None,
                            store: None,
                            lifecycle: Some(IndexLifecycleSettings {
                                name: Some("fallback-policy".to_string()),
                            }),
                            provided_name: Some("my-index".to_string()),
                        },
                    },
                },
            ),
        ],
    }
}

#[test]
fn test_assemble_details_from_sub_responses() {
    let name = "my-index".to_string();
    let ilm = IlmExplainResponse {
        indices: vec![
            (
                name.clone(),
                IlmIndexStatus {
                    managed: true,
                    policy: Some("hot-warm".to_string()),
                    phase: Some("hot".to_string()),
                },
            ),
        ],
    };
    let segments = SegmentsStatsResponse {
        indices: vec![
            (
                name.clone(),
                SegmentsIndexStats {
                    primaries: SegmentsPrimaryStats { segments: SegmentsCount { count: 42 } },
                },
            ),
        ],
    };
    let shards = vec![
        CatShardEntry {
            index: name.clone(),
            shard: "0".to_string(),
            prirep: "p".to_string(),
            state: "STARTED".to_string(),
            docs: Some("100".to_string()),
            store: Some("10kb".to_string()),
            node: Some("node-1".to_string()),
        },
        CatShardEntry {
            index: name.clone(),
            shard: "1".to_string(),
            prirep: "r".to_string(),
            state: "UNASSIGNED".to_string(),
            docs: None,
            store: None,
            node: None,
        },
    ];
    let templates = IndexTemplateResponse {
        index_templates: vec![
            IndexTemplateEntry {
                name: "tpl-match".to_string(),
                index_template: IndexTemplateDetails {
                    index_patterns: vec!["my-*".to_string()],
                },
            },
            IndexTemplateEntry {
                name: "tpl-other".to_string(),
                index_template: IndexTemplateDetails {
                    index_patterns: vec!["logs-*".to_string()],
                },
            },
        ],
    };
    let cat = vec![
        CatIndexEntry {
            health: Some("green".to_string()),
            status: Some("open".to_string()),
            index: name.clone(),
        },
    ];
    let data_streams = DataStreamsResponse {
        data_streams: vec![
            DataStreamInfo {
                name: "my-stream".to_string(),
                timestamp_field: DataStreamTimestampField { name: "@timestamp".to_string() },
                indices: vec![
                    DataStreamIndex {
                        index_name: "other-index".to_string(),
                        index_uuid: "x".to_string(),
                    },
                    DataStreamIndex { index_name: name.clone(), index_uuid: "y".to_string() },
                ],
                generation: 7,
                status: None,
                template: Some("tpl-match".to_string()),
                lifecycle: None,
            },
        ],
    };

    let details = assemble_index_details(
        &name,
        1000,
        2_500,
        4096,
        Some(settings_for("my-index")),
        Some(ilm),
        Some(segments),
        Some(shards),
        Some(templates),
        Some(cat),
        Some(data_streams),
    );

    assert_eq!(details.name, "my-index");
    assert_eq!(details.doc_count, 1000);
    assert_eq!(details.rate_milli, 2_500);
    assert_eq!(details.size_bytes, 4096);
    assert_eq!(details.provided_name, Some("my-index".to_string()));
    assert_eq!(details.creation_date, Some("2023-01-01 00:00:00 UTC".to_string()));
    assert_eq!(details.primary_shards, 3);
    assert_eq!(details.replica_shards, 1);
    assert!(!details.is_frozen);
    assert!(!details.is_partial);
    assert_eq!(details.ilm_policy, Some("hot-warm".to_string()));
    assert_eq!(details.ilm_phase, Some("hot".to_string()));
    assert_eq!(details.total_segments, 42);
    assert_eq!(details.uuid, Some("abc-123".to_string()));
    assert_eq!(details.health, Some("green".to_string()));
    assert_eq!(details.status, Some("open".to_string()));

    assert_eq!(details.shard_allocation.len(), 2);
    assert_eq!(details.shard_allocation[0].shard_id, 0);
    assert!(details.shard_allocation[0].primary);
    assert_eq!(details.shard_allocation[0].docs, Some(100));
    assert_eq!(details.shard_allocation[0].node, "node-1");
    assert_eq!(details.shard_allocation[1].shard_id, 1);
    assert!(!details.shard_allocation[1].primary);
    assert_eq!(details.shard_allocation[1].docs, None);
    assert_eq!(details.shard_allocation[1].node, "unassigned");

    assert_eq!(details.templates, vec!["tpl-match".to_string()]);

    let ds = details.data_stream.expect("data stream membership");
    assert_eq!(ds.name, "my-stream");
    assert_eq!(ds.timestamp_field, "@timestamp");
    assert_eq!(ds.generation, 7);
    assert_eq!(ds.total_backing_indices, 2);
    assert_eq!(ds.backing_index_position, 2);
    assert!(ds.is_write_index);
    assert_eq!(ds.data_retention, None);
}

#[test]
fn test_assemble_details_degrades_missing_facts() {
    let name = "lost-index".to_string();
    let details = assemble_index_details(&name, 5, 0, 6, None, None, None, None, None, None, None);
    assert_eq!(details.name, "lost-index");
    assert_eq!(details.provided_name, None);
    assert_eq!(details.creation_date, None);
    assert_eq!(details.primary_shards, 0);
    assert_eq!(details.replica_shards, 0);
    assert_eq!(details.ilm_policy, None);
    assert_eq!(details.ilm_phase, None);
    assert_eq!(details.total_segments, 0);
    assert!(details.shard_allocation.is_empty());
    assert!(details.templates.is_empty());
    assert_eq!(details.health, None);
    assert_eq!(details.status, None);
    assert!(details.data_stream.is_none());
}

#[test]
fn test_assemble_details_policy_falls_back_to_settings() {
    let name = "my-index".to_string();
    let details = assemble_index_details(
        &name,
        0,
        0,
        0,
        Some(settings_for("my-index")),
        None,
        None,
        None,
        None,
        None,
        None,
    );
    assert_eq!(details.ilm_policy, Some("fallback-policy".to_string()));
}

#[test]
fn test_assemble_details_frozen_and_partial_flags() {
    let name = "cold-index".to_string();
    let settings = IndexSettingsResponse {
        indices: vec![
            (
                name.clone(),
                IndexSettingsEntry {
                    settings: IndexSettings {
                        index: IndexSettingsIndex {
                            creation_date: None,
                            number_of_shards: None,
                            number_of_replicas: None,
                            uuid: None,
                            frozen: Some("true".to_string()),
                            store: Some(esticli::es_types::IndexStoreSettings {
                                store_type: Some("snapshot".to_string()),
                            }),
                            lifecycle: None,
                            provided_name: None,
                        },
                    },
                },
            ),
        ],
    };
    let details = assemble_index_details(
        &name,
        0,
        0,
        0,
        Some(settings),
        None,
        None,
        None,
        None,
        None,
        None,
    );
    assert!(details.is_frozen);
    assert!(details.is_partial);
    assert_eq!(details.creation_date, None);
}

#[test]
fn test_detail_transport_failure_surfaces_popup_error() {
    let name = "my-index".to_string();
    let r = build_details_result(
        &name,
        1,
        2,
        3,
        Err(SubFetchError::Transport("cannot reach endpoint".to_string())),
        None,
        None,
        None,
        None,
        None,
        None,
    );
    assert_eq!(r.err(), Some("cannot reach endpoint".to_string()));
}

#[test]
fn test_detail_non_transport_failure_degrades() {
    let name = "my-index".to_string();
    let r = build_details_result(
        &name,
        1,
        2,
        3,
        Err(SubFetchError::Api("API error (Status 500): boom".to_string())),
        None,
        None,
        None,
        None,
        None,
        None,
    )
    .expect("record despite an API failure of the primary request");
    assert_eq!(r.name, "my-index");
    assert_eq!(r.provided_name, None);

    let r = build_details_result(
        &name,
        1,
        2,
        3,
        Ok(settings_for("my-index")),
        None,
        None,
        None,
        None,
        None,
        None,
    )
    .expect("record");
    assert_eq!(r.provided_name, Some("my-index".to_string()));
}
