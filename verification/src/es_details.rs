//! Assembly of the detail record for one index from the ancillary
//! responses. Each fact is interpreted independently: a missing or failed
//! sub-response degrades only that fact to "unknown", never the others.

use vstd::prelude::*;

use crate::es_types::{
    CatIndexEntry, CatShardEntry, DataStreamIndex, DataStreamInfo, DataStreamsResponse,
    IlmExplainResponse, IlmIndexStatus, IndexSettingsIndex, IndexSettingsResponse,
    IndexTemplateEntry, IndexTemplateResponse, SegmentsStatsResponse,
};
use crate::models::{DataStreamDetails, IndexDetails, ShardInfo};
use crate::text::{
    contains_chars, ends_with_chars, has_substring, is_char_prefix, is_char_suffix, parse_u64,
    parsed_u64, starts_with_chars, str_eq,
};

verus! {

/// First value stored under `name` in a keyed listing, left to right.
pub open spec fn find_pair<T>(s: Seq<(String, T)>, name: Seq<char>) -> Option<T>
    decreases s.len(),
{
    if s.len() == 0 {
        None
    } else if s[0].0@ == name {
        Some(s[0].1)
    } else {
        find_pair(s.drop_first(), name)
    }
}

/// Takes the first value stored under `name` out of a keyed listing.
#[verifier::loop_isolation(false)]
fn take_pair<T>(v: Vec<(String, T)>, name: &String) -> (r: Option<T>)
    ensures
        match r {
            Some(t) => find_pair(v@, name@) == Some(t),
            None => find_pair(v@, name@) is None,
        },
{
    let ghost s0 = v@;
    let mut v = v;
    proof {
        assert(s0.skip(0) =~= s0);
    }
    while v.len() > 0
        invariant
            v@.len() <= s0.len(),
            v@ =~= s0.skip(s0.len() - v@.len()),
            find_pair(s0, name@) == find_pair(v@, name@),
        decreases v@.len(),
    {
        let ghost vs = v@;
        let p = v.remove(0);
        proof {
            assert(vs[0] == p);
            assert(vs.drop_first() =~= v@);
        }
        if p.0 == *name {
            proof {
                assert(find_pair(vs, name@) == Some(vs[0].1));
            }
            return Some(p.1);
        }
    }
    None
}

/// Timestamp rendering delegated to the calendar library: the display
/// string for a millisecond timestamp is a function of that value alone.
pub uninterp spec fn timestamp_display(ts_ms: int) -> Seq<char>;

/// Whether a millisecond timestamp lies within the calendar library's
/// representable range (about 262,000 years either side of the epoch);
/// a property of the value alone.
pub uninterp spec fn timestamp_in_range(ts_ms: int) -> bool;

/// Relies on chrono's `DateTime::from_timestamp_millis` and `format`:
/// rendering succeeds exactly on the library's representable range (the
/// day count computed from the value must fit its calendar), and the
/// rendered string, in the fixed numeric UTC format used here, depends on
/// the millisecond value alone.
#[verifier::external_body]
fn format_timestamp_millis(ts_ms: i64) -> (r: Option<String>)
    ensures
        r is Some <==> timestamp_in_range(ts_ms as int),
        r matches Some(sr) ==> sr@ == timestamp_display(ts_ms as int),
{
    chrono::DateTime::from_timestamp_millis(ts_ms)
        .map(|dt| dt.format("%Y-%m-%d %H:%M:%S UTC").to_string())
}

/// Glob matching as used for index-template patterns: a sole `*` matches
/// everything, a trailing `*` demands the prefix before it, a leading `*`
/// the suffix after it, and anything else exact equality.
pub open spec fn glob_matches(p: Seq<char>, n: Seq<char>) -> bool {
    if p.len() == 1 && p[0] == '*' {
        true
    } else if p.len() > 0 && p.last() == '*' {
        is_char_prefix(p.drop_last(), n)
    } else if p.len() > 0 && p.first() == '*' {
        is_char_suffix(p.drop_first(), n)
    } else {
        p == n
    }
}

/// Whether a template pattern matches the index name, as `glob_matches`
/// describes.
pub fn pattern_matches(pattern: &str, index_name: &str) -> (r: bool)
    ensures
        r == glob_matches(pattern@, index_name@),
{
    let plen = pattern.unicode_len();
    if plen == 1 && pattern.get_char(0) == '*' {
        return true;
    }
    if plen > 0 && pattern.get_char(plen - 1) == '*' {
        let prefix = pattern.substring_char(0, plen - 1);
        proof {
            assert(prefix@ =~= pattern@.drop_last());
        }
        return starts_with_chars(index_name, prefix);
    }
    if plen > 0 && pattern.get_char(0) == '*' {
        let suffix = pattern.substring_char(1, plen);
        proof {
            assert(suffix@ =~= pattern@.drop_first());
        }
        return ends_with_chars(index_name, suffix);
    }
    str_eq(pattern, index_name)
}

/// Whether some pattern of the template entry matches the index name.
pub open spec fn template_selected(e: IndexTemplateEntry, name: Seq<char>) -> bool {
    exists|i: int|
        0 <= i < e.index_template.index_patterns@.len() && glob_matches(
            (#[trigger] e.index_template.index_patterns@[i])@,
            name,
        )
}

/// Names of the template entries with a matching pattern, in listing order.
pub open spec fn selected_templates(es: Seq<IndexTemplateEntry>, name: Seq<char>) -> Seq<String>
    decreases es.len(),
{
    if es.len() == 0 {
        Seq::empty()
    } else if template_selected(es.last(), name) {
        selected_templates(es.drop_last(), name).push(es.last().name)
    } else {
        selected_templates(es.drop_last(), name)
    }
}

/// Whether any pattern of the entry matches, by scanning the patterns.
fn any_pattern_matches(e: &IndexTemplateEntry, name: &String) -> (r: bool)
    ensures
        r == template_selected(*e, name@),
{
    let pats = &e.index_template.index_patterns;
    let mut i: usize = 0;
    while i < pats.len()
        invariant
            i <= pats@.len(),
            pats == e.index_template.index_patterns,
            forall|j: int|
                0 <= j < i ==> !glob_matches((#[trigger] pats@[j])@, name@),
        decreases pats@.len() - i,
    {
        if pattern_matches(pats[i].as_str(), name.as_str()) {
            return true;
        }
        i += 1;
    }
    false
}

/// The names of the templates whose patterns match the index name.
fn matching_templates(resp: IndexTemplateResponse, name: &String) -> (r: Vec<String>)
    ensures
        r@ == selected_templates(resp.index_templates@, name@),
{
    let es = resp.index_templates;
    let mut r: Vec<String> = Vec::new();
    let mut k: usize = 0;
    proof {
        assert(es@.subrange(0, 0) =~= Seq::<IndexTemplateEntry>::empty());
    }
    while k < es.len()
        invariant
            k <= es@.len(),
            r@ == selected_templates(es@.subrange(0, k as int), name@),
        decreases es@.len() - k,
    {
        let sel = any_pattern_matches(&es[k], name);
        proof {
            assert(es@.subrange(0, k as int + 1).drop_last() =~= es@.subrange(0, k as int));
            assert(es@.subrange(0, k as int + 1).last() == es@[k as int]);
        }
        if sel {
            r.push(es[k].name.clone());
        }
        k += 1;
    }
    proof {
        assert(es@.subrange(0, es@.len() as int) =~= es@);
    }
    r
}

/// What one shard-catalogue row reads as, except for the node name, which
/// is handled separately because an unassigned shard has none.
pub open spec fn shard_fields_ok(e: CatShardEntry, r: ShardInfo) -> bool {
    &&& r.shard_id == match parsed_u64(e.shard@) {
        Some(v) => if v <= u32::MAX {
            v as u32
        } else {
            0u32
        },
        None => 0u32,
    }
    &&& r.primary == (e.prirep@ == "p"@)
    &&& r.state == e.state
    &&& r.node@ == match e.node {
        Some(nd) => nd@,
        None => "unassigned"@,
    }
    &&& r.docs == match e.docs {
        Some(d) => parsed_u64(d@),
        None => None::<u64>,
    }
    &&& r.size == e.store
}

/// Maps the shard-catalogue rows onto shard records, row by row.
fn map_shards(entries: Vec<CatShardEntry>) -> (r: Vec<ShardInfo>)
    ensures
        r@.len() == entries@.len(),
        forall|k: int| 0 <= k < r@.len() ==> shard_fields_ok(entries@[k], #[trigger] r@[k]),
{
    let ghost s0 = entries@;
    let mut entries = entries;
    let mut r: Vec<ShardInfo> = Vec::new();
    proof {
        assert(s0.skip(0) =~= s0);
    }
    while entries.len() > 0
        invariant
            r@.len() + entries@.len() == s0.len(),
            entries@ =~= s0.skip(r@.len() as int),
            forall|k: int| 0 <= k < r@.len() ==> shard_fields_ok(s0[k], #[trigger] r@[k]),
        decreases entries@.len(),
    {
        let ghost done = r@.len() as int;
        let ghost es = entries@;
        let e = entries.remove(0);
        proof {
            assert(es[0] == e);
            assert(es.drop_first() =~= s0.skip(done + 1));
            assert(e == s0[done]);
        }
        let shard_id: u32 = match parse_u64(e.shard.as_str()) {
            Some(v) => if v <= u32::MAX as u64 {
                v as u32
            } else {
                0
            },
            None => 0,
        };
        let primary = str_eq(e.prirep.as_str(), "p");
        let node: String = match e.node {
            Some(nd) => nd,
            None => "unassigned".to_owned(),
        };
        let docs: Option<u64> = match e.docs {
            Some(d) => parse_u64(d.as_str()),
            None => None,
        };
        r.push(
            ShardInfo { shard_id, primary, state: e.state, node, docs, size: e.store },
        );
        proof {
            assert(shard_fields_ok(s0[done], r@[done]));
        }
    }
    r
}

/// Position of `name` among a data stream's backing indices, if present.
pub open spec fn ds_index_pos(ixs: Seq<DataStreamIndex>, name: Seq<char>) -> Option<int>
    decreases ixs.len(),
{
    if ixs.len() == 0 {
        None
    } else if ixs[0].index_name@ == name {
        Some(0int)
    } else {
        match ds_index_pos(ixs.drop_first(), name) {
            Some(i) => Some(i + 1),
            None => None,
        }
    }
}

proof fn lemma_ds_index_pos_none(ixs: Seq<DataStreamIndex>, name: Seq<char>)
    requires
        forall|j: int| 0 <= j < ixs.len() ==> (#[trigger] ixs[j]).index_name@ != name,
    ensures
        ds_index_pos(ixs, name) is None,
    decreases ixs.len(),
{
    if ixs.len() > 0 {
        lemma_ds_index_pos_none(ixs.drop_first(), name);
    }
}

proof fn lemma_ds_index_pos_first(ixs: Seq<DataStreamIndex>, name: Seq<char>, k: int)
    requires
        0 <= k < ixs.len(),
        ixs[k].index_name@ == name,
        forall|j: int| 0 <= j < k ==> (#[trigger] ixs[j]).index_name@ != name,
    ensures
        ds_index_pos(ixs, name) == Some(k),
    decreases k,
{
    if k > 0 {
        lemma_ds_index_pos_first(ixs.drop_first(), name, k - 1);
    }
}

/// The first data stream with `name` among its backing indices, paired
/// with the position of `name` inside it.
pub open spec fn find_data_stream(dss: Seq<DataStreamInfo>, name: Seq<char>) -> Option<
    (DataStreamInfo, int),
>
    decreases dss.len(),
{
    if dss.len() == 0 {
        None
    } else {
        match ds_index_pos(dss[0].indices@, name) {
            Some(p) => Some((dss[0], p)),
            None => find_data_stream(dss.drop_first(), name),
        }
    }
}

/// Position of `name` among the backing indices, by scanning.
fn ds_index_pos_exec(ixs: &Vec<DataStreamIndex>, name: &String) -> (r: Option<usize>)
    ensures
        match r {
            Some(p) => p < ixs@.len() && ds_index_pos(ixs@, name@) == Some(p as int),
            None => ds_index_pos(ixs@, name@) is None,
        },
{
    let mut j: usize = 0;
    while j < ixs.len()
        invariant
            j <= ixs@.len(),
            forall|i: int| 0 <= i < j ==> (#[trigger] ixs@[i]).index_name@ != name@,
        decreases ixs@.len() - j,
    {
        if ixs[j].index_name == *name {
            proof {
                lemma_ds_index_pos_first(ixs@, name@, j as int);
            }
            return Some(j);
        }
        j += 1;
    }
    proof {
        lemma_ds_index_pos_none(ixs@, name@);
    }
    None
}

/// What the data-stream membership record holds when `name` backs the
/// stream `ds` at position `p`.
pub open spec fn ds_details_ok(ds: DataStreamInfo, p: int, r: DataStreamDetails) -> bool {
    &&& r.name == ds.name
    &&& r.timestamp_field == ds.timestamp_field.name
    &&& r.generation == ds.generation
    &&& r.total_backing_indices == ds.indices@.len()
    &&& r.backing_index_position == p + 1
    &&& r.is_write_index == (p == ds.indices@.len() - 1)
    &&& r.template == ds.template
    &&& r.data_retention == match ds.lifecycle {
        Some(l) => l.data_retention,
        None => None::<String>,
    }
}

/// The membership record for `name`, from the first data stream backing
/// it, or nothing when no stream does.
#[verifier::loop_isolation(false)]
fn find_data_stream_exec(resp: DataStreamsResponse, name: &String) -> (r: Option<
    DataStreamDetails,
>)
    ensures
        match r {
            Some(d) => exists|ds: DataStreamInfo, p: int|
                find_data_stream(resp.data_streams@, name@) == Some((ds, p))
                    && #[trigger] ds_details_ok(ds, p, d),
            None => find_data_stream(resp.data_streams@, name@) is None,
        },
{
    let ghost s0 = resp.data_streams@;
    let mut dss = resp.data_streams;
    proof {
        assert(s0.skip(0) =~= s0);
    }
    while dss.len() > 0
        invariant
            dss@.len() <= s0.len(),
            dss@ =~= s0.skip(s0.len() - dss@.len()),
            find_data_stream(s0, name@) == find_data_stream(dss@, name@),
        decreases dss@.len(),
    {
        let ghost ds_seq = dss@;
        let ds = dss.remove(0);
        let ghost dsg = ds;
        proof {
            assert(ds_seq[0] == ds);
            assert(ds_seq.drop_first() =~= dss@);
        }
        match ds_index_pos_exec(&ds.indices, name) {
            Some(pos) => {
                let total = ds.indices.len();
                let is_write = pos == total - 1;
                let retention: Option<String> = match ds.lifecycle {
                    Some(l) => l.data_retention,
                    None => None,
                };
                let d = DataStreamDetails {
                    name: ds.name,
                    timestamp_field: ds.timestamp_field.name,
                    generation: ds.generation,
                    total_backing_indices: total,
                    backing_index_position: pos + 1,
                    is_write_index: is_write,
                    template: ds.template,
                    data_retention: retention,
                };
                proof {
                    assert(find_data_stream(s0, name@) == Some((dsg, pos as int)));
                    assert(ds_details_ok(dsg, pos as int, d));
                }
                return Some(d);
            },
            None => {},
        }
    }
    None
}

/// The settings object stored for `name`, if the settings sub-fetch
/// succeeded and listed the index.
pub open spec fn idx_settings_of(
    settings: Option<IndexSettingsResponse>,
    name: Seq<char>,
) -> Option<IndexSettingsIndex> {
    match settings {
        Some(resp) => match find_pair(resp.indices@, name) {
            Some(e) => Some(e.settings.index),
            None => None,
        },
        None => None,
    }
}

/// The lifecycle status stored for `name`, if that sub-fetch succeeded and
/// listed the index.
pub open spec fn ilm_status_of(ilm: Option<IlmExplainResponse>, name: Seq<char>) -> Option<
    IlmIndexStatus,
> {
    match ilm {
        Some(resp) => find_pair(resp.indices@, name),
        None => None,
    }
}

/// The segment count stored for `name`; zero when unknown.
pub open spec fn segment_count_of(
    segments: Option<SegmentsStatsResponse>,
    name: Seq<char>,
) -> u64 {
    match segments {
        Some(resp) => match find_pair(resp.indices@, name) {
            Some(st) => st.primaries.segments.count,
            None => 0,
        },
        None => 0,
    }
}

/// The lifecycle policy: what the lifecycle status names, or failing that
/// what the index settings name.
pub open spec fn ilm_policy_of(
    ilm: Option<IlmExplainResponse>,
    si: Option<IndexSettingsIndex>,
    name: Seq<char>,
) -> Option<String> {
    let from_status = match ilm_status_of(ilm, name) {
        Some(st) => st.policy,
        None => None,
    };
    match from_status {
        Some(p) => Some(p),
        None => match si {
            Some(ix) => match ix.lifecycle {
                Some(l) => l.name,
                None => None,
            },
            None => None,
        },
    }
}

/// The creation timestamp in milliseconds, as the settings carry it: a
/// decimal string that must fit a signed 64-bit value.
pub open spec fn creation_ms_of(si: Option<IndexSettingsIndex>) -> Option<u64> {
    match si {
        Some(ix) => match ix.creation_date {
            Some(cd) => match parsed_u64(cd@) {
                Some(v) => if v <= i64::MAX {
                    Some(v)
                } else {
                    None
                },
                None => None,
            },
            None => None,
        },
        None => None,
    }
}

/// A shard count read from its settings string; zero when missing or
/// malformed.
pub open spec fn shard_count_of(field: Option<String>) -> u32 {
    match field {
        Some(n) => match parsed_u64(n@) {
            Some(v) => if v <= u32::MAX {
                v as u32
            } else {
                0u32
            },
            None => 0u32,
        },
        None => 0u32,
    }
}


/// What the assembled detail record holds, fact by fact, given the
/// sub-responses that arrived: the relation that `assemble_index_details`
/// establishes and `build_details_result` re-exports.
pub open spec fn details_report_ok(
    name: String,
    doc_count: u64,
    rate_milli: u64,
    size_bytes: u64,
    settings: Option<IndexSettingsResponse>,
    ilm: Option<IlmExplainResponse>,
    segments: Option<SegmentsStatsResponse>,
    shards: Option<Vec<CatShardEntry>>,
    templates: Option<IndexTemplateResponse>,
    cat: Option<Vec<CatIndexEntry>>,
    data_streams: Option<DataStreamsResponse>,
    r: IndexDetails,
) -> bool {
    &&& r.name == name
    &&& r.doc_count == doc_count
    &&& r.rate_milli == rate_milli
    &&& r.size_bytes == size_bytes
    &&& ({
        let si = idx_settings_of(settings, name@);
        &&& r.provided_name == (match si {
            Some(ix) => ix.provided_name,
            None => None::<String>,
        })
        &&& r.uuid == (match si {
            Some(ix) => ix.uuid,
            None => None::<String>,
        })
        &&& r.primary_shards == shard_count_of(
            match si {
                Some(ix) => ix.number_of_shards,
                None => None::<String>,
            },
        )
        &&& r.replica_shards == shard_count_of(
            match si {
                Some(ix) => ix.number_of_replicas,
                None => None::<String>,
            },
        )
        &&& r.is_frozen == (match si {
            Some(ix) => match ix.frozen {
                Some(f) => f@ == "true"@,
                None => false,
            },
            None => false,
        })
        &&& r.is_partial == (match si {
            Some(ix) => match ix.store {
                Some(st) => match st.store_type {
                    Some(t) => has_substring(t@, "snapshot"@) || has_substring(
                        t@,
                        "searchable"@,
                    ),
                    None => false,
                },
                None => false,
            },
            None => false,
        })
        &&& r.ilm_policy == ilm_policy_of(ilm, si, name@)
        &&& r.ilm_phase == (match ilm_status_of(ilm, name@) {
            Some(st) => st.phase,
            None => None::<String>,
        })
        &&& (match creation_ms_of(si) {
            Some(v) => {
                &&& (r.creation_date is Some <==> timestamp_in_range(v as int))
                &&& (r.creation_date matches Some(cs) ==> cs@ == timestamp_display(v as int))
            },
            None => r.creation_date is None,
        })
    })
    &&& r.total_segments == segment_count_of(segments, name@)
    &&& r.shard_allocation@.len() == (match shards {
        Some(v) => v@.len(),
        None => 0nat,
    })
    &&& (match shards {
        Some(v) => forall|k: int|
            0 <= k < v@.len() ==> shard_fields_ok(v@[k], #[trigger] r.shard_allocation@[k]),
        None => true,
    })
    &&& r.templates@ == (match templates {
        Some(t) => selected_templates(t.index_templates@, name@),
        None => Seq::<String>::empty(),
    })
    &&& r.health == (match cat {
        Some(v) => if v@.len() > 0 {
            v@[0].health
        } else {
            None::<String>
        },
        None => None::<String>,
    })
    &&& r.status == (match cat {
        Some(v) => if v@.len() > 0 {
            v@[0].status
        } else {
            None::<String>
        },
        None => None::<String>,
    })
    &&& (match data_streams {
        Some(resp) => match find_data_stream(resp.data_streams@, name@) {
            Some((ds, p)) => r.data_stream matches Some(d) && ds_details_ok(ds, p, d),
            None => r.data_stream is None,
        },
        None => r.data_stream is None,
    })
}

/// Builds the detail record for one index from the ancillary responses,
/// fact by fact: what is missing, failed or malformed degrades to
/// "unknown" (`None` or zero) without affecting the other facts.
#[verifier::rlimit(60)]
pub fn assemble_index_details(
    index_name: &String,
    doc_count: u64,
    rate_milli: u64,
    size_bytes: u64,
    settings: Option<IndexSettingsResponse>,
    ilm: Option<IlmExplainResponse>,
    segments: Option<SegmentsStatsResponse>,
    shards: Option<Vec<CatShardEntry>>,
    templates: Option<IndexTemplateResponse>,
    cat: Option<Vec<CatIndexEntry>>,
    data_streams: Option<DataStreamsResponse>,
) -> (r: IndexDetails)
    ensures
        details_report_ok(
            *index_name,
            doc_count,
            rate_milli,
            size_bytes,
            settings,
            ilm,
            segments,
            shards,
            templates,
            cat,
            data_streams,
            r,
        ),
{
    let si: Option<IndexSettingsIndex> = match settings {
        Some(resp) => match take_pair(resp.indices, index_name) {
            Some(e) => Some(e.settings.index),
            None => None,
        },
        None => None,
    };
    let ghost sig = si;
    proof {
        assert(sig == idx_settings_of(settings, index_name@));
    }
    let mut provided_name: Option<String> = None;
    let mut uuid: Option<String> = None;
    let mut primary_shards: u32 = 0;
    let mut replica_shards: u32 = 0;
    let mut is_frozen = false;
    let mut is_partial = false;
    let mut creation_date: Option<String> = None;
    let mut settings_policy: Option<String> = None;
    match si {
        Some(ix) => {
            match &ix.number_of_shards {
                Some(n) => {
                    primary_shards = match parse_u64(n.as_str()) {
                        Some(v) => if v <= u32::MAX as u64 {
                            v as u32
                        } else {
                            0
                        },
                        None => 0,
                    };
                },
                None => {},
            }
            match &ix.number_of_replicas {
                Some(n) => {
                    replica_shards = match parse_u64(n.as_str()) {
                        Some(v) => if v <= u32::MAX as u64 {
                            v as u32
                        } else {
                            0
                        },
                        None => 0,
                    };
                },
                None => {},
            }
            match &ix.frozen {
                Some(f) => {
                    is_frozen = str_eq(f.as_str(), "true");
                },
                None => {},
            }
            match &ix.store {
                Some(st) => match &st.store_type {
                    Some(t) => {
                        is_partial = contains_chars(t.as_str(), "snapshot") || contains_chars(
                            t.as_str(),
                            "searchable",
                        );
                    },
                    None => {},
                },
                None => {},
            }
            match &ix.creation_date {
                Some(cd) => match parse_u64(cd.as_str()) {
                    Some(v) => {
                        if v <= i64::MAX as u64 {
                            creation_date = format_timestamp_millis(v as i64);
                        }
                    },
                    None => {},
                },
                None => {},
            }
            match ix.lifecycle {
                Some(l) => {
                    settings_policy = l.name;
                },
                None => {},
            }
            provided_name = ix.provided_name;
            uuid = ix.uuid;
        },
        None => {},
    }
    let mut ilm_policy: Option<String> = None;
    let mut ilm_phase: Option<String> = None;
    match ilm {
        Some(resp) => match take_pair(resp.indices, index_name) {
            Some(st) => {
                ilm_policy = st.policy;
                ilm_phase = st.phase;
            },
            None => {},
        },
        None => {},
    }
    let ilm_policy: Option<String> = match ilm_policy {
        Some(p) => Some(p),
        None => settings_policy,
    };
    let total_segments: u64 = match segments {
        Some(resp) => match take_pair(resp.indices, index_name) {
            Some(st) => st.primaries.segments.count,
            None => 0,
        },
        None => 0,
    };
    let shard_allocation: Vec<ShardInfo> = match shards {
        Some(v) => map_shards(v),
        None => Vec::new(),
    };
    let template_names: Vec<String> = match templates {
        Some(t) => matching_templates(t, index_name),
        None => Vec::new(),
    };
    let mut health: Option<String> = None;
    let mut status: Option<String> = None;
    match cat {
        Some(v) => {
            if v.len() > 0 {
                let mut v = v;
                let e = v.remove(0);
                health = e.health;
                status = e.status;
            }
        },
        None => {},
    }
    let data_stream: Option<DataStreamDetails> = match data_streams {
        Some(resp) => find_data_stream_exec(resp, index_name),
        None => None,
    };
    IndexDetails {
        name: index_name.clone(),
        provided_name,
        creation_date,
        primary_shards,
        replica_shards,
        is_frozen,
        is_partial,
        ilm_policy,
        ilm_phase,
        total_segments,
        shard_allocation,
        templates: template_names,
        uuid,
        health,
        status,
        doc_count,
        rate_milli,
        size_bytes,
        data_stream,
    }
}


/// How one sub-fetch of a detail request failed, with the message to
/// display: the endpoint could not be reached at all (transport), the
/// endpoint answered outside the success range, the answer could not be
/// decoded, or anything else.
pub enum SubFetchError {
    Transport(String),
    Api(String),
    Serialization(String),
    Other(String),
}

/// Decides the outcome of one detail fetch, per the error design: only a
/// transport failure of the primary identification request (the settings
/// fetch) surfaces as a popup-level error, carrying that failure's
/// message. Every other failure, of the primary or of an ancillary fact,
/// degrades the facts that failed, and the record is assembled from
/// whatever arrived.
pub fn build_details_result(
    index_name: &String,
    doc_count: u64,
    rate_milli: u64,
    size_bytes: u64,
    settings: Result<IndexSettingsResponse, SubFetchError>,
    ilm: Option<IlmExplainResponse>,
    segments: Option<SegmentsStatsResponse>,
    shards: Option<Vec<CatShardEntry>>,
    templates: Option<IndexTemplateResponse>,
    cat: Option<Vec<CatIndexEntry>>,
    data_streams: Option<DataStreamsResponse>,
) -> (r: Result<IndexDetails, String>)
    ensures
        (r is Err) <==> (settings matches Err(f) && f is Transport),
        r matches Err(m) ==> (settings matches Err(f) && f matches SubFetchError::Transport(t)
            && m@ == t@),
        ({
            let arrived = match settings {
                Ok(resp) => Some(resp),
                Err(_) => None::<IndexSettingsResponse>,
            };
            r matches Ok(d) ==> details_report_ok(
                *index_name,
                doc_count,
                rate_milli,
                size_bytes,
                arrived,
                ilm,
                segments,
                shards,
                templates,
                cat,
                data_streams,
                d,
            )
        }),
{
    match settings {
        Ok(resp) => Ok(
            assemble_index_details(
                index_name,
                doc_count,
                rate_milli,
                size_bytes,
                Some(resp),
                ilm,
                segments,
                shards,
                templates,
                cat,
                data_streams,
            ),
        ),
        Err(f) => match f {
            SubFetchError::Transport(m) => Err(m),
            _ => Ok(
                assemble_index_details(
                    index_name,
                    doc_count,
                    rate_milli,
                    size_bytes,
                    None,
                    ilm,
                    segments,
                    shards,
                    templates,
                    cat,
                    data_streams,
                ),
            ),
        },
    }
}

} // verus!
