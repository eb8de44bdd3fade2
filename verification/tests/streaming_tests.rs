use waycord::error::PipelineError;
use waycord::graph::{GraphLink, GraphModel, NodeKind, NodePropWrite, PropKey, PropValue};
use waycord::streaming::{BranchOutcome, MultiStreamingManager, StreamingProtocol};

fn branch_ok() -> BranchOutcome {
    BranchOutcome { queue_created: true, mux_created: true, sink_created: true, link_ok: true }
}

/// Bytes that measure as the given throughput (in kbit/s) over the given
/// window: throughput = bytes * 8000 / (1024 * elapsed_ms).
fn bytes_for(throughput_kbps: u64, elapsed_ms: u64) -> usize {
    (throughput_kbps * 1024 * elapsed_ms / 8000) as usize
}

#[test]
fn underused_link_raises_bitrate_one_step() {
    let mut m = MultiStreamingManager::new(4000, 1000, 8000);
    m.start_adaptive_bitrate(42, 0).unwrap();
    m.record_bytes_sent(bytes_for(2000, 5000));
    let act = m.bitrate_tick(5000);
    assert_eq!(
        act,
        Some(NodePropWrite { node: 42, key: PropKey::Bitrate, value: PropValue::Uint(4256) })
    );
    assert_eq!(m.current_bitrate, 4256);
}

#[test]
fn saturated_link_lowers_bitrate_one_step() {
    let mut m = MultiStreamingManager::new(4000, 1000, 8000);
    m.start_adaptive_bitrate(42, 0).unwrap();
    m.record_bytes_sent(bytes_for(3900, 5000));
    let act = m.bitrate_tick(5000);
    assert_eq!(
        act,
        Some(NodePropWrite { node: 42, key: PropKey::Bitrate, value: PropValue::Uint(3744) })
    );
    assert_eq!(m.current_bitrate, 3744);
}

#[test]
fn hysteresis_band_leaves_bitrate_alone() {
    let mut m = MultiStreamingManager::new(4000, 1000, 8000);
    m.start_adaptive_bitrate(42, 0).unwrap();
    m.record_bytes_sent(bytes_for(3000, 5000));
    let act = m.bitrate_tick(5000);
    assert_eq!(act, None);
    assert_eq!(m.current_bitrate, 4000);
}

#[test]
fn raises_clamp_to_max() {
    let mut m = MultiStreamingManager::new(7900, 1000, 8000);
    m.start_adaptive_bitrate(42, 0).unwrap();
    let act = m.bitrate_tick(5000);
    assert_eq!(
        act,
        Some(NodePropWrite { node: 42, key: PropKey::Bitrate, value: PropValue::Uint(8000) })
    );
    let act = m.bitrate_tick(10000);
    assert_eq!(
        act,
        Some(NodePropWrite { node: 42, key: PropKey::Bitrate, value: PropValue::Uint(8000) })
    );
    assert_eq!(m.current_bitrate, 8000);
}

#[test]
fn lowers_clamp_to_min() {
    let mut m = MultiStreamingManager::new(1100, 1000, 8000);
    m.start_adaptive_bitrate(42, 0).unwrap();
    m.record_bytes_sent(bytes_for(50000, 5000));
    let act = m.bitrate_tick(5000);
    assert_eq!(
        act,
        Some(NodePropWrite { node: 42, key: PropKey::Bitrate, value: PropValue::Uint(1000) })
    );
    m.record_bytes_sent(bytes_for(50000, 5000));
    let act = m.bitrate_tick(10000);
    assert_eq!(
        act,
        Some(NodePropWrite { node: 42, key: PropKey::Bitrate, value: PropValue::Uint(1000) })
    );
    assert_eq!(m.current_bitrate, 1000);
}

#[test]
fn bitrate_never_leaves_bounds_over_any_measurement_sequence() {
    let mut m = MultiStreamingManager::new(4000, 1000, 8000);
    m.start_adaptive_bitrate(42, 0).unwrap();
    let throughputs: [u64; 12] =
        [0, 50000, 0, 0, 0, 0, 0, 0, 123456789, 1, 3999, 7000];
    let mut now = 0u64;
    for t in throughputs {
        m.record_bytes_sent(bytes_for(t, 5000));
        now += 5000;
        m.bitrate_tick(now);
        assert!(m.current_bitrate >= 1000);
        assert!(m.current_bitrate <= 8000);
    }
}

#[test]
fn zero_throughput_keeps_raising_until_max() {
    let mut m = MultiStreamingManager::new(1000, 1000, 2000);
    m.start_adaptive_bitrate(42, 0).unwrap();
    let mut now = 0u64;
    for _ in 0..10 {
        now += 5000;
        m.bitrate_tick(now);
        assert!(m.current_bitrate <= 2000);
    }
    assert_eq!(m.current_bitrate, 2000);
}

#[test]
fn byte_counter_saturates_instead_of_wrapping() {
    let mut m = MultiStreamingManager::new(4000, 1000, 8000);
    m.record_bytes_sent(usize::MAX);
    m.record_bytes_sent(usize::MAX);
    assert_eq!(m.bytes_sent, u64::MAX);
}

#[test]
fn rtmp_output_builds_and_configures_branch() {
    let mut g = GraphModel::new();
    let mut m = MultiStreamingManager::new(4000, 1000, 8000);
    let writes = m
        .add_output(
            &mut g,
            StreamingProtocol::RTMP(String::from("rtmp://live.example/stream")),
            &branch_ok(),
        )
        .unwrap();
    assert_eq!(m.outputs.len(), 1);
    let out = &m.outputs[0];
    assert_eq!((out.queue, out.mux, out.sink), (0, 1, 2));
    let kinds: Vec<NodeKind> = g.nodes.iter().map(|n| n.kind).collect();
    assert_eq!(kinds, vec![NodeKind::Queue, NodeKind::FlvMux, NodeKind::RtmpSink]);
    assert_eq!(
        g.links,
        vec![GraphLink { from: 0, to: 1 }, GraphLink { from: 1, to: 2 }]
    );
    assert_eq!(writes.len(), 1);
    assert_eq!(writes[0].node, 2);
    assert_eq!(writes[0].key, PropKey::Location);
    assert_eq!(
        writes[0].value,
        PropValue::Text(String::from("rtmp://live.example/stream"))
    );
}

#[test]
fn srt_output_uses_ts_mux_and_uri() {
    let mut g = GraphModel::new();
    let mut m = MultiStreamingManager::new(4000, 1000, 8000);
    let writes = m
        .add_output(
            &mut g,
            StreamingProtocol::SRT(String::from("srt://relay.example:9000")),
            &branch_ok(),
        )
        .unwrap();
    let kinds: Vec<NodeKind> = g.nodes.iter().map(|n| n.kind).collect();
    assert_eq!(kinds, vec![NodeKind::Queue, NodeKind::MpegTsMux, NodeKind::SrtSink]);
    assert_eq!(writes.len(), 1);
    assert_eq!(writes[0].key, PropKey::Uri);
    assert_eq!(writes[0].value, PropValue::Text(String::from("srt://relay.example:9000")));
}

#[test]
fn hls_output_derives_segment_and_playlist_locations() {
    let mut g = GraphModel::new();
    let mut m = MultiStreamingManager::new(4000, 1000, 8000);
    let writes = m
        .add_output(&mut g, StreamingProtocol::HLS(String::from("/var/hls")), &branch_ok())
        .unwrap();
    let kinds: Vec<NodeKind> = g.nodes.iter().map(|n| n.kind).collect();
    assert_eq!(kinds, vec![NodeKind::Queue, NodeKind::MpegTsMux, NodeKind::HlsSink]);
    assert_eq!(writes.len(), 2);
    assert_eq!(writes[0].key, PropKey::Location);
    assert_eq!(
        writes[0].value,
        PropValue::Text(String::from("/var/hls/segment_%05d.ts"))
    );
    assert_eq!(writes[1].key, PropKey::PlaylistLocation);
    assert_eq!(writes[1].value, PropValue::Text(String::from("/var/hls/playlist.m3u8")));
}

#[test]
fn failed_mux_instantiation_leaves_no_partial_branch() {
    let mut g = GraphModel::new();
    let mut m = MultiStreamingManager::new(4000, 1000, 8000);
    let outcome =
        BranchOutcome { queue_created: true, mux_created: false, sink_created: true, link_ok: true };
    let err = m
        .add_output(&mut g, StreamingProtocol::RTMP(String::from("rtmp://a/b")), &outcome)
        .unwrap_err();
    assert_eq!(err, PipelineError::ElementUnavailable);
    assert!(g.nodes.is_empty());
    assert!(g.links.is_empty());
    assert!(m.outputs.is_empty());
    assert_eq!(g.create_attempts, vec![NodeKind::Queue, NodeKind::FlvMux]);
}

#[test]
fn failed_sink_instantiation_leaves_no_partial_branch() {
    let mut g = GraphModel::new();
    let mut m = MultiStreamingManager::new(4000, 1000, 8000);
    let outcome =
        BranchOutcome { queue_created: true, mux_created: true, sink_created: false, link_ok: true };
    let err = m
        .add_output(&mut g, StreamingProtocol::HLS(String::from("/var/hls")), &outcome)
        .unwrap_err();
    assert_eq!(err, PipelineError::ElementUnavailable);
    assert!(g.nodes.is_empty());
    assert!(m.outputs.is_empty());
}

#[test]
fn failed_branch_link_rolls_whole_branch_back() {
    let mut g = GraphModel::new();
    let mut m = MultiStreamingManager::new(4000, 1000, 8000);
    let outcome =
        BranchOutcome { queue_created: true, mux_created: true, sink_created: true, link_ok: false };
    let err = m
        .add_output(&mut g, StreamingProtocol::RTMP(String::from("rtmp://a/b")), &outcome)
        .unwrap_err();
    assert_eq!(err, PipelineError::LinkFailure);
    assert!(g.nodes.is_empty());
    assert!(g.links.is_empty());
    assert!(m.outputs.is_empty());
}

#[test]
fn link_input_is_best_effort_and_aggregates_failures() {
    let mut g = GraphModel::new();
    let mut m = MultiStreamingManager::new(4000, 1000, 8000);
    m.add_output(&mut g, StreamingProtocol::RTMP(String::from("rtmp://a/b")), &branch_ok())
        .unwrap();
    m.add_output(&mut g, StreamingProtocol::SRT(String::from("srt://c:1")), &branch_ok())
        .unwrap();
    let src = g.add_node(NodeKind::External);
    let links_before = g.links.len();

    let err = m.link_input(&mut g, src, &vec![true, false]).unwrap_err();
    assert_eq!(err, PipelineError::LinkFailure);
    assert_eq!(g.links.len(), links_before + 1);
    assert_eq!(g.links[links_before], GraphLink { from: src, to: m.outputs[0].queue });
}

#[test]
fn link_input_links_every_branch_on_success() {
    let mut g = GraphModel::new();
    let mut m = MultiStreamingManager::new(4000, 1000, 8000);
    m.add_output(&mut g, StreamingProtocol::RTMP(String::from("rtmp://a/b")), &branch_ok())
        .unwrap();
    m.add_output(&mut g, StreamingProtocol::HLS(String::from("/srv/hls")), &branch_ok())
        .unwrap();
    let src = g.add_node(NodeKind::External);
    let links_before = g.links.len();

    m.link_input(&mut g, src, &vec![true, true]).unwrap();
    assert_eq!(g.links.len(), links_before + 2);
    assert_eq!(g.links[links_before], GraphLink { from: src, to: m.outputs[0].queue });
    assert_eq!(g.links[links_before + 1], GraphLink { from: src, to: m.outputs[1].queue });
}
