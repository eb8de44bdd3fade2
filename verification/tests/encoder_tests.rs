use waycord::error::PipelineError;
use waycord::graph::{GraphLink, GraphModel, NodeKind};
use waycord::hardware_accel::{
    setup_unified_hardware_accel, AccelMode, BackendOutcomes, EncoderAttempt,
};

fn ok() -> EncoderAttempt {
    EncoderAttempt { created: true, linked: true }
}

fn unavailable() -> EncoderAttempt {
    EncoderAttempt { created: false, linked: false }
}

fn link_fails() -> EncoderAttempt {
    EncoderAttempt { created: true, linked: false }
}

fn graph_with_endpoints() -> (GraphModel, u64, u64) {
    let mut g = GraphModel::new();
    let upstream = g.add_node(NodeKind::External);
    let downstream = g.add_node(NodeKind::External);
    (g, upstream, downstream)
}

fn kinds_of(g: &GraphModel) -> Vec<NodeKind> {
    g.nodes.iter().map(|n| n.kind).collect()
}

#[test]
fn high_gpu_goes_straight_to_software() {
    let (mut g, up, down) = graph_with_endpoints();
    let outcomes =
        BackendOutcomes { vaapi: ok(), nvenc: ok(), amf: ok(), software: ok() };
    let mode = setup_unified_hardware_accel(&mut g, up, down, 91, &outcomes).unwrap();
    assert_eq!(mode, AccelMode::Software);
    assert_eq!(g.create_attempts, vec![NodeKind::X264Enc]);
    assert_eq!(kinds_of(&g), vec![NodeKind::External, NodeKind::External, NodeKind::X264Enc]);
    let enc = g.nodes[2].id;
    assert_eq!(
        g.links,
        vec![GraphLink { from: up, to: enc }, GraphLink { from: enc, to: down }]
    );
}

#[test]
fn gpu_at_threshold_still_tries_hardware() {
    let (mut g, up, down) = graph_with_endpoints();
    let outcomes =
        BackendOutcomes { vaapi: ok(), nvenc: ok(), amf: ok(), software: ok() };
    let mode = setup_unified_hardware_accel(&mut g, up, down, 90, &outcomes).unwrap();
    assert_eq!(mode, AccelMode::VAAPI);
}

#[test]
fn vaapi_success_creates_no_other_encoder() {
    let (mut g, up, down) = graph_with_endpoints();
    let outcomes =
        BackendOutcomes { vaapi: ok(), nvenc: ok(), amf: ok(), software: ok() };
    let mode = setup_unified_hardware_accel(&mut g, up, down, 10, &outcomes).unwrap();
    assert_eq!(mode, AccelMode::VAAPI);
    assert_eq!(g.create_attempts, vec![NodeKind::VaapiH264Enc]);
    assert_eq!(
        kinds_of(&g),
        vec![NodeKind::External, NodeKind::External, NodeKind::VaapiH264Enc]
    );
    let enc = g.nodes[2].id;
    assert_eq!(
        g.links,
        vec![GraphLink { from: up, to: enc }, GraphLink { from: enc, to: down }]
    );
}

#[test]
fn failed_vaapi_link_falls_through_to_nvenc_without_dangling_node() {
    let (mut g, up, down) = graph_with_endpoints();
    let outcomes =
        BackendOutcomes { vaapi: link_fails(), nvenc: ok(), amf: ok(), software: ok() };
    let mode = setup_unified_hardware_accel(&mut g, up, down, 0, &outcomes).unwrap();
    assert_eq!(mode, AccelMode::NVENC);
    assert_eq!(g.create_attempts, vec![NodeKind::VaapiH264Enc, NodeKind::NvH264Enc]);
    assert_eq!(
        kinds_of(&g),
        vec![NodeKind::External, NodeKind::External, NodeKind::NvH264Enc]
    );
}

#[test]
fn missing_backends_fall_through_to_amf() {
    let (mut g, up, down) = graph_with_endpoints();
    let outcomes = BackendOutcomes {
        vaapi: unavailable(),
        nvenc: unavailable(),
        amf: ok(),
        software: ok(),
    };
    let mode = setup_unified_hardware_accel(&mut g, up, down, 50, &outcomes).unwrap();
    assert_eq!(mode, AccelMode::AMF);
    assert_eq!(
        g.create_attempts,
        vec![NodeKind::VaapiH264Enc, NodeKind::NvH264Enc, NodeKind::AmfH264Enc]
    );
}

#[test]
fn all_hardware_failing_falls_back_to_software() {
    let (mut g, up, down) = graph_with_endpoints();
    let outcomes = BackendOutcomes {
        vaapi: unavailable(),
        nvenc: link_fails(),
        amf: unavailable(),
        software: ok(),
    };
    let mode = setup_unified_hardware_accel(&mut g, up, down, 50, &outcomes).unwrap();
    assert_eq!(mode, AccelMode::Software);
    assert_eq!(
        g.create_attempts,
        vec![
            NodeKind::VaapiH264Enc,
            NodeKind::NvH264Enc,
            NodeKind::AmfH264Enc,
            NodeKind::X264Enc,
        ]
    );
    assert_eq!(kinds_of(&g), vec![NodeKind::External, NodeKind::External, NodeKind::X264Enc]);
}

#[test]
fn missing_software_encoder_is_fatal() {
    let (mut g, up, down) = graph_with_endpoints();
    let outcomes = BackendOutcomes {
        vaapi: unavailable(),
        nvenc: unavailable(),
        amf: unavailable(),
        software: unavailable(),
    };
    let err = setup_unified_hardware_accel(&mut g, up, down, 50, &outcomes).unwrap_err();
    assert_eq!(err, PipelineError::ElementUnavailable);
    assert_eq!(kinds_of(&g), vec![NodeKind::External, NodeKind::External]);
    assert!(g.links.is_empty());
}

#[test]
fn software_link_failure_is_fatal_and_leaves_node_unlinked() {
    let (mut g, up, down) = graph_with_endpoints();
    let outcomes = BackendOutcomes {
        vaapi: unavailable(),
        nvenc: unavailable(),
        amf: unavailable(),
        software: link_fails(),
    };
    let err = setup_unified_hardware_accel(&mut g, up, down, 50, &outcomes).unwrap_err();
    assert_eq!(err, PipelineError::LinkFailure);
    assert_eq!(kinds_of(&g), vec![NodeKind::External, NodeKind::External, NodeKind::X264Enc]);
    assert!(g.links.is_empty());
}
