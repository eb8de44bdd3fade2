use vstd::prelude::*;

use crate::error::PipelineError;
use crate::graph::{GraphLink, GraphModel, GraphNode, NodeKind};

verus! {

/// GPU utilisation (in percent) above which every hardware backend is
/// skipped and the software encoder is used directly.
pub const GPU_LOAD_SHED_THRESHOLD: u32 = 90;

/// The encoder backend the selector settled on.
#[derive(Clone, Copy, Debug, PartialEq, Eq, Structural)]
pub enum AccelMode {
    VAAPI,
    NVENC,
    AMF,
    Software,
}

/// Outcome of trying one encoder backend, as the embedder's engine reports
/// it: whether the encoder node could be instantiated, and whether both
/// links upstream → encoder → downstream then succeeded.
#[derive(Clone, Copy, Debug, PartialEq, Eq, Structural)]
pub struct EncoderAttempt {
    pub created: bool,
    pub linked: bool,
}

/// The engine's verdict on every backend the selector might try.
#[derive(Clone, Copy, Debug, PartialEq, Eq, Structural)]
pub struct BackendOutcomes {
    pub vaapi: EncoderAttempt,
    pub nvenc: EncoderAttempt,
    pub amf: EncoderAttempt,
    pub software: EncoderAttempt,
}

/// A backend attempt succeeds when its node was instantiated and linked.
pub open spec fn attempt_succeeds(a: EncoderAttempt) -> bool {
    a.created && a.linked
}

/// `1` if the attempt instantiated a node, else `0`.
pub open spec fn created_one(a: EncoderAttempt) -> int {
    if a.created {
        1
    } else {
        0
    }
}

/// What falling back to the software encoder yields.  Its failure is the
/// only fatal error of the selector: no further degradation path exists.
pub open spec fn software_result(a: EncoderAttempt) -> Result<AccelMode, PipelineError> {
    if !a.created {
        Err(PipelineError::ElementUnavailable)
    } else if !a.linked {
        Err(PipelineError::LinkFailure)
    } else {
        Ok(AccelMode::Software)
    }
}

/// The mode the selector settles on: under GPU pressure the software
/// encoder directly, otherwise the first hardware backend (in the fixed
/// priority VAAPI, NVENC, AMF) whose attempt succeeds, and the software
/// encoder when none does.
pub open spec fn selected_mode(gpu_usage: u32, o: BackendOutcomes) -> Result<
    AccelMode,
    PipelineError,
> {
    if gpu_usage > GPU_LOAD_SHED_THRESHOLD {
        software_result(o.software)
    } else if attempt_succeeds(o.vaapi) {
        Ok(AccelMode::VAAPI)
    } else if attempt_succeeds(o.nvenc) {
        Ok(AccelMode::NVENC)
    } else if attempt_succeeds(o.amf) {
        Ok(AccelMode::AMF)
    } else {
        software_result(o.software)
    }
}

/// The node kinds whose instantiation the selector attempts, in order: each
/// hardware backend up to and including the first success, or all of them
/// and then the software encoder; under GPU pressure only the software
/// encoder.
pub open spec fn attempted_kinds(gpu_usage: u32, o: BackendOutcomes) -> Seq<NodeKind> {
    if gpu_usage > GPU_LOAD_SHED_THRESHOLD {
        seq![NodeKind::X264Enc]
    } else if attempt_succeeds(o.vaapi) {
        seq![NodeKind::VaapiH264Enc]
    } else if attempt_succeeds(o.nvenc) {
        seq![NodeKind::VaapiH264Enc, NodeKind::NvH264Enc]
    } else if attempt_succeeds(o.amf) {
        seq![NodeKind::VaapiH264Enc, NodeKind::NvH264Enc, NodeKind::AmfH264Enc]
    } else {
        seq![NodeKind::VaapiH264Enc, NodeKind::NvH264Enc, NodeKind::AmfH264Enc, NodeKind::X264Enc]
    }
}

/// How many node identifiers the selection consumes (one per node actually
/// instantiated, whether or not it stayed attached).
pub open spec fn created_count(gpu_usage: u32, o: BackendOutcomes) -> int {
    if gpu_usage > GPU_LOAD_SHED_THRESHOLD {
        created_one(o.software)
    } else if attempt_succeeds(o.vaapi) {
        1
    } else if attempt_succeeds(o.nvenc) {
        created_one(o.vaapi) + 1
    } else if attempt_succeeds(o.amf) {
        created_one(o.vaapi) + created_one(o.nvenc) + 1
    } else {
        created_one(o.vaapi) + created_one(o.nvenc) + created_one(o.amf) + created_one(o.software)
    }
}

/// The identifier the chosen encoder node ends up with, when one stays
/// attached: the base identifier plus one per node instantiated before it.
pub open spec fn encoder_node_id(gpu_usage: u32, o: BackendOutcomes, base: u64) -> u64 {
    if gpu_usage > GPU_LOAD_SHED_THRESHOLD {
        base
    } else if attempt_succeeds(o.vaapi) {
        base
    } else if attempt_succeeds(o.nvenc) {
        (base + created_one(o.vaapi)) as u64
    } else if attempt_succeeds(o.amf) {
        (base + created_one(o.vaapi) + created_one(o.nvenc)) as u64
    } else {
        (base + created_one(o.vaapi) + created_one(o.nvenc) + created_one(o.amf)) as u64
    }
}

/// The kind of the encoder node that stays attached, per selected mode.
pub open spec fn encoder_node_kind(gpu_usage: u32, o: BackendOutcomes) -> NodeKind {
    match selected_mode(gpu_usage, o) {
        Ok(AccelMode::VAAPI) => NodeKind::VaapiH264Enc,
        Ok(AccelMode::NVENC) => NodeKind::NvH264Enc,
        Ok(AccelMode::AMF) => NodeKind::AmfH264Enc,
        _ => NodeKind::X264Enc,
    }
}

/// The nodes the selection leaves attached to the graph.  Every failed
/// hardware attempt is rolled back, so at most one encoder node remains: the
/// chosen one, or — only when the software encoder was instantiated but
/// failed to link, the one fatal case — an unlinked software encoder.
pub open spec fn added_nodes(gpu_usage: u32, o: BackendOutcomes, base: u64) -> Seq<GraphNode> {
    if selected_mode(gpu_usage, o) is Ok {
        seq![
            (GraphNode {
                id: encoder_node_id(gpu_usage, o, base),
                kind: encoder_node_kind(gpu_usage, o),
            }),
        ]
    } else if o.software.created {
        seq![(GraphNode { id: encoder_node_id(gpu_usage, o, base), kind: NodeKind::X264Enc })]
    } else {
        Seq::empty()
    }
}

/// The links the selection leaves in the graph: upstream → encoder →
/// downstream when a mode was selected, nothing otherwise.
pub open spec fn added_links(
    gpu_usage: u32,
    o: BackendOutcomes,
    upstream: u64,
    downstream: u64,
    base: u64,
) -> Seq<GraphLink> {
    if selected_mode(gpu_usage, o) is Ok {
        let enc = encoder_node_id(gpu_usage, o, base);
        seq![(GraphLink { from: upstream, to: enc }), (GraphLink { from: enc, to: downstream })]
    } else {
        Seq::empty()
    }
}

/// Attempts one hardware backend: records the instantiation attempt and, if
/// the node was created, attaches it; a created node that fails to link is
/// detached again, so a failed backend never leaves a node behind.
fn try_hardware_backend(
    graph: &mut GraphModel,
    upstream: u64,
    downstream: u64,
    kind: NodeKind,
    attempt: &EncoderAttempt,
) -> (r: Option<u64>)
    requires
        old(graph).wf(),
        old(graph).next_id < u64::MAX,
    ensures
        final(graph).wf(),
        final(graph).create_attempts@ == old(graph).create_attempts@.push(kind),
        attempt_succeeds(*attempt) ==> r == Some(old(graph).next_id) && final(graph).nodes@ == old(graph).nodes@.push(GraphNode { id: old(graph).next_id, kind }) && final(graph).links@ == old(graph).links@.push(GraphLink { from: upstream, to: old(graph).next_id }).push(
            GraphLink { from: old(graph).next_id, to: downstream },
        ),
        !attempt_succeeds(*attempt) ==> r is None && final(graph).nodes@ == old(graph).nodes@
            && final(graph).links@ == old(graph).links@,
        final(graph).next_id == old(graph).next_id + created_one(*attempt),
{
    let created = graph.try_create(kind, attempt.created);
    match created {
        None => None,
        Some(id) => {
            if attempt.linked {
                graph.add_link(upstream, id);
                graph.add_link(id, downstream);
                Some(id)
            } else {
                proof {
                    assert(graph.nodes@.drop_last() =~= old(graph).nodes@);
                }
                graph.pop_node();
                None
            }
        },
    }
}

/// Falls back to the software encoder: records the attempt, attaches the
/// node when instantiated, and links it in.  Instantiation failure is
/// `ElementUnavailable`; a link failure is `LinkFailure` and — unlike a
/// hardware attempt — leaves the node attached, since no further fallback
/// will reuse its place.
fn use_software_x264(
    graph: &mut GraphModel,
    upstream: u64,
    downstream: u64,
    attempt: &EncoderAttempt,
) -> (r: Result<u64, PipelineError>)
    requires
        old(graph).wf(),
        old(graph).next_id < u64::MAX,
    ensures
        final(graph).wf(),
        final(graph).create_attempts@ == old(graph).create_attempts@.push(NodeKind::X264Enc),
        final(graph).next_id == old(graph).next_id + created_one(*attempt),
        r is Ok <==> attempt_succeeds(*attempt),
        r matches Err(e) ==> e == (if !attempt.created {
            PipelineError::ElementUnavailable
        } else {
            PipelineError::LinkFailure
        }),
        attempt.created ==> final(graph).nodes@ == old(graph).nodes@.push(
            GraphNode { id: old(graph).next_id, kind: NodeKind::X264Enc },
        ),
        !attempt.created ==> final(graph).nodes@ == old(graph).nodes@,
        attempt_succeeds(*attempt) ==> r == Ok::<u64, PipelineError>(old(graph).next_id) && final(graph).links@ == old(graph).links@.push(GraphLink { from: upstream, to: old(graph).next_id }).push(
            GraphLink { from: old(graph).next_id, to: downstream },
        ),
        !attempt_succeeds(*attempt) ==> final(graph).links@ == old(graph).links@,
{
    let created = graph.try_create(NodeKind::X264Enc, attempt.created);
    match created {
        None => Err(PipelineError::ElementUnavailable),
        Some(id) => {
            if attempt.linked {
                graph.add_link(upstream, id);
                graph.add_link(id, downstream);
                Ok(id)
            } else {
                Err(PipelineError::LinkFailure)
            }
        },
    }
}

/// Chooses a video encoder and leaves it linked upstream → encoder →
/// downstream.
///
/// When the GPU utilisation probe exceeds `GPU_LOAD_SHED_THRESHOLD` percent,
/// every hardware attempt is skipped and the software encoder is used
/// directly.  Otherwise the hardware backends are tried in the fixed
/// priority VAAPI, NVENC, AMF; the first backend that instantiates and
/// links wins and nothing later is attempted.  A backend that fails is
/// rolled back — no dangling node — and the chain silently advances; only
/// failure of the final software fallback is surfaced to the caller.
///
/// `outcomes` carries the engine's verdict on each attempt the selector may
/// make (whether that backend's node instantiates, and whether it links);
/// verdicts of backends the selector never reaches are ignored.
pub fn setup_unified_hardware_accel(
    graph: &mut GraphModel,
    upstream: u64,
    downstream: u64,
    gpu_usage: u32,
    outcomes: &BackendOutcomes,
) -> (r: Result<AccelMode, PipelineError>)
    requires
        old(graph).wf(),
        old(graph).next_id + 4 <= u64::MAX,
    ensures
        final(graph).wf(),
        r == selected_mode(gpu_usage, *outcomes),
        final(graph).create_attempts@ == old(graph).create_attempts@ + attempted_kinds(
            gpu_usage,
            *outcomes,
        ),
        final(graph).nodes@ == old(graph).nodes@ + added_nodes(
            gpu_usage,
            *outcomes,
            old(graph).next_id,
        ),
        final(graph).links@ == old(graph).links@ + added_links(
            gpu_usage,
            *outcomes,
            upstream,
            downstream,
            old(graph).next_id,
        ),
        final(graph).next_id == old(graph).next_id + created_count(gpu_usage, *outcomes),
{
    let ghost base = graph.next_id;
    if gpu_usage > GPU_LOAD_SHED_THRESHOLD {
        let sw = use_software_x264(graph, upstream, downstream, &outcomes.software);
        proof {
            assert(graph.create_attempts@ =~= old(graph).create_attempts@ + attempted_kinds(
                gpu_usage,
                *outcomes,
            ));
            assert(graph.nodes@ =~= old(graph).nodes@ + added_nodes(
                gpu_usage,
                *outcomes,
                base,
            ));
            assert(graph.links@ =~= old(graph).links@ + added_links(
                gpu_usage,
                *outcomes,
                upstream,
                downstream,
                base,
            ));
        }
        return match sw {
            Ok(_) => Ok(AccelMode::Software),
            Err(e) => Err(e),
        };
    }
    let vaapi = try_hardware_backend(
        graph,
        upstream,
        downstream,
        NodeKind::VaapiH264Enc,
        &outcomes.vaapi,
    );
    if vaapi.is_some() {
        proof {
            assert(graph.create_attempts@ =~= old(graph).create_attempts@ + attempted_kinds(
                gpu_usage,
                *outcomes,
            ));
            assert(graph.nodes@ =~= old(graph).nodes@ + added_nodes(
                gpu_usage,
                *outcomes,
                base,
            ));
            assert(graph.links@ =~= old(graph).links@ + added_links(
                gpu_usage,
                *outcomes,
                upstream,
                downstream,
                base,
            ));
        }
        return Ok(AccelMode::VAAPI);
    }
    let nvenc = try_hardware_backend(
        graph,
        upstream,
        downstream,
        NodeKind::NvH264Enc,
        &outcomes.nvenc,
    );
    if nvenc.is_some() {
        proof {
            assert(graph.create_attempts@ =~= old(graph).create_attempts@ + attempted_kinds(
                gpu_usage,
                *outcomes,
            ));
            assert(graph.nodes@ =~= old(graph).nodes@ + added_nodes(
                gpu_usage,
                *outcomes,
                base,
            ));
            assert(graph.links@ =~= old(graph).links@ + added_links(
                gpu_usage,
                *outcomes,
                upstream,
                downstream,
                base,
            ));
        }
        return Ok(AccelMode::NVENC);
    }
    let amf = try_hardware_backend(
        graph,
        upstream,
        downstream,
        NodeKind::AmfH264Enc,
        &outcomes.amf,
    );
    if amf.is_some() {
        proof {
            assert(graph.create_attempts@ =~= old(graph).create_attempts@ + attempted_kinds(
                gpu_usage,
                *outcomes,
            ));
            assert(graph.nodes@ =~= old(graph).nodes@ + added_nodes(
                gpu_usage,
                *outcomes,
                base,
            ));
            assert(graph.links@ =~= old(graph).links@ + added_links(
                gpu_usage,
                *outcomes,
                upstream,
                downstream,
                base,
            ));
        }
        return Ok(AccelMode::AMF);
    }
    let sw = use_software_x264(graph, upstream, downstream, &outcomes.software);
    proof {
        assert(graph.create_attempts@ =~= old(graph).create_attempts@ + attempted_kinds(
            gpu_usage,
            *outcomes,
        ));
        assert(graph.nodes@ =~= old(graph).nodes@ + added_nodes(
            gpu_usage,
            *outcomes,
            base,
        ));
        assert(graph.links@ =~= old(graph).links@ + added_links(
            gpu_usage,
            *outcomes,
            upstream,
            downstream,
            base,
        ));
    }
    match sw {
        Ok(_) => Ok(AccelMode::Software),
        Err(e) => Err(e),
    }
}

/// Law: load shedding.  Whenever the GPU probe is above the threshold the
/// selector attempts no hardware backend at all — only the software encoder
/// — and any mode it settles on is `Software`.
pub proof fn lemma_select_sheds_load_under_pressure(gpu_usage: u32, o: BackendOutcomes)
    requires
        gpu_usage > GPU_LOAD_SHED_THRESHOLD,
    ensures
        attempted_kinds(gpu_usage, o) == seq![NodeKind::X264Enc],
        selected_mode(gpu_usage, o) is Ok ==> selected_mode(gpu_usage, o) == Ok::<
            AccelMode,
            PipelineError,
        >(AccelMode::Software),
{
}

/// Law: the first success wins.  Without GPU pressure, when the VAAPI
/// attempt instantiates and links, the selector settles on VAAPI and never
/// attempts an NVENC or AMF node.
pub proof fn lemma_select_first_success_wins(gpu_usage: u32, o: BackendOutcomes)
    requires
        gpu_usage <= GPU_LOAD_SHED_THRESHOLD,
        attempt_succeeds(o.vaapi),
    ensures
        selected_mode(gpu_usage, o) == Ok::<AccelMode, PipelineError>(AccelMode::VAAPI),
        attempted_kinds(gpu_usage, o) == seq![NodeKind::VaapiH264Enc],
{
}

} // verus!
