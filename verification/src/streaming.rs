use vstd::prelude::*;

use crate::error::PipelineError;
use crate::graph::{GraphLink, GraphModel, GraphNode, NodeKind, NodePropWrite, PropKey, PropValue};

verus! {

/// Fixed amount by which one adaptation tick moves the bitrate, in kbit/s.
pub const BITRATE_STEP_KBPS: u32 = 256;

/// Default spacing of adaptation ticks, in milliseconds.
pub const DEFAULT_CHECK_INTERVAL_MS: u64 = 5000;

/// The bitrate is raised when measured throughput falls below this
/// percentage of the current bitrate.
pub const RAISE_BELOW_PERCENT: u32 = 70;

/// The bitrate is lowered when measured throughput exceeds this percentage
/// of the current bitrate.
pub const LOWER_ABOVE_PERCENT: u32 = 95;

/// A streaming destination: where one output branch sends its data.
#[derive(Clone, Debug, PartialEq, Eq)]
pub enum StreamingProtocol {
    /// An RTMP target location.
    RTMP(String),
    /// An SRT target address.
    SRT(String),
    /// An HLS output directory, holding the segment and playlist files.
    HLS(String),
}

/// One streaming output branch: its destination and the queue → mux → sink
/// nodes that feed it.
#[derive(Clone, Debug, PartialEq, Eq)]
pub struct StreamingOutput {
    pub protocol: StreamingProtocol,
    pub queue: u64,
    pub mux: u64,
    pub sink: u64,
}

/// The engine's verdict on building one output branch: whether each of the
/// three nodes could be instantiated, and whether the branch could be
/// linked queue → mux → sink.
#[derive(Clone, Copy, Debug, PartialEq, Eq, Structural)]
pub struct BranchOutcome {
    pub queue_created: bool,
    pub mux_created: bool,
    pub sink_created: bool,
    pub link_ok: bool,
}

/// Manages a set of simultaneous streaming destinations and adapts the
/// encoder bitrate from measured byte throughput.
///
/// The output list is append-only; destinations are never removed at run
/// time.  The embedder reports sent payload bytes through
/// [`MultiStreamingManager::record_bytes_sent`] and calls
/// [`MultiStreamingManager::bitrate_tick`] every
/// [`MultiStreamingManager::check_interval_ms`] milliseconds; a tick may
/// hand back a new bitrate to write to the encoder.
pub struct MultiStreamingManager {
    pub outputs: Vec<StreamingOutput>,
    /// Current encoder bitrate in kbit/s, always within
    /// `[min_bitrate, max_bitrate]`.
    pub current_bitrate: u32,
    pub min_bitrate: u32,
    pub max_bitrate: u32,
    /// Monotonic counter of payload bytes confirmed sent.
    pub bytes_sent: u64,
    /// Value of `bytes_sent` when the last tick ran.
    pub bytes_at_last_check: u64,
    /// Timestamp of the last tick, in milliseconds.
    pub last_check_ms: u64,
    pub check_interval_ms: u64,
    pub adaptive_running: bool,
    /// The encoder node whose bitrate property the ticks retune;
    /// meaningful once adaptation is started.
    pub adaptive_encoder: u64,
}

/// Measured throughput in kbit/s over a window: bytes sent during the
/// window, times 8000 bits per 1024-byte kilounit, per elapsed millisecond.
pub open spec fn throughput_kbps(delta_bytes: int, elapsed_ms: int) -> int
    recommends
        elapsed_ms > 0,
{
    (delta_bytes * 8000) / (1024 * elapsed_ms)
}

/// The link is underused: throughput below `RAISE_BELOW_PERCENT` percent of
/// the current bitrate.
pub open spec fn should_raise(current: u32, throughput: int) -> bool {
    throughput * 100 < current * RAISE_BELOW_PERCENT
}

/// The link is saturated: throughput above `LOWER_ABOVE_PERCENT` percent of
/// the current bitrate.
pub open spec fn should_lower(current: u32, throughput: int) -> bool {
    throughput * 100 > current * LOWER_ABOVE_PERCENT
}

/// The bitrate after one adaptation tick: one step up (clamped to `max`)
/// when underused, one step down (clamped to `min`) when saturated,
/// unchanged inside the hysteresis band.
pub open spec fn next_bitrate(current: u32, min: u32, max: u32, throughput: int) -> u32 {
    if should_raise(current, throughput) {
        if current + BITRATE_STEP_KBPS <= max {
            (current + BITRATE_STEP_KBPS) as u32
        } else {
            max
        }
    } else if should_lower(current, throughput) {
        if current >= min + BITRATE_STEP_KBPS {
            (current - BITRATE_STEP_KBPS) as u32
        } else {
            min
        }
    } else {
        current
    }
}

/// What one tick writes to the encoder: the new bitrate when either
/// threshold was crossed (even if clamping left the value unchanged),
/// nothing inside the hysteresis band.
pub open spec fn bitrate_action(current: u32, min: u32, max: u32, throughput: int) -> Option<
    u32,
> {
    if should_raise(current, throughput) || should_lower(current, throughput) {
        Some(next_bitrate(current, min, max, throughput))
    } else {
        None
    }
}

/// The bitrate after a whole sequence of adaptation ticks, one per
/// measurement.
pub open spec fn run_bitrate(current: u32, min: u32, max: u32, measurements: Seq<int>) -> u32
    decreases measurements.len(),
{
    if measurements.len() == 0 {
        current
    } else {
        run_bitrate(
            next_bitrate(current, min, max, measurements[0]),
            min,
            max,
            measurements.drop_first(),
        )
    }
}

/// Law: the bitrate never leaves `[min, max]`, whatever sequence of
/// throughput measurements the ticks see — zero, values far beyond `max`,
/// anything.
pub proof fn lemma_bitrate_stays_bounded(current: u32, min: u32, max: u32, measurements: Seq<int>)
    requires
        min <= current <= max,
    ensures
        min <= run_bitrate(current, min, max, measurements) <= max,
    decreases measurements.len(),
{
    if measurements.len() > 0 {
        lemma_bitrate_stays_bounded(
            next_bitrate(current, min, max, measurements[0]),
            min,
            max,
            measurements.drop_first(),
        );
    }
}

/// The muxer kind an output branch uses for its destination.
pub open spec fn mux_kind(p: StreamingProtocol) -> NodeKind {
    match p {
        StreamingProtocol::RTMP(_) => NodeKind::FlvMux,
        StreamingProtocol::SRT(_) => NodeKind::MpegTsMux,
        StreamingProtocol::HLS(_) => NodeKind::MpegTsMux,
    }
}

/// The sink kind an output branch uses for its destination.
pub open spec fn sink_kind(p: StreamingProtocol) -> NodeKind {
    match p {
        StreamingProtocol::RTMP(_) => NodeKind::RtmpSink,
        StreamingProtocol::SRT(_) => NodeKind::SrtSink,
        StreamingProtocol::HLS(_) => NodeKind::HlsSink,
    }
}

/// Where an HLS sink writes its numbered media segments.
pub open spec fn hls_segment_pattern(dir: Seq<char>) -> Seq<char> {
    dir + "/segment_%05d.ts"@
}

/// Where an HLS sink writes its playlist.
pub open spec fn hls_playlist_pattern(dir: Seq<char>) -> Seq<char> {
    dir + "/playlist.m3u8"@
}

/// The node kinds whose instantiation building a branch attempts, in
/// order: queue, then mux, then sink, stopping at the first failure.
pub open spec fn branch_attempted_kinds(p: StreamingProtocol, o: BranchOutcome) -> Seq<NodeKind> {
    if !o.queue_created {
        seq![NodeKind::Queue]
    } else if !o.mux_created {
        seq![NodeKind::Queue, mux_kind(p)]
    } else {
        seq![NodeKind::Queue, mux_kind(p), sink_kind(p)]
    }
}

/// All three branch nodes could be instantiated and the branch linked.
pub open spec fn branch_succeeds(o: BranchOutcome) -> bool {
    o.queue_created && o.mux_created && o.sink_created && o.link_ok
}

/// The property writes that configure a branch's sink for its destination:
/// the target location for RTMP, the target address for SRT, and the
/// segment and playlist locations for HLS.
pub open spec fn sink_writes_ok(w: Seq<NodePropWrite>, p: StreamingProtocol, sink: u64) -> bool {
    match p {
        StreamingProtocol::RTMP(loc) => {
            &&& w.len() == 1
            &&& w[0].node == sink
            &&& w[0].key == PropKey::Location
            &&& w[0].value matches PropValue::Text(s) && s@ == loc@
        },
        StreamingProtocol::SRT(loc) => {
            &&& w.len() == 1
            &&& w[0].node == sink
            &&& w[0].key == PropKey::Uri
            &&& w[0].value matches PropValue::Text(s) && s@ == loc@
        },
        StreamingProtocol::HLS(dir) => {
            &&& w.len() == 2
            &&& w[0].node == sink
            &&& w[0].key == PropKey::Location
            &&& w[0].value matches PropValue::Text(s) && s@ == hls_segment_pattern(dir@)
            &&& w[1].node == sink
            &&& w[1].key == PropKey::PlaylistLocation
            &&& w[1].value matches PropValue::Text(s) && s@ == hls_playlist_pattern(dir@)
        },
    }
}

/// The links added by feeding one upstream node into every branch whose
/// link attempt succeeded, in branch order.
pub open spec fn successful_links(
    outputs: Seq<StreamingOutput>,
    src: u64,
    outcomes: Seq<bool>,
) -> Seq<GraphLink>
    recommends
        outputs.len() == outcomes.len(),
    decreases outputs.len(),
{
    if outputs.len() == 0 {
        Seq::empty()
    } else {
        successful_links(outputs.drop_last(), src, outcomes.drop_last()) + (if outcomes.last() {
            seq![(GraphLink { from: src, to: outputs.last().queue })]
        } else {
            Seq::empty()
        })
    }
}

/// The muxer kind for a destination.
fn branch_mux_kind(p: &StreamingProtocol) -> (k: NodeKind)
    ensures
        k == mux_kind(*p),
{
    match p {
        StreamingProtocol::RTMP(_) => NodeKind::FlvMux,
        StreamingProtocol::SRT(_) => NodeKind::MpegTsMux,
        StreamingProtocol::HLS(_) => NodeKind::MpegTsMux,
    }
}

/// The sink kind for a destination.
fn branch_sink_kind(p: &StreamingProtocol) -> (k: NodeKind)
    ensures
        k == sink_kind(*p),
{
    match p {
        StreamingProtocol::RTMP(_) => NodeKind::RtmpSink,
        StreamingProtocol::SRT(_) => NodeKind::SrtSink,
        StreamingProtocol::HLS(_) => NodeKind::HlsSink,
    }
}

/// Builds the sink's configuration writes for a destination.
fn build_sink_writes(p: &StreamingProtocol, sink: u64) -> (w: Vec<NodePropWrite>)
    ensures
        sink_writes_ok(w@, *p, sink),
{
    let mut w: Vec<NodePropWrite> = Vec::new();
    match p {
        StreamingProtocol::RTMP(loc) => {
            w.push(
                NodePropWrite {
                    node: sink,
                    key: PropKey::Location,
                    value: PropValue::Text(loc.clone()),
                },
            );
        },
        StreamingProtocol::SRT(loc) => {
            w.push(
                NodePropWrite {
                    node: sink,
                    key: PropKey::Uri,
                    value: PropValue::Text(loc.clone()),
                },
            );
        },
        StreamingProtocol::HLS(dir) => {
            let segment = String::from_str(dir.as_str()).concat("/segment_%05d.ts");
            let playlist = String::from_str(dir.as_str()).concat("/playlist.m3u8");
            w.push(
                NodePropWrite {
                    node: sink,
                    key: PropKey::Location,
                    value: PropValue::Text(segment),
                },
            );
            w.push(
                NodePropWrite {
                    node: sink,
                    key: PropKey::PlaylistLocation,
                    value: PropValue::Text(playlist),
                },
            );
        },
    }
    w
}

impl MultiStreamingManager {
    /// The bitrate sits within its bounds and the tick snapshot never runs
    /// ahead of the byte counter.
    pub open spec fn wf(self) -> bool {
        &&& self.min_bitrate <= self.current_bitrate <= self.max_bitrate
        &&& self.bytes_at_last_check <= self.bytes_sent
    }

    /// Creates a manager with no outputs and the given initial and bounding
    /// bitrates, checking throughput every `DEFAULT_CHECK_INTERVAL_MS`
    /// milliseconds once adaptation is started.
    pub fn new(initial_bitrate: u32, min_bitrate: u32, max_bitrate: u32) -> (m:
        MultiStreamingManager)
        requires
            min_bitrate <= initial_bitrate <= max_bitrate,
        ensures
            m.wf(),
            m.outputs@ == Seq::<StreamingOutput>::empty(),
            m.current_bitrate == initial_bitrate,
            m.min_bitrate == min_bitrate,
            m.max_bitrate == max_bitrate,
            m.bytes_sent == 0,
            m.bytes_at_last_check == 0,
            m.last_check_ms == 0,
            m.check_interval_ms == DEFAULT_CHECK_INTERVAL_MS,
            !m.adaptive_running,
            m.adaptive_encoder == 0,
    {
        MultiStreamingManager {
            outputs: Vec::new(),
            current_bitrate: initial_bitrate,
            min_bitrate,
            max_bitrate,
            bytes_sent: 0,
            bytes_at_last_check: 0,
            last_check_ms: 0,
            check_interval_ms: DEFAULT_CHECK_INTERVAL_MS,
            adaptive_running: false,
            adaptive_encoder: 0,
        }
    }

    /// Adds a streaming destination as a new queue → mux → sink branch.
    ///
    /// The branch is all-or-nothing: if any of the three nodes cannot be
    /// instantiated the call fails with `ElementUnavailable`, and if the
    /// branch cannot be linked it fails with `LinkFailure`; in either case
    /// no node of the branch remains attached to the graph and the output
    /// list is untouched.  On success the branch is attached and linked,
    /// the output list grows by one, and the returned writes configure the
    /// sink for its destination.
    pub fn add_output(
        &mut self,
        graph: &mut GraphModel,
        protocol: StreamingProtocol,
        outcome: &BranchOutcome,
    ) -> (r: Result<Vec<NodePropWrite>, PipelineError>)
        requires
            old(self).wf(),
            old(graph).wf(),
            old(graph).next_id + 3 <= u64::MAX,
        ensures
            final(self).wf(),
            final(graph).wf(),
            r is Ok <==> branch_succeeds(*outcome),
            final(graph).create_attempts@ == old(graph).create_attempts@ + branch_attempted_kinds(
                protocol,
                *outcome,
            ),
            branch_succeeds(*outcome) ==> ({
                let base = old(graph).next_id;
                &&& (r matches Ok(w) ==> sink_writes_ok(w@, protocol, (base + 2) as u64))
                &&& final(graph).nodes@ == old(graph).nodes@ + seq![
                    (GraphNode { id: base, kind: NodeKind::Queue }),
                    (GraphNode { id: (base + 1) as u64, kind: mux_kind(protocol) }),
                    (GraphNode { id: (base + 2) as u64, kind: sink_kind(protocol) }),
                ]
                &&& final(graph).links@ == old(graph).links@ + seq![
                    (GraphLink { from: base, to: (base + 1) as u64 }),
                    (GraphLink { from: (base + 1) as u64, to: (base + 2) as u64 }),
                ]
                &&& final(graph).next_id == base + 3
                &&& final(self).outputs@ == old(self).outputs@.push(
                    StreamingOutput {
                        protocol,
                        queue: base,
                        mux: (base + 1) as u64,
                        sink: (base + 2) as u64,
                    },
                )
            }),
            !branch_succeeds(*outcome) ==> ({
                &&& (r matches Err(e) ==> e == (if outcome.queue_created && outcome.mux_created
                    && outcome.sink_created {
                    PipelineError::LinkFailure
                } else {
                    PipelineError::ElementUnavailable
                }))
                &&& final(graph).nodes@ == old(graph).nodes@
                &&& final(graph).links@ == old(graph).links@
                &&& final(graph).next_id == old(graph).next_id
                &&& final(self).outputs@ == old(self).outputs@
            }),
            final(self).current_bitrate == old(self).current_bitrate,
            final(self).min_bitrate == old(self).min_bitrate,
            final(self).max_bitrate == old(self).max_bitrate,
            final(self).bytes_sent == old(self).bytes_sent,
            final(self).bytes_at_last_check == old(self).bytes_at_last_check,
            final(self).last_check_ms == old(self).last_check_ms,
            final(self).check_interval_ms == old(self).check_interval_ms,
            final(self).adaptive_running == old(self).adaptive_running,
            final(self).adaptive_encoder == old(self).adaptive_encoder,
    {
        let mk = branch_mux_kind(&protocol);
        let sk = branch_sink_kind(&protocol);
        graph.note_attempt(NodeKind::Queue);
        if !outcome.queue_created {
            proof {
                assert(graph.create_attempts@ =~= old(graph).create_attempts@
                    + branch_attempted_kinds(protocol, *outcome));
            }
            return Err(PipelineError::ElementUnavailable);
        }
        graph.note_attempt(mk);
        if !outcome.mux_created {
            proof {
                assert(graph.create_attempts@ =~= old(graph).create_attempts@
                    + branch_attempted_kinds(protocol, *outcome));
            }
            return Err(PipelineError::ElementUnavailable);
        }
        graph.note_attempt(sk);
        proof {
            assert(graph.create_attempts@ =~= old(graph).create_attempts@ + branch_attempted_kinds(
                protocol,
                *outcome,
            ));
        }
        if !outcome.sink_created {
            return Err(PipelineError::ElementUnavailable);
        }
        if !outcome.link_ok {
            return Err(PipelineError::LinkFailure);
        }
        let queue = graph.add_node(NodeKind::Queue);
        let mux = graph.add_node(mk);
        let sink = graph.add_node(sk);
        graph.add_link(queue, mux);
        graph.add_link(mux, sink);
        let w = build_sink_writes(&protocol, sink);
        self.outputs.push(StreamingOutput { protocol, queue, mux, sink });
        proof {
            assert(graph.nodes@ =~= old(graph).nodes@ + seq![
                (GraphNode { id: old(graph).next_id, kind: NodeKind::Queue }),
                (GraphNode { id: (old(graph).next_id + 1) as u64, kind: mk }),
                (GraphNode { id: (old(graph).next_id + 2) as u64, kind: sk }),
            ]);
            assert(graph.links@ =~= old(graph).links@ + seq![
                (GraphLink { from: old(graph).next_id, to: (old(graph).next_id + 1) as u64 }),
                (GraphLink {
                    from: (old(graph).next_id + 1) as u64,
                    to: (old(graph).next_id + 2) as u64,
                }),
            ]);
        }
        Ok(w)
    }

    /// Links one upstream node's output to every existing branch's queue
    /// input.
    ///
    /// Linking is best effort and failures are aggregated: every branch is
    /// attempted, each branch whose link succeeds stays linked (nothing is
    /// rolled back), and the call reports `LinkFailure` when any branch
    /// failed.  `outcomes` carries the engine's verdict per branch, in
    /// branch order.
    pub fn link_input(
        &self,
        graph: &mut GraphModel,
        src_element: u64,
        outcomes: &Vec<bool>,
    ) -> (r: Result<(), PipelineError>)
        requires
            old(graph).wf(),
            outcomes@.len() == self.outputs@.len(),
        ensures
            final(graph).wf(),
            final(graph).links@ == old(graph).links@ + successful_links(
                self.outputs@,
                src_element,
                outcomes@,
            ),
            final(graph).nodes@ == old(graph).nodes@,
            final(graph).create_attempts@ == old(graph).create_attempts@,
            final(graph).next_id == old(graph).next_id,
            r is Ok <==> (forall|i: int| 0 <= i < outcomes@.len() ==> outcomes@[i]),
            r matches Err(e) ==> e == PipelineError::LinkFailure,
    {
        let mut i: usize = 0;
        let mut all_ok = true;
        let n = self.outputs.len();
        while i < n
            invariant
                n == self.outputs@.len(),
                outcomes@.len() == n,
                i <= n,
                graph.wf(),
                graph.links@ == old(graph).links@ + successful_links(
                    self.outputs@.take(i as int),
                    src_element,
                    outcomes@.take(i as int),
                ),
                graph.nodes@ == old(graph).nodes@,
                graph.create_attempts@ == old(graph).create_attempts@,
                graph.next_id == old(graph).next_id,
                all_ok <==> (forall|j: int| 0 <= j < i ==> outcomes@[j]),
            decreases n - i,
        {
            if outcomes[i] {
                graph.add_link(src_element, self.outputs[i].queue);
            } else {
                all_ok = false;
            }
            proof {
                assert(self.outputs@.take(i + 1).drop_last() =~= self.outputs@.take(i as int));
                assert(outcomes@.take(i + 1).drop_last() =~= outcomes@.take(i as int));
                assert(self.outputs@.take(i + 1).last() == self.outputs@[i as int]);
                assert(outcomes@.take(i + 1).last() == outcomes@[i as int]);
                assert(graph.links@ =~= old(graph).links@ + successful_links(
                    self.outputs@.take(i + 1),
                    src_element,
                    outcomes@.take(i + 1),
                ));
            }
            i = i + 1;
        }
        proof {
            assert(self.outputs@.take(n as int) =~= self.outputs@);
            assert(outcomes@.take(n as int) =~= outcomes@);
        }
        if all_ok {
            Ok(())
        } else {
            Err(PipelineError::LinkFailure)
        }
    }

    /// Arms the adaptive-bitrate loop: the embedder should call
    /// [`MultiStreamingManager::bitrate_tick`] every `check_interval_ms`
    /// milliseconds from now on.  The byte counter and clock are snapshotted
    /// so the first tick measures only what follows.
    pub fn start_adaptive_bitrate(&mut self, encoder: u64, now_ms: u64) -> (r: Result<
        (),
        PipelineError,
    >)
        requires
            old(self).wf(),
        ensures
            final(self).wf(),
            r is Ok,
            final(self).adaptive_running,
            final(self).adaptive_encoder == encoder,
            final(self).last_check_ms == now_ms,
            final(self).bytes_at_last_check == old(self).bytes_sent,
            final(self).bytes_sent == old(self).bytes_sent,
            final(self).current_bitrate == old(self).current_bitrate,
            final(self).min_bitrate == old(self).min_bitrate,
            final(self).max_bitrate == old(self).max_bitrate,
            final(self).check_interval_ms == old(self).check_interval_ms,
            final(self).outputs@ == old(self).outputs@,
    {
        self.adaptive_running = true;
        self.adaptive_encoder = encoder;
        self.last_check_ms = now_ms;
        self.bytes_at_last_check = self.bytes_sent;
        Ok(())
    }

    /// Runs one adaptation tick at the given time.
    ///
    /// The tick measures the throughput since the last tick and retunes the
    /// bitrate: one step up (clamped to the maximum) when throughput is
    /// below `RAISE_BELOW_PERCENT` percent of the current bitrate, one step
    /// down (clamped to the minimum) when above `LOWER_ABOVE_PERCENT`
    /// percent, unchanged in between.  The returned write, when present,
    /// pushes the new bitrate to the encoder's bitrate property.  Bytes and
    /// clock are snapshotted for the next tick whichever branch was taken.
    pub fn bitrate_tick(&mut self, now_ms: u64) -> (act: Option<NodePropWrite>)
        requires
            old(self).wf(),
            old(self).adaptive_running,
            now_ms > old(self).last_check_ms,
        ensures
            final(self).wf(),
            ({
                let t = throughput_kbps(
                    old(self).bytes_sent - old(self).bytes_at_last_check,
                    now_ms - old(self).last_check_ms,
                );
                &&& final(self).current_bitrate == next_bitrate(
                    old(self).current_bitrate,
                    old(self).min_bitrate,
                    old(self).max_bitrate,
                    t,
                )
                &&& (bitrate_action(
                    old(self).current_bitrate,
                    old(self).min_bitrate,
                    old(self).max_bitrate,
                    t,
                ) matches Some(b) ==> act == Some(
                    NodePropWrite {
                        node: old(self).adaptive_encoder,
                        key: PropKey::Bitrate,
                        value: PropValue::Uint(b),
                    },
                ))
                &&& (bitrate_action(
                    old(self).current_bitrate,
                    old(self).min_bitrate,
                    old(self).max_bitrate,
                    t,
                ) is None ==> act is None)
            }),
            final(self).last_check_ms == now_ms,
            final(self).bytes_at_last_check == old(self).bytes_sent,
            final(self).bytes_sent == old(self).bytes_sent,
            final(self).min_bitrate == old(self).min_bitrate,
            final(self).max_bitrate == old(self).max_bitrate,
            final(self).check_interval_ms == old(self).check_interval_ms,
            final(self).adaptive_running == old(self).adaptive_running,
            final(self).adaptive_encoder == old(self).adaptive_encoder,
            final(self).outputs@ == old(self).outputs@,
    {
        let delta: u64 = self.bytes_sent - self.bytes_at_last_check;
        let elapsed: u64 = now_ms - self.last_check_ms;
        let t: u128 = ((delta as u128) * 8000) / (1024 * (elapsed as u128));
        proof {
            vstd::arithmetic::div_mod::lemma_div_is_ordered_by_denominator(
                delta * 8000,
                1024,
                1024 * (elapsed as int),
            );
            assert(t <= delta * 8000 / 1024);
        }
        let current = self.current_bitrate;
        let act: Option<NodePropWrite>;
        proof {
            assert(RAISE_BELOW_PERCENT == 70 && LOWER_ABOVE_PERCENT == 95);
        }
        if t * 100 < (current as u128) * 70 {
            let next = if self.max_bitrate - current >= BITRATE_STEP_KBPS {
                current + BITRATE_STEP_KBPS
            } else {
                self.max_bitrate
            };
            self.current_bitrate = next;
            act = Some(
                NodePropWrite {
                    node: self.adaptive_encoder,
                    key: PropKey::Bitrate,
                    value: PropValue::Uint(next),
                },
            );
        } else if t * 100 > (current as u128) * 95 {
            let next = if current >= BITRATE_STEP_KBPS && current - BITRATE_STEP_KBPS
                >= self.min_bitrate {
                current - BITRATE_STEP_KBPS
            } else {
                self.min_bitrate
            };
            self.current_bitrate = next;
            act = Some(
                NodePropWrite {
                    node: self.adaptive_encoder,
                    key: PropKey::Bitrate,
                    value: PropValue::Uint(next),
                },
            );
        } else {
            act = None;
        }
        self.last_check_ms = now_ms;
        self.bytes_at_last_check = self.bytes_sent;
        act
    }

    /// Records payload bytes confirmed sent, saturating at the counter's
    /// maximum.  The embedder calls this from its send path.
    pub fn record_bytes_sent(&mut self, count: usize)
        requires
            old(self).wf(),
        ensures
            final(self).wf(),
            final(self).bytes_sent == (if old(self).bytes_sent + count <= u64::MAX {
                old(self).bytes_sent + count
            } else {
                u64::MAX as int
            }),
            final(self).bytes_at_last_check == old(self).bytes_at_last_check,
            final(self).current_bitrate == old(self).current_bitrate,
            final(self).min_bitrate == old(self).min_bitrate,
            final(self).max_bitrate == old(self).max_bitrate,
            final(self).last_check_ms == old(self).last_check_ms,
            final(self).check_interval_ms == old(self).check_interval_ms,
            final(self).adaptive_running == old(self).adaptive_running,
            final(self).adaptive_encoder == old(self).adaptive_encoder,
            final(self).outputs@ == old(self).outputs@,
    {
        let count64 = count as u64;
        if count64 <= u64::MAX - self.bytes_sent {
            self.bytes_sent = self.bytes_sent + count64;
        } else {
            self.bytes_sent = u64::MAX;
        }
    }
}

} // verus!
