use vstd::prelude::*;

verus! {

/// The kinds of processing nodes the control layer creates in the media
/// graph.
#[derive(Clone, Copy, Debug, PartialEq, Eq, Structural)]
pub enum NodeKind {
    /// Blends several video inputs into one frame via per-input pads.
    Compositor,
    /// Decouples one branch of the graph from another.
    Queue,
    /// Muxer for RTMP destinations.
    FlvMux,
    /// Muxer for SRT and HLS destinations.
    MpegTsMux,
    /// Network sink for RTMP destinations.
    RtmpSink,
    /// Network sink for SRT destinations.
    SrtSink,
    /// Segmenting sink for HLS destinations.
    HlsSink,
    /// VAAPI hardware video encoder.
    VaapiH264Enc,
    /// NVENC hardware video encoder.
    NvH264Enc,
    /// AMF hardware video encoder.
    AmfH264Enc,
    /// Software video encoder.
    X264Enc,
    /// Renders a text overlay onto the video.
    TextOverlay,
    /// Renders an image overlay onto the video.
    ImageOverlay,
    /// A node created by the embedder (a capture source, a preview sink).
    External,
}

/// One node attached to the media graph.
#[derive(Clone, Copy, Debug, PartialEq, Eq, Structural)]
pub struct GraphNode {
    pub id: u64,
    pub kind: NodeKind,
}

/// A directed link from the output of one node to the input of another.
#[derive(Clone, Copy, Debug, PartialEq, Eq, Structural)]
pub struct GraphLink {
    pub from: u64,
    pub to: u64,
}

/// Keys of node properties the control layer writes.
#[derive(Clone, Copy, Debug, PartialEq, Eq, Structural)]
pub enum PropKey {
    /// Target location of a sink (an RTMP address, an HLS segment pattern,
    /// an overlay image path).
    Location,
    /// Playlist location of an HLS sink.
    PlaylistLocation,
    /// Target address of an SRT sink.
    Uri,
    /// Message shown by a text overlay.
    Text,
    /// Font description of a text overlay.
    FontDesc,
    /// Colour of a text overlay.
    Color,
    /// Vertical alignment of a text overlay.
    Valignment,
    /// Horizontal alignment of a text overlay.
    Halignment,
    /// Horizontal position of an overlay.
    Xpos,
    /// Vertical position of an overlay.
    Ypos,
    /// Horizontal offset of an image overlay.
    OffsetX,
    /// Vertical offset of an image overlay.
    OffsetY,
    /// Target bitrate of an encoder, in kbit/s.
    Bitrate,
}

/// A value written to a node property.
#[derive(Clone, Debug, PartialEq, Eq)]
pub enum PropValue {
    Int(i32),
    Uint(u32),
    Text(String),
}

/// One property write on a node of the media graph, for the embedder to
/// perform.
#[derive(Clone, Debug, PartialEq, Eq)]
pub struct NodePropWrite {
    pub node: u64,
    pub key: PropKey,
    pub value: PropValue,
}

/// Mirror of the externally managed media graph: which nodes are attached,
/// how they are linked, and which node instantiations have been attempted.
///
/// The embedder owns the real graph; it reports whether each instantiation
/// and link succeeded, and this model records the resulting structure.  Node
/// identifiers are handles allocated by the model, never reused.
pub struct GraphModel {
    pub nodes: Vec<GraphNode>,
    pub links: Vec<GraphLink>,
    pub create_attempts: Vec<NodeKind>,
    pub next_id: u64,
}

impl GraphModel {
    /// Every attached node carries an identifier below the allocation
    /// cursor, and no identifier is attached twice.
    pub open spec fn wf(self) -> bool {
        &&& forall|i: int|
            0 <= i < self.nodes@.len() ==> (#[trigger] self.nodes@[i]).id < self.next_id
        &&& forall|i: int, j: int|
            0 <= i < j < self.nodes@.len() ==> (#[trigger] self.nodes@[i]).id != (
            #[trigger] self.nodes@[j]).id
    }

    pub fn new() -> (g: GraphModel)
        ensures
            g.nodes@ == Seq::<GraphNode>::empty(),
            g.links@ == Seq::<GraphLink>::empty(),
            g.create_attempts@ == Seq::<NodeKind>::empty(),
            g.next_id == 0,
            g.wf(),
    {
        GraphModel { nodes: Vec::new(), links: Vec::new(), create_attempts: Vec::new(), next_id: 0 }
    }

    /// Attaches a node that is known to exist, without recording an
    /// instantiation attempt — used for nodes the embedder created itself
    /// (capture sources, the compositor, preview sinks).
    pub fn add_node(&mut self, kind: NodeKind) -> (id: u64)
        requires
            old(self).wf(),
            old(self).next_id < u64::MAX,
        ensures
            final(self).wf(),
            id == old(self).next_id,
            final(self).nodes@ == old(self).nodes@.push(GraphNode { id, kind }),
            final(self).next_id == old(self).next_id + 1,
            final(self).links@ == old(self).links@,
            final(self).create_attempts@ == old(self).create_attempts@,
    {
        let id = self.next_id;
        self.nodes.push(GraphNode { id, kind });
        self.next_id = self.next_id + 1;
        id
    }

    /// Records an attempt to instantiate a node of the given kind; on
    /// success (as reported by the embedder) the node is attached.
    pub fn try_create(&mut self, kind: NodeKind, created: bool) -> (r: Option<u64>)
        requires
            old(self).wf(),
            old(self).next_id < u64::MAX,
        ensures
            final(self).wf(),
            final(self).create_attempts@ == old(self).create_attempts@.push(kind),
            final(self).links@ == old(self).links@,
            created ==> r == Some(old(self).next_id) && final(self).nodes@ == old(self).nodes@.push(GraphNode { id: old(self).next_id, kind }) && final(self).next_id == old(self).next_id + 1,
            !created ==> r is None && final(self).nodes@ == old(self).nodes@ && final(self).next_id == old(self).next_id,
    {
        self.create_attempts.push(kind);
        if created {
            let id = self.next_id;
            self.nodes.push(GraphNode { id, kind });
            self.next_id = self.next_id + 1;
            Some(id)
        } else {
            None
        }
    }

    /// Records an instantiation attempt without attaching anything — used
    /// when a node is created detached and only attached (or discarded)
    /// later, once its whole branch is known to be buildable.
    pub fn note_attempt(&mut self, kind: NodeKind)
        requires
            old(self).wf(),
        ensures
            final(self).wf(),
            final(self).create_attempts@ == old(self).create_attempts@.push(kind),
            final(self).nodes@ == old(self).nodes@,
            final(self).links@ == old(self).links@,
            final(self).next_id == old(self).next_id,
    {
        self.create_attempts.push(kind);
    }

    /// Detaches the most recently attached node — the rollback step after a
    /// failed link, before any link to the node was recorded.
    pub fn pop_node(&mut self)
        requires
            old(self).wf(),
            old(self).nodes@.len() > 0,
        ensures
            final(self).wf(),
            final(self).nodes@ == old(self).nodes@.drop_last(),
            final(self).links@ == old(self).links@,
            final(self).create_attempts@ == old(self).create_attempts@,
            final(self).next_id == old(self).next_id,
    {
        self.nodes.pop();
    }

    /// Records a link from the output of `from` to the input of `to`.
    pub fn add_link(&mut self, from: u64, to: u64)
        requires
            old(self).wf(),
        ensures
            final(self).wf(),
            final(self).links@ == old(self).links@.push(GraphLink { from, to }),
            final(self).nodes@ == old(self).nodes@,
            final(self).create_attempts@ == old(self).create_attempts@,
            final(self).next_id == old(self).next_id,
    {
        self.links.push(GraphLink { from, to });
    }
}

} // verus!
