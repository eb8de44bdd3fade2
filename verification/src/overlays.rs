use vstd::prelude::*;

use crate::error::PipelineError;
use crate::graph::{GraphLink, GraphModel, GraphNode, NodeKind, NodePropWrite, PropKey, PropValue};

verus! {

/// One overlay the manager placed: the element name it was created under
/// and its node in the media graph.
#[derive(Clone, Debug, PartialEq, Eq)]
pub struct OverlayRecord {
    pub name: String,
    pub node: u64,
}

/// The engine's verdict on placing one overlay: whether the overlay node
/// could be instantiated, and whether both links upstream → overlay →
/// downstream then succeeded.
#[derive(Clone, Copy, Debug, PartialEq, Eq, Structural)]
pub struct OverlayOutcome {
    pub created: bool,
    pub linked: bool,
}

/// Places text and image overlays into the video chain and rotates the
/// message of a chosen text overlay on a timer.
///
/// The embedder drives the rotation by calling
/// [`OverlayManager::rotation_tick`] every
/// [`OverlayManager::rotation_interval_ms`] milliseconds once rotation has
/// been started; each tick hands back the message to write to the overlay's
/// text property.
pub struct OverlayManager {
    pub text_overlays: Vec<OverlayRecord>,
    pub image_overlays: Vec<OverlayRecord>,
    /// Messages rotated through the chosen text overlay, in order.
    pub rotating_msgs: Vec<String>,
    /// Index of the message the next tick will show.
    pub current_msg_index: usize,
    /// Spacing of rotation ticks, in milliseconds; meaningful once rotation
    /// has been started.
    pub rotation_interval_ms: u64,
}

/// The writes that configure a freshly placed text overlay: its message,
/// font and colour, pinned to the top-left, at the given position.
pub open spec fn text_overlay_writes_ok(
    w: Seq<NodePropWrite>,
    node: u64,
    message: Seq<char>,
    font_desc: Seq<char>,
    color: Seq<char>,
    x: i32,
    y: i32,
) -> bool {
    &&& w.len() == 7
    &&& w[0].node == node
    &&& w[0].key == PropKey::Text
    &&& w[0].value matches PropValue::Text(s) && s@ == message
    &&& w[1].node == node
    &&& w[1].key == PropKey::FontDesc
    &&& w[1].value matches PropValue::Text(s) && s@ == font_desc
    &&& w[2].node == node
    &&& w[2].key == PropKey::Color
    &&& w[2].value matches PropValue::Text(s) && s@ == color
    &&& w[3].node == node
    &&& w[3].key == PropKey::Valignment
    &&& w[3].value matches PropValue::Text(s) && s@ == "top"@
    &&& w[4].node == node
    &&& w[4].key == PropKey::Halignment
    &&& w[4].value matches PropValue::Text(s) && s@ == "left"@
    &&& w[5] == (NodePropWrite { node, key: PropKey::Xpos, value: PropValue::Int(x) })
    &&& w[6] == (NodePropWrite { node, key: PropKey::Ypos, value: PropValue::Int(y) })
}

/// The writes that configure a freshly placed image overlay: the image file
/// it renders and its offset.
pub open spec fn image_overlay_writes_ok(
    w: Seq<NodePropWrite>,
    node: u64,
    image_path: Seq<char>,
    x: i32,
    y: i32,
) -> bool {
    &&& w.len() == 3
    &&& w[0].node == node
    &&& w[0].key == PropKey::Location
    &&& w[0].value matches PropValue::Text(s) && s@ == image_path
    &&& w[1] == (NodePropWrite { node, key: PropKey::OffsetX, value: PropValue::Int(x) })
    &&& w[2] == (NodePropWrite { node, key: PropKey::OffsetY, value: PropValue::Int(y) })
}

/// Index of the first overlay record carrying the given name, or `-1` if
/// none does.
pub open spec fn find_overlay(records: Seq<OverlayRecord>, name: Seq<char>) -> int
    decreases records.len(),
{
    if records.len() == 0 {
        -1
    } else if records[0].name@ == name {
        0
    } else {
        let rest = find_overlay(records.drop_first(), name);
        if rest < 0 {
            -1
        } else {
            rest + 1
        }
    }
}

/// `find_overlay` returns the first matching index: if no index below `i`
/// matches and `i` does, the result is `i`; if nothing matches at all, the
/// result is `-1`.
proof fn lemma_find_overlay_first(records: Seq<OverlayRecord>, name: Seq<char>, i: int)
    requires
        0 <= i <= records.len(),
        forall|j: int| 0 <= j < i ==> (#[trigger] records[j]).name@ != name,
        i < records.len() ==> records[i].name@ == name,
    ensures
        i < records.len() ==> find_overlay(records, name) == i,
        i == records.len() ==> find_overlay(records, name) == -1,
    decreases records.len(),
{
    if records.len() == 0 {
    } else if records[0].name@ == name {
        assert(i == 0);
    } else {
        let rest = records.drop_first();
        assert(forall|j: int| 0 <= j < i - 1 ==> (#[trigger] rest[j]).name@ != name);
        assert(i - 1 < rest.len() ==> rest[i - 1] == records[i]);
        lemma_find_overlay_first(rest, name, i - 1);
    }
}

impl OverlayManager {
    /// Once any rotating message exists the rotation index points at one.
    pub open spec fn wf(self) -> bool {
        &&& (self.rotating_msgs@.len() > 0 ==> self.current_msg_index < self.rotating_msgs@.len())
        &&& (self.rotating_msgs@.len() == 0 ==> self.current_msg_index == 0)
    }

    /// Creates a manager with no overlays and no rotating messages.
    pub fn new() -> (m: OverlayManager)
        ensures
            m.wf(),
            m.text_overlays@ == Seq::<OverlayRecord>::empty(),
            m.image_overlays@ == Seq::<OverlayRecord>::empty(),
            m.rotating_msgs@ == Seq::<String>::empty(),
            m.current_msg_index == 0,
            m.rotation_interval_ms == 0,
    {
        OverlayManager {
            text_overlays: Vec::new(),
            image_overlays: Vec::new(),
            rotating_msgs: Vec::new(),
            current_msg_index: 0,
            rotation_interval_ms: 0,
        }
    }

    /// Places a text overlay into the chain upstream → overlay →
    /// downstream.
    ///
    /// When the overlay node cannot be instantiated the call fails with
    /// `ElementUnavailable` and nothing changes.  When it instantiates but
    /// the links fail, the call fails with `LinkFailure`: the node stays
    /// attached but unlinked and is not recorded as an overlay.  On success
    /// the returned writes configure the overlay's message, font, colour,
    /// alignment and position.
    pub fn add_text_overlay(
        &mut self,
        graph: &mut GraphModel,
        name: String,
        message: &str,
        x: i32,
        y: i32,
        font_desc: &str,
        color: &str,
        upstream: u64,
        downstream: u64,
        outcome: &OverlayOutcome,
    ) -> (r: Result<Vec<NodePropWrite>, PipelineError>)
        requires
            old(self).wf(),
            old(graph).wf(),
            old(graph).next_id < u64::MAX,
        ensures
            final(self).wf(),
            final(graph).wf(),
            r is Ok <==> outcome.created && outcome.linked,
            final(graph).create_attempts@ == old(graph).create_attempts@.push(
                NodeKind::TextOverlay,
            ),
            !outcome.created ==> (r matches Err(e) && e == PipelineError::ElementUnavailable)
                && final(graph).nodes@ == old(graph).nodes@ && final(graph).next_id == old(graph).next_id,
            outcome.created ==> final(graph).nodes@ == old(graph).nodes@.push(
                GraphNode { id: old(graph).next_id, kind: NodeKind::TextOverlay },
            ) && final(graph).next_id == old(graph).next_id + 1,
            outcome.created && !outcome.linked ==> (r matches Err(e) && e
                == PipelineError::LinkFailure),
            outcome.created && outcome.linked ==> final(graph).links@ == old(graph).links@.push(
                GraphLink { from: upstream, to: old(graph).next_id },
            ).push(GraphLink { from: old(graph).next_id, to: downstream }) && final(self).text_overlays@ == old(self).text_overlays@.push(
                OverlayRecord { name, node: old(graph).next_id },
            ) && (r matches Ok(w) ==> text_overlay_writes_ok(
                w@,
                old(graph).next_id,
                message@,
                font_desc@,
                color@,
                x,
                y,
            )),
            !(outcome.created && outcome.linked) ==> final(graph).links@ == old(graph).links@
                && final(self).text_overlays@ == old(self).text_overlays@,
            final(self).image_overlays@ == old(self).image_overlays@,
            final(self).rotating_msgs@ == old(self).rotating_msgs@,
            final(self).current_msg_index == old(self).current_msg_index,
            final(self).rotation_interval_ms == old(self).rotation_interval_ms,
    {
        let created = graph.try_create(NodeKind::TextOverlay, outcome.created);
        let node = match created {
            None => {
                return Err(PipelineError::ElementUnavailable);
            },
            Some(id) => id,
        };
        if !outcome.linked {
            return Err(PipelineError::LinkFailure);
        }
        graph.add_link(upstream, node);
        graph.add_link(node, downstream);
        let mut w: Vec<NodePropWrite> = Vec::new();
        w.push(
            NodePropWrite {
                node,
                key: PropKey::Text,
                value: PropValue::Text(String::from_str(message)),
            },
        );
        w.push(
            NodePropWrite {
                node,
                key: PropKey::FontDesc,
                value: PropValue::Text(String::from_str(font_desc)),
            },
        );
        w.push(
            NodePropWrite {
                node,
                key: PropKey::Color,
                value: PropValue::Text(String::from_str(color)),
            },
        );
        w.push(
            NodePropWrite {
                node,
                key: PropKey::Valignment,
                value: PropValue::Text(String::from_str("top")),
            },
        );
        w.push(
            NodePropWrite {
                node,
                key: PropKey::Halignment,
                value: PropValue::Text(String::from_str("left")),
            },
        );
        w.push(NodePropWrite { node, key: PropKey::Xpos, value: PropValue::Int(x) });
        w.push(NodePropWrite { node, key: PropKey::Ypos, value: PropValue::Int(y) });
        self.text_overlays.push(OverlayRecord { name, node });
        Ok(w)
    }

    /// Places an image overlay (a watermark) into the chain upstream →
    /// overlay → downstream, with the same failure behaviour as
    /// [`OverlayManager::add_text_overlay`].  On success the returned
    /// writes configure the image location and offset.
    pub fn add_image_overlay(
        &mut self,
        graph: &mut GraphModel,
        name: String,
        image_path: &str,
        x: i32,
        y: i32,
        upstream: u64,
        downstream: u64,
        outcome: &OverlayOutcome,
    ) -> (r: Result<Vec<NodePropWrite>, PipelineError>)
        requires
            old(self).wf(),
            old(graph).wf(),
            old(graph).next_id < u64::MAX,
        ensures
            final(self).wf(),
            final(graph).wf(),
            r is Ok <==> outcome.created && outcome.linked,
            final(graph).create_attempts@ == old(graph).create_attempts@.push(
                NodeKind::ImageOverlay,
            ),
            !outcome.created ==> (r matches Err(e) && e == PipelineError::ElementUnavailable)
                && final(graph).nodes@ == old(graph).nodes@ && final(graph).next_id == old(graph).next_id,
            outcome.created ==> final(graph).nodes@ == old(graph).nodes@.push(
                GraphNode { id: old(graph).next_id, kind: NodeKind::ImageOverlay },
            ) && final(graph).next_id == old(graph).next_id + 1,
            outcome.created && !outcome.linked ==> (r matches Err(e) && e
                == PipelineError::LinkFailure),
            outcome.created && outcome.linked ==> final(graph).links@ == old(graph).links@.push(
                GraphLink { from: upstream, to: old(graph).next_id },
            ).push(GraphLink { from: old(graph).next_id, to: downstream }) && final(self).image_overlays@ == old(self).image_overlays@.push(
                OverlayRecord { name, node: old(graph).next_id },
            ) && (r matches Ok(w) ==> image_overlay_writes_ok(
                w@,
                old(graph).next_id,
                image_path@,
                x,
                y,
            )),
            !(outcome.created && outcome.linked) ==> final(graph).links@ == old(graph).links@
                && final(self).image_overlays@ == old(self).image_overlays@,
            final(self).text_overlays@ == old(self).text_overlays@,
            final(self).rotating_msgs@ == old(self).rotating_msgs@,
            final(self).current_msg_index == old(self).current_msg_index,
            final(self).rotation_interval_ms == old(self).rotation_interval_ms,
    {
        let created = graph.try_create(NodeKind::ImageOverlay, outcome.created);
        let node = match created {
            None => {
                return Err(PipelineError::ElementUnavailable);
            },
            Some(id) => id,
        };
        if !outcome.linked {
            return Err(PipelineError::LinkFailure);
        }
        graph.add_link(upstream, node);
        graph.add_link(node, downstream);
        let mut w: Vec<NodePropWrite> = Vec::new();
        w.push(
            NodePropWrite {
                node,
                key: PropKey::Location,
                value: PropValue::Text(String::from_str(image_path)),
            },
        );
        w.push(NodePropWrite { node, key: PropKey::OffsetX, value: PropValue::Int(x) });
        w.push(NodePropWrite { node, key: PropKey::OffsetY, value: PropValue::Int(y) });
        self.image_overlays.push(OverlayRecord { name, node });
        Ok(w)
    }

    /// Starts rotating the given messages on the named text overlay.
    ///
    /// An empty message list fails with `IndexOutOfRange` (no rotation
    /// index would be valid); a name under which no text overlay was placed
    /// fails with `NotFound`.  Otherwise the messages replace any previous
    /// rotation; the rotation position is kept where the new list is long
    /// enough and starts over otherwise.  The embedder then calls
    /// [`OverlayManager::rotation_tick`] every `interval_ms` milliseconds.
    pub fn start_rotating_messages(
        &mut self,
        textoverlay_name: &str,
        messages: Vec<String>,
        interval_ms: u64,
    ) -> (r: Result<u64, PipelineError>)
        requires
            old(self).wf(),
        ensures
            final(self).wf(),
            r is Ok <==> messages@.len() > 0 && find_overlay(
                old(self).text_overlays@,
                textoverlay_name@,
            ) >= 0,
            messages@.len() == 0 ==> (r matches Err(e) && e == PipelineError::IndexOutOfRange),
            messages@.len() > 0 && find_overlay(old(self).text_overlays@, textoverlay_name@) < 0
                ==> (r matches Err(e) && e == PipelineError::NotFound),
            r matches Err(e) ==> *final(self) == *old(self),
            r matches Ok(node) ==> {
                let k = find_overlay(old(self).text_overlays@, textoverlay_name@);
                &&& node == old(self).text_overlays@[k].node
                &&& final(self).rotating_msgs@ == messages@
                &&& final(self).current_msg_index == (if old(self).current_msg_index
                    < messages@.len() {
                    old(self).current_msg_index as int
                } else {
                    0
                })
                &&& final(self).rotation_interval_ms == interval_ms
            },
            final(self).text_overlays@ == old(self).text_overlays@,
            final(self).image_overlays@ == old(self).image_overlays@,
    {
        if messages.len() == 0 {
            return Err(PipelineError::IndexOutOfRange);
        }
        let wanted = String::from_str(textoverlay_name);
        let n = self.text_overlays.len();
        let mut k: usize = 0;
        while k < n && !(self.text_overlays[k].name == wanted)
            invariant
                n == self.text_overlays@.len(),
                k <= n,
                wanted@ == textoverlay_name@,
                forall|j: int|
                    0 <= j < k ==> (#[trigger] self.text_overlays@[j]).name@ != textoverlay_name@,
            decreases n - k,
        {
            k = k + 1;
        }
        proof {
            lemma_find_overlay_first(self.text_overlays@, textoverlay_name@, k as int);
        }
        if k == n {
            return Err(PipelineError::NotFound);
        }
        let node = self.text_overlays[k].node;
        if self.current_msg_index >= messages.len() {
            self.current_msg_index = 0;
        }
        self.rotating_msgs = messages;
        self.rotation_interval_ms = interval_ms;
        Ok(node)
    }

    /// Hands back the message the embedder should now write to the rotated
    /// overlay's text property, and advances the rotation, wrapping at the
    /// end of the list.  With no messages stored nothing is shown and
    /// nothing changes.
    pub fn rotation_tick(&mut self) -> (r: Option<String>)
        requires
            old(self).wf(),
        ensures
            final(self).wf(),
            old(self).rotating_msgs@.len() == 0 ==> r is None && *final(self) == *old(self),
            old(self).rotating_msgs@.len() > 0 ==> (r matches Some(m) && m@ == old(self).rotating_msgs@[old(self).current_msg_index as int]@) && final(self).current_msg_index
                == (old(self).current_msg_index + 1) % (old(self).rotating_msgs@.len() as int) && final(self).rotating_msgs@ == old(self).rotating_msgs@,
            final(self).text_overlays@ == old(self).text_overlays@,
            final(self).image_overlays@ == old(self).image_overlays@,
            final(self).rotation_interval_ms == old(self).rotation_interval_ms,
    {
        let n = self.rotating_msgs.len();
        if n == 0 {
            return None;
        }
        let message = self.rotating_msgs[self.current_msg_index].clone();
        self.current_msg_index = (self.current_msg_index + 1) % n;
        Some(message)
    }
}

} // verus!
