use vstd::prelude::*;

verus! {

/// One node reported by the sound server registry, reduced to the
/// properties the device helpers read.
#[derive(Clone, Debug, PartialEq, Eq)]
pub struct RegistryNode {
    pub id: u32,
    /// The node's media class property; empty when the node carries none.
    pub media_class: String,
    /// The node's name property, when it carries one.
    pub name: Option<String>,
    /// The node's description property, when it carries one.
    pub description: Option<String>,
}

/// Whether a registry node is an audio capture source (plain or virtual).
pub open spec fn is_audio_source(n: RegistryNode) -> bool {
    n.media_class@ == "Audio/Source"@ || n.media_class@ == "Audio/Source/Virtual"@
}

/// The registry nodes that are audio capture sources, in registry order.
pub open spec fn audio_sources_of(nodes: Seq<RegistryNode>) -> Seq<RegistryNode>
    decreases nodes.len(),
{
    if nodes.len() == 0 {
        Seq::empty()
    } else {
        audio_sources_of(nodes.drop_last()) + (if is_audio_source(nodes.last()) {
            seq![nodes.last()]
        } else {
            Seq::empty()
        })
    }
}

/// The listing entry of one audio source: its identifier, its name (or a
/// placeholder when the node carries none), and its description (likewise).
pub open spec fn source_entry_ok(e: (u32, String, String), n: RegistryNode) -> bool {
    &&& e.0 == n.id
    &&& e.1@ == (match n.name {
        Some(s) => s@,
        None => "Unknown"@,
    })
    &&& e.2@ == (match n.description {
        Some(s) => s@,
        None => "No description"@,
    })
}

/// Lists the audio capture sources among the given registry nodes, in
/// registry order: one `(identifier, name, description)` entry per node
/// whose media class marks it as an audio source, with placeholders for a
/// missing name or description.  The embedder collects the registry
/// snapshot from the sound server and hands it in.
pub fn get_audio_sources(nodes: &Vec<RegistryNode>) -> (r: Vec<(u32, String, String)>)
    ensures
        r@.len() == audio_sources_of(nodes@).len(),
        forall|k: int|
            0 <= k < r@.len() ==> source_entry_ok(#[trigger] r@[k], audio_sources_of(nodes@)[k]),
{
    let source_class = String::from_str("Audio/Source");
    let virtual_class = String::from_str("Audio/Source/Virtual");
    let mut r: Vec<(u32, String, String)> = Vec::new();
    let mut i: usize = 0;
    while i < nodes.len()
        invariant
            i <= nodes@.len(),
            source_class@ == "Audio/Source"@,
            virtual_class@ == "Audio/Source/Virtual"@,
            r@.len() == audio_sources_of(nodes@.take(i as int)).len(),
            forall|k: int|
                0 <= k < r@.len() ==> source_entry_ok(
                    #[trigger] r@[k],
                    audio_sources_of(nodes@.take(i as int))[k],
                ),
        decreases nodes@.len() - i,
    {
        let node = &nodes[i];
        if node.media_class == source_class || node.media_class == virtual_class {
            let name = match &node.name {
                Some(s) => s.clone(),
                None => String::from_str("Unknown"),
            };
            let description = match &node.description {
                Some(s) => s.clone(),
                None => String::from_str("No description"),
            };
            r.push((node.id, name, description));
        }
        proof {
            assert(nodes@.take(i + 1).drop_last() =~= nodes@.take(i as int));
            assert(nodes@.take(i + 1).last() == nodes@[i as int]);
        }
        i = i + 1;
    }
    proof {
        assert(nodes@.take(nodes@.len() as int) =~= nodes@);
    }
    r
}

} // verus!
