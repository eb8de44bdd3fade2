use vstd::prelude::*;

use crate::devices::RegistryNode;
use crate::error::PipelineError;

verus! {

/// A control command handed to the recorder loop.
#[derive(Clone, Debug, PartialEq, Eq)]
pub enum Command {
    /// Begin recording to the given output path.
    StartRecording(String),
    /// Stop the recording in progress.
    StopRecording,
}

/// The capture-side decisions of the recorder.  The embedder owns the
/// command channel, the capture session and the media file; the recorder
/// picks the nodes the session should record from.
pub struct Recorder {}

/// The monitor of an audio sink carries the sink's name with this suffix.
pub open spec fn monitor_name_of(sink_name: Seq<char>) -> Seq<char> {
    sink_name + ".monitor"@
}

/// The sink's name, with an empty name standing in when the node carries
/// none.
pub open spec fn node_name_of(n: RegistryNode) -> Seq<char> {
    match n.name {
        Some(s) => s@,
        None => Seq::empty(),
    }
}

/// Whether a registry node is an audio playback sink.
pub open spec fn is_audio_sink(n: RegistryNode) -> bool {
    n.media_class@ == "Audio/Sink"@
}

/// Whether a registry node carries exactly the given name.
pub open spec fn node_named(n: RegistryNode, name: Seq<char>) -> bool {
    n.name matches Some(s) && s@ == name
}

/// Index of the first registry node carrying the given name, or `-1` if
/// none does.
pub open spec fn find_named(nodes: Seq<RegistryNode>, name: Seq<char>) -> int
    decreases nodes.len(),
{
    if nodes.len() == 0 {
        -1
    } else if node_named(nodes[0], name) {
        0
    } else {
        let rest = find_named(nodes.drop_first(), name);
        if rest < 0 {
            -1
        } else {
            rest + 1
        }
    }
}

/// The identifier of the monitor node the recorder settles on: for the
/// first audio sink (in registry order) whose monitor node exists, the
/// first node named after that sink's monitor.
pub open spec fn find_monitor(all: Seq<RegistryNode>, rest: Seq<RegistryNode>) -> Option<u32>
    decreases rest.len(),
{
    if rest.len() == 0 {
        None
    } else if is_audio_sink(rest[0]) && find_named(all, monitor_name_of(node_name_of(rest[0])))
        >= 0 {
        Some(all[find_named(all, monitor_name_of(node_name_of(rest[0])))].id)
    } else {
        find_monitor(all, rest.drop_first())
    }
}

/// `find_named` returns the first matching index: if no index below `i`
/// matches and `i` does, the result is `i`; if nothing matches at all, the
/// result is `-1`.
proof fn lemma_find_named_first(nodes: Seq<RegistryNode>, name: Seq<char>, i: int)
    requires
        0 <= i <= nodes.len(),
        forall|j: int| 0 <= j < i ==> !node_named(#[trigger] nodes[j], name),
        i < nodes.len() ==> node_named(nodes[i], name),
    ensures
        i < nodes.len() ==> find_named(nodes, name) == i,
        i == nodes.len() ==> find_named(nodes, name) == -1,
    decreases nodes.len(),
{
    if nodes.len() == 0 {
    } else if node_named(nodes[0], name) {
        assert(i == 0);
    } else {
        let rest = nodes.drop_first();
        assert(forall|j: int| 0 <= j < i - 1 ==> !node_named(#[trigger] rest[j], name));
        assert(i - 1 < rest.len() ==> rest[i - 1] == nodes[i]);
        lemma_find_named_first(rest, name, i - 1);
    }
}

/// Whether an optional node name equals the wanted name.
fn opt_name_matches(name: &Option<String>, wanted: &String) -> (b: bool)
    ensures
        b == (match name {
            Some(s) => s@ == wanted@,
            None => false,
        }),
{
    match name {
        Some(s) => s.eq(wanted),
        None => false,
    }
}

impl Recorder {
    /// Creates the recorder.  The embedder runs its command loop and
    /// capture session around it.
    pub fn new() -> Recorder {
        Recorder {  }
    }

    /// Finds the desktop-audio monitor to record from: for the first audio
    /// sink in the registry whose monitor node exists, the identifier of
    /// the first node named `<sink name>.monitor`.  Fails with `NotFound`
    /// when no sink has a monitor node.
    pub fn find_audio_monitor_node(&self, nodes: &Vec<RegistryNode>) -> (r: Result<
        u32,
        PipelineError,
    >)
        ensures
            r matches Ok(id) ==> find_monitor(nodes@, nodes@) == Some(id),
            r matches Err(e) ==> e == PipelineError::NotFound && find_monitor(nodes@, nodes@)
                is None,
    {
        let sink_class = String::from_str("Audio/Sink");
        let n = nodes.len();
        proof {
            assert(nodes@.skip(0) =~= nodes@);
        }
        let mut i: usize = 0;
        while i < n
            invariant
                n == nodes@.len(),
                i <= n,
                sink_class@ == "Audio/Sink"@,
                find_monitor(nodes@, nodes@) == find_monitor(nodes@, nodes@.skip(i as int)),
            decreases n - i,
        {
            proof {
                assert(nodes@.skip(i as int)[0] == nodes@[i as int]);
                assert(nodes@.skip(i as int).drop_first() =~= nodes@.skip(i + 1));
            }
            if nodes[i].media_class == sink_class {
                let sink_name = match &nodes[i].name {
                    Some(s) => s.clone(),
                    None => String::new(),
                };
                let monitor = sink_name.concat(".monitor");
                proof {
                    assert(monitor@ == monitor_name_of(node_name_of(nodes@[i as int])));
                }
                let mut j: usize = 0;
                while j < n
                    invariant
                        n == nodes@.len(),
                        i < n,
                        j <= n,
                        is_audio_sink(nodes@[i as int]),
                        monitor@ == monitor_name_of(node_name_of(nodes@[i as int])),
                        find_monitor(nodes@, nodes@) == find_monitor(nodes@, nodes@.skip(i as int)),
                        forall|k: int| 0 <= k < j ==> !node_named(#[trigger] nodes@[k], monitor@),
                    decreases n - j,
                {
                    if opt_name_matches(&nodes[j].name, &monitor) {
                        proof {
                            lemma_find_named_first(nodes@, monitor@, j as int);
                            assert(nodes@.skip(i as int)[0] == nodes@[i as int]);
                        }
                        return Ok(nodes[j].id);
                    }
                    j = j + 1;
                }
                proof {
                    lemma_find_named_first(nodes@, monitor@, n as int);
                }
            }
            i = i + 1;
        }
        proof {
            assert(nodes@.skip(n as int) =~= Seq::<RegistryNode>::empty());
        }
        Err(PipelineError::NotFound)
    }
}

} // verus!
