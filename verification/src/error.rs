use vstd::prelude::*;

verus! {

/// Errors surfaced by the control layer.
///
/// Construction-time operations (adding a streaming output, selecting an
/// encoder) return these synchronously and abort only the failed operation.
#[derive(Clone, Copy, Debug, PartialEq, Eq, Structural)]
pub enum PipelineError {
    /// A scene or pad index was outside the valid range.
    IndexOutOfRange,
    /// A requested node type could not be instantiated
    /// (missing backend or codec).
    ElementUnavailable,
    /// The media graph rejected a link between two nodes.
    LinkFailure,
    /// A named node or pad is absent.
    NotFound,
}

} // verus!
