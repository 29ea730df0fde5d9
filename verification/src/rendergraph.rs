//! A placeholder for graph-ordered rendering: the seam is kept open (an
//! optional root node and a depth-first walk) without being driven by
//! anything yet.

use vstd::prelude::*;

verus! {

/// One node of a future render graph.
pub trait RenderNode {
    fn execute(&self);
}

/// A graph of render work rooted at an optional node. Not yet driven by
/// the frame pipeline.
pub struct RenderGraph {
    root_renderpass: Option<Box<dyn RenderNode>>,
}

impl RenderGraph {
    /// An empty graph with no root.
    pub fn new() -> (r: Self)
        ensures
            !r.has_root(),
    {
        RenderGraph { root_renderpass: None }
    }

    /// Whether a root node has been attached.
    pub closed spec fn has_root(&self) -> bool {
        self.root_renderpass is Some
    }

    /// Renders the graph. Nothing is attached yet, so nothing happens.
    pub fn render(&self) {
    }

    /// Walks the graph depth-first. Nothing is attached yet, so nothing
    /// happens.
    pub fn depthwise_recurse() {
    }
}

} // verus!
