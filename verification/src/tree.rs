//! The scroll/transform tree and the clip tree consumed by the visible-area
//! computation.
//!
//! Both trees are externally built snapshots held as arenas: a node is
//! addressed by its index, and a parent always has a smaller index than its
//! children, so every walk towards the root terminates.

use vstd::prelude::*;

use crate::geometry::{FrameTransform, Point, Rect};

verus! {

/// The index of a node of the scroll/transform tree.
#[derive(Clone, Copy, Debug, PartialEq, Eq, Structural)]
pub struct ScrollTreeNodeId {
    pub index: usize,
}

/// What a scroll/transform node does to coordinates passing through it.
#[derive(Clone, Copy, Debug)]
pub enum SpatialTreeNodeInfo {
    /// A plain scroll box: rectangles pass through unchanged.
    Scroll,
    /// A reference frame: rectangles are transformed, then translated by
    /// the frame's origin.
    ReferenceFrame(ReferenceFrameNodeInfo),
}

#[derive(Clone, Copy, Debug)]
pub struct ReferenceFrameNodeInfo {
    pub origin: Point,
    pub transform: FrameTransform,
}

#[derive(Clone, Copy, Debug)]
pub struct ScrollTreeNode {
    pub parent: Option<ScrollTreeNodeId>,
    pub info: SpatialTreeNodeInfo,
}

/// The scroll/transform tree of one pipeline.
#[derive(Debug)]
pub struct ScrollTree {
    pub nodes: Vec<ScrollTreeNode>,
}

impl ScrollTree {
    /// Every parent link points at an earlier node, so parent chains reach
    /// the root in finitely many steps.  Construction through `add_node`
    /// maintains this.
    pub open spec fn wf(self) -> bool {
        forall|i: int|
            0 <= i < self.nodes@.len() ==> match #[trigger] self.nodes@[i].parent {
                Some(p) => p.index < i,
                None => true,
            }
    }

    pub open spec fn spec_contains(self, id: ScrollTreeNodeId) -> bool {
        id.index < self.nodes@.len()
    }

    pub open spec fn spec_node(self, id: ScrollTreeNodeId) -> ScrollTreeNode {
        self.nodes@[id.index as int]
    }

    pub fn new() -> (r: ScrollTree)
        ensures
            r.nodes@.len() == 0,
            r.wf(),
    {
        ScrollTree { nodes: Vec::new() }
    }

    /// Appends a node whose parent, if any, is already in the tree, and
    /// returns its id.
    pub fn add_node(&mut self, parent: Option<ScrollTreeNodeId>, info: SpatialTreeNodeInfo) -> (r:
        ScrollTreeNodeId)
        requires
            old(self).wf(),
            match parent {
                Some(p) => p.index < old(self).nodes@.len(),
                None => true,
            },
        ensures
            final(self).wf(),
            r.index == old(self).nodes@.len(),
            final(self).nodes@ == old(self).nodes@.push(ScrollTreeNode { parent, info }),
    {
        let index = self.nodes.len();
        self.nodes.push(ScrollTreeNode { parent, info });
        ScrollTreeNodeId { index }
    }

    pub fn get_node(&self, id: &ScrollTreeNodeId) -> (r: Option<&ScrollTreeNode>)
        ensures
            match r {
                Some(n) => self.spec_contains(*id) && *n == self.spec_node(*id),
                None => !self.spec_contains(*id),
            },
    {
        if id.index < self.nodes.len() {
            Some(&self.nodes[id.index])
        } else {
            None
        }
    }
}

/// The index of a clip node; `usize::MAX` is the sentinel identity that
/// marks "no further clipping at this level".
#[derive(Clone, Copy, Debug, PartialEq, Eq, Structural)]
pub struct ClipId(pub usize);

impl ClipId {
    pub open spec fn spec_is_invalid(self) -> bool {
        self.0 == usize::MAX
    }

    /// The sentinel clip identity.
    pub fn invalid() -> (r: ClipId)
        ensures
            r.spec_is_invalid(),
    {
        ClipId(usize::MAX)
    }

    pub fn is_invalid(&self) -> (r: bool)
        ensures
            r == self.spec_is_invalid(),
    {
        self.0 == usize::MAX
    }
}

/// One node of the clip tree: a rectangle, the scroll node it is expressed
/// under, and the link to the enclosing clip.
#[derive(Clone, Copy, Debug)]
pub struct Clip {
    pub id: ClipId,
    pub rect: Rect,
    pub parent_scroll_node_id: ScrollTreeNodeId,
    pub parent_clip_id: ClipId,
}

/// The clip tree of one stacking-context tree, held as an arena indexed by
/// `ClipId`.
#[derive(Debug)]
pub struct ClipStore {
    pub clips: Vec<Clip>,
}

impl ClipStore {
    pub open spec fn spec_contains(self, id: ClipId) -> bool {
        id.0 < self.clips@.len()
    }

    pub open spec fn spec_node(self, id: ClipId) -> Clip {
        self.clips@[id.0 as int]
    }

    pub fn new() -> (r: ClipStore)
        ensures
            r.clips@.len() == 0,
    {
        ClipStore { clips: Vec::new() }
    }

    /// Appends a clip node and returns its id.
    pub fn add_clip(
        &mut self,
        rect: Rect,
        parent_scroll_node_id: ScrollTreeNodeId,
        parent_clip_id: ClipId,
    ) -> (r: ClipId)
        ensures
            r.0 == old(self).clips@.len(),
            final(self).clips@ == old(self).clips@.push(
                Clip { id: r, rect, parent_scroll_node_id, parent_clip_id },
            ),
    {
        let id = ClipId(self.clips.len());
        self.clips.push(Clip { id, rect, parent_scroll_node_id, parent_clip_id });
        id
    }

    /// Appends the sentinel marker that ends clipping at this level.
    pub fn add_invalid_marker(&mut self, parent_scroll_node_id: ScrollTreeNodeId) -> (r: ClipId)
        ensures
            r.0 == old(self).clips@.len(),
            final(self).clips@ == old(self).clips@.push(
                Clip {
                    id: ClipId(usize::MAX),
                    rect: Rect::spec_zero(),
                    parent_scroll_node_id,
                    parent_clip_id: ClipId(usize::MAX),
                },
            ),
    {
        let id = ClipId(self.clips.len());
        self.clips.push(
            Clip {
                id: ClipId::invalid(),
                rect: Rect::zero(),
                parent_scroll_node_id,
                parent_clip_id: ClipId::invalid(),
            },
        );
        id
    }

    pub fn get_node(&self, id: &ClipId) -> (r: Option<&Clip>)
        ensures
            match r {
                Some(c) => self.spec_contains(*id) && *c == self.spec_node(*id),
                None => !self.spec_contains(*id),
            },
    {
        if id.0 < self.clips.len() {
            Some(&self.clips[id.0])
        } else {
            None
        }
    }
}

} // verus!
