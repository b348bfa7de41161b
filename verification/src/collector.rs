//! The per-pass candidate collector: computes each reported image's visible
//! on-screen area by composing ancestor clips and transforms, and keeps the
//! single largest image of the pass.

use vstd::prelude::*;

use crate::candidate::{Epoch, ImageCandidate, LCPCandidateTag, LCPCandidates};
use crate::geometry::{apply_frame, spec_apply_frame, AffineTransform, FrameTransform, Point, Rect, Size};
use crate::tree::{Clip, ClipId, ClipStore, ScrollTree, ScrollTreeNode, ScrollTreeNodeId, SpatialTreeNodeInfo};

verus! {

/// One clip application: when the clip node addressed by `clip_id` exists
/// and is recorded under the scroll node currently being processed, it
/// applies.  The sentinel identity leaves the rectangle unchanged and makes
/// the sentinel the next clip to examine; any other clip intersects the
/// rectangle and advances to its parent clip.
pub open spec fn spec_clip_step(
    clip_tree: ClipStore,
    scroll_id: ScrollTreeNodeId,
    clip_id: ClipId,
    rect: Rect,
) -> (Rect, ClipId) {
    if clip_tree.spec_contains(clip_id) && clip_tree.spec_node(clip_id).parent_scroll_node_id
        == scroll_id {
        let clip = clip_tree.spec_node(clip_id);
        if clip.id.spec_is_invalid() {
            (rect, clip.id)
        } else {
            (Rect::spec_intersect(clip.rect, rect), clip.parent_clip_id)
        }
    } else {
        (rect, clip_id)
    }
}

/// One transform application: a reference frame maps the rectangle to the
/// outer bounding box of its transformed shape, translated by the frame's
/// origin; a plain scroll box passes it through.  A missing scroll node
/// collapses the rectangle to zero area and ends the walk.
pub open spec fn spec_transform_step(
    scroll_tree: ScrollTree,
    scroll_id: ScrollTreeNodeId,
    rect: Rect,
) -> (Rect, Option<ScrollTreeNodeId>) {
    if scroll_tree.spec_contains(scroll_id) {
        let node = scroll_tree.spec_node(scroll_id);
        match node.info {
            SpatialTreeNodeInfo::ReferenceFrame(rf) => (
                spec_apply_frame(rf.origin, rf.transform, rect),
                node.parent,
            ),
            SpatialTreeNodeInfo::Scroll => (rect, node.parent),
        }
    } else {
        (Rect::spec_zero(), None)
    }
}

/// The visible rectangle of `rect`, walked from `scroll_id` towards the
/// tree root: at each level the matching clip is applied first (clips are
/// expressed in the child's local space), then the level's transform, and
/// a rectangle that has become empty stops the walk at once.  A parent
/// link that does not point towards the root lies outside any well-formed
/// tree and also ends the walk.
pub open spec fn spec_visible_rect_rec(
    scroll_tree: ScrollTree,
    clip_tree: ClipStore,
    rect: Rect,
    scroll_id: Option<ScrollTreeNodeId>,
    clip_id: ClipId,
) -> Rect
    decreases (match scroll_id {
        Some(id) => id.index as int + 1,
        None => 0,
    }),
{
    match scroll_id {
        None => rect,
        Some(id) => {
            let clipped = spec_clip_step(clip_tree, id, clip_id, rect);
            let transformed = spec_transform_step(scroll_tree, id, clipped.0);
            if transformed.0.spec_is_empty() {
                transformed.0
            } else {
                let towards_root = match transformed.1 {
                    Some(p) => p.index < id.index,
                    None => true,
                };
                if towards_root {
                    spec_visible_rect_rec(scroll_tree, clip_tree, transformed.0, transformed.1, clipped.1)
                } else {
                    transformed.0
                }
            }
        },
    }
}

/// The visible rectangle in viewport coordinates: the composed rectangle,
/// intersected with the viewport anchored at the origin.
pub open spec fn spec_visible_rect(
    scroll_tree: ScrollTree,
    clip_tree: ClipStore,
    rect: Rect,
    scroll_id: Option<ScrollTreeNodeId>,
    clip_id: ClipId,
    viewport_size: Size,
) -> Rect {
    Rect::spec_intersect(
        spec_visible_rect_rec(scroll_tree, clip_tree, rect, scroll_id, clip_id),
        Rect::spec_from_size(viewport_size),
    )
}

/// Applies one clip node to the rectangle and yields the next clip to
/// examine.
pub fn apply_clip_to_visual_rect(rect: Rect, clip_node: &Clip) -> (r: (Rect, ClipId))
    ensures
        r == (if clip_node.id.spec_is_invalid() {
            (rect, clip_node.id)
        } else {
            (Rect::spec_intersect(clip_node.rect, rect), clip_node.parent_clip_id)
        }),
{
    if clip_node.id.is_invalid() {
        (rect, clip_node.id)
    } else {
        (clip_node.rect.intersection(&rect), clip_node.parent_clip_id)
    }
}

/// Applies one scroll node's transform to the rectangle and yields the
/// node's parent.
pub fn apply_transform_to_visual_rect(rect: Rect, scroll_node: &ScrollTreeNode) -> (r: (
    Rect,
    Option<ScrollTreeNodeId>,
))
    ensures
        r == (match scroll_node.info {
            SpatialTreeNodeInfo::ReferenceFrame(rf) => (
                spec_apply_frame(rf.origin, rf.transform, rect),
                scroll_node.parent,
            ),
            SpatialTreeNodeInfo::Scroll => (rect, scroll_node.parent),
        }),
{
    match &scroll_node.info {
        SpatialTreeNodeInfo::ReferenceFrame(rf) => (
            apply_frame(&rf.origin, &rf.transform, &rect),
            scroll_node.parent,
        ),
        SpatialTreeNodeInfo::Scroll => (rect, scroll_node.parent),
    }
}

/// The recursive walk itself, one level per call.
pub fn compute_visual_rect_with_scroll_clip(
    rect: Rect,
    scroll_id: Option<ScrollTreeNodeId>,
    clip_id: ClipId,
    scroll_tree: &ScrollTree,
    clip_tree: &ClipStore,
) -> (r: Rect)
    requires
        scroll_tree.wf(),
    ensures
        r == spec_visible_rect_rec(*scroll_tree, *clip_tree, rect, scroll_id, clip_id),
    decreases (match scroll_id {
        Some(id) => id.index as int + 1,
        None => 0,
    }),
{
    let id = match scroll_id {
        None => {
            return rect;
        },
        Some(id) => id,
    };

    let clipped = match clip_tree.get_node(&clip_id) {
        Some(clip_node) => {
            if clip_node.parent_scroll_node_id.index == id.index {
                apply_clip_to_visual_rect(rect, clip_node)
            } else {
                (rect, clip_id)
            }
        },
        None => (rect, clip_id),
    };

    let transformed = match scroll_tree.get_node(&id) {
        Some(scroll_node) => {
            proof {
                assert(match scroll_tree.nodes@[id.index as int].parent {
                    Some(p) => p.index < id.index,
                    None => true,
                });
            }
            apply_transform_to_visual_rect(clipped.0, scroll_node)
        },
        None => (Rect::zero(), None),
    };

    if transformed.0.is_empty() {
        transformed.0
    } else {
        compute_visual_rect_with_scroll_clip(transformed.0, transformed.1, clipped.1, scroll_tree, clip_tree)
    }
}

/// The layout-side collector of one pass: tracks the scroll/clip position
/// of the content being traversed and the largest qualifying image seen so
/// far in the pass.
pub struct LargestContentfulPaintCollector {
    pub current_scroll_node_id: ScrollTreeNodeId,
    pub current_clip_id: ClipId,
    pub largest_image: Option<ImageCandidate>,
}

impl LargestContentfulPaintCollector {
    /// The visible area a candidate rectangle would be recorded with, at
    /// the collector's current position.
    pub open spec fn spec_candidate_size(
        self,
        rect: Rect,
        scroll_tree: ScrollTree,
        clip_tree: ClipStore,
        viewport_size: Size,
    ) -> int {
        spec_visible_rect(
            scroll_tree,
            clip_tree,
            rect,
            Some(self.current_scroll_node_id),
            self.current_clip_id,
            viewport_size,
        ).spec_area()
    }

    /// What the held candidate becomes when an image is reported: a zero
    /// visible area leaves it untouched; otherwise a strictly larger area
    /// replaces it, so on an equal area the first image of the pass wins.
    pub open spec fn spec_recorded(
        self,
        tag: usize,
        rect: Rect,
        scroll_tree: ScrollTree,
        clip_tree: ClipStore,
        viewport_size: Size,
        epoch: Epoch,
    ) -> Option<ImageCandidate> {
        let size = self.spec_candidate_size(rect, scroll_tree, clip_tree, viewport_size);
        if size == 0 {
            self.largest_image
        } else {
            let candidate = ImageCandidate {
                tag: LCPCandidateTag(tag),
                size: size as u64,
                epoch,
                paint_time: None,
            };
            match self.largest_image {
                None => Some(candidate),
                Some(largest) => if (largest.size as int) < size {
                    Some(candidate)
                } else {
                    self.largest_image
                },
            }
        }
    }

    pub fn new(scroll_node_id: ScrollTreeNodeId, clip_id: ClipId) -> (r:
        LargestContentfulPaintCollector)
        ensures
            r.current_scroll_node_id == scroll_node_id,
            r.current_clip_id == clip_id,
            r.largest_image is None,
    {
        LargestContentfulPaintCollector {
            current_scroll_node_id: scroll_node_id,
            current_clip_id: clip_id,
            largest_image: None,
        }
    }

    /// The traversal has moved to other content; later candidates compose
    /// from here.
    pub fn update_current_node_id(
        &mut self,
        next_scroll_node_id: ScrollTreeNodeId,
        next_clip_id: ClipId,
    )
        ensures
            final(self).current_scroll_node_id == next_scroll_node_id,
            final(self).current_clip_id == next_clip_id,
            final(self).largest_image == old(self).largest_image,
    {
        self.current_scroll_node_id = next_scroll_node_id;
        self.current_clip_id = next_clip_id;
    }

    /// The visible rectangle of `rect` at the current position, in viewport
    /// coordinates.
    pub fn compute_visual_rect(
        &self,
        rect: Rect,
        scroll_tree: &ScrollTree,
        clip_tree: &ClipStore,
        viewport_size: Size,
    ) -> (r: Rect)
        requires
            scroll_tree.wf(),
        ensures
            r == spec_visible_rect(
                *scroll_tree,
                *clip_tree,
                rect,
                Some(self.current_scroll_node_id),
                self.current_clip_id,
                viewport_size,
            ),
    {
        let visual_rect = compute_visual_rect_with_scroll_clip(
            rect,
            Some(self.current_scroll_node_id),
            self.current_clip_id,
            scroll_tree,
            clip_tree,
        );
        let viewport = Rect::from_size(viewport_size);
        visual_rect.intersection(&viewport)
    }

    /// Records one reported image: computes its visible area and keeps it
    /// only when it strictly exceeds the area of the image held so far.
    pub fn record_image_candidate(
        &mut self,
        tag: usize,
        rect: Rect,
        viewport_size: Size,
        scroll_tree: &ScrollTree,
        clip_tree: &ClipStore,
        epoch: Epoch,
    )
        requires
            scroll_tree.wf(),
        ensures
            final(self).current_scroll_node_id == old(self).current_scroll_node_id,
            final(self).current_clip_id == old(self).current_clip_id,
            final(self).largest_image == old(self).spec_recorded(
                tag,
                rect,
                *scroll_tree,
                *clip_tree,
                viewport_size,
                epoch,
            ),
    {
        let visual_rect = self.compute_visual_rect(rect, scroll_tree, clip_tree, viewport_size);
        let size = visual_rect.area();
        if size == 0 {
            return;
        }
        let replace = match &self.largest_image {
            Some(largest) => largest.size < size,
            None => true,
        };
        if replace {
            self.largest_image = Some(ImageCandidate::new(tag, size, epoch));
        }
    }

    /// Ends the pass: moves the held candidate into the outgoing record and
    /// clears the collector for the next pass.
    pub fn update_largest_contentful_paint_candiate(&mut self) -> (r: LCPCandidates)
        ensures
            r.image_candidate == old(self).largest_image,
            final(self).largest_image is None,
            final(self).current_scroll_node_id == old(self).current_scroll_node_id,
            final(self).current_clip_id == old(self).current_clip_id,
    {
        let taken = self.largest_image;
        self.largest_image = None;
        LCPCandidates { image_candidate: taken }
    }
}

/// Applying any level's transform to the canonical zero rectangle leaves a
/// rectangle that encloses no area.
proof fn lemma_transform_step_keeps_zero_empty(scroll_tree: ScrollTree, scroll_id: ScrollTreeNodeId)
    ensures
        spec_transform_step(scroll_tree, scroll_id, Rect::spec_zero()).0.spec_is_empty(),
{
}

/// An empty rectangle intersects every rectangle in the canonical zero
/// rectangle.
proof fn lemma_intersect_empty_left(a: Rect, b: Rect)
    requires
        a.spec_is_empty(),
    ensures
        Rect::spec_intersect(a, b) == Rect::spec_zero(),
{
}

/// A rectangle that lies fully outside the clip applying at the level the
/// walk starts from composes to zero area, whatever transforms stand above:
/// the walk short-circuits on the emptied rectangle without consulting any
/// ancestor.
pub proof fn lemma_clip_outside_composes_to_zero(
    scroll_tree: ScrollTree,
    clip_tree: ClipStore,
    rect: Rect,
    scroll_id: ScrollTreeNodeId,
    clip_id: ClipId,
    viewport_size: Size,
)
    requires
        clip_tree.spec_contains(clip_id),
        clip_tree.spec_node(clip_id).parent_scroll_node_id == scroll_id,
        !clip_tree.spec_node(clip_id).id.spec_is_invalid(),
        Rect::spec_intersect(clip_tree.spec_node(clip_id).rect, rect).spec_is_empty(),
    ensures
        spec_visible_rect(
            scroll_tree,
            clip_tree,
            rect,
            Some(scroll_id),
            clip_id,
            viewport_size,
        ).spec_area() == 0,
{
    lemma_intersect_empty_left(Rect::spec_intersect(clip_tree.spec_node(clip_id).rect, rect), rect);
    assert(spec_clip_step(clip_tree, scroll_id, clip_id, rect).0 == Rect::spec_zero());
    lemma_transform_step_keeps_zero_empty(scroll_tree, scroll_id);
    let level = spec_transform_step(scroll_tree, scroll_id, Rect::spec_zero()).0;
    assert(spec_visible_rect_rec(scroll_tree, clip_tree, rect, Some(scroll_id), clip_id) == level);
    lemma_intersect_empty_left(level, Rect::spec_from_size(viewport_size));
}

/// A rectangle that is already empty after a level's clip and transform is
/// the walk's result as it stands: no ancestor above the level enters into
/// it.
pub proof fn lemma_empty_after_level_short_circuits(
    scroll_tree: ScrollTree,
    clip_tree: ClipStore,
    rect: Rect,
    scroll_id: ScrollTreeNodeId,
    clip_id: ClipId,
)
    requires
        ({
            let clipped = spec_clip_step(clip_tree, scroll_id, clip_id, rect);
            spec_transform_step(scroll_tree, scroll_id, clipped.0).0.spec_is_empty()
        }),
    ensures
        spec_visible_rect_rec(scroll_tree, clip_tree, rect, Some(scroll_id), clip_id)
            == spec_transform_step(
            scroll_tree,
            scroll_id,
            spec_clip_step(clip_tree, scroll_id, clip_id, rect).0,
        ).0,
{
}

/// A reference frame whose transform is a pure translation moves a
/// rectangle without changing its area.
pub proof fn lemma_translation_preserves_area(origin: Point, tx: i32, ty: i32, r: Rect)
    requires
        r.x0 <= r.x1,
        r.y0 <= r.y1,
        crate::geometry::in_coord_range(r.x0 + tx + origin.x),
        crate::geometry::in_coord_range(r.x1 + tx + origin.x),
        crate::geometry::in_coord_range(r.y0 + ty + origin.y),
        crate::geometry::in_coord_range(r.y1 + ty + origin.y),
    ensures
        ({
            let t = FrameTransform::Affine(
                AffineTransform { m11: 1, m12: 0, m21: 0, m22: 1, m31: tx, m32: ty },
            );
            let res = spec_apply_frame(origin, t, r);
            res == (Rect {
                x0: (r.x0 + tx + origin.x) as i32,
                y0: (r.y0 + ty + origin.y) as i32,
                x1: (r.x1 + tx + origin.x) as i32,
                y1: (r.y1 + ty + origin.y) as i32,
            }) && res.spec_area() == r.spec_area()
        }),
{
}

} // verus!
