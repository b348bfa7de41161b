use largest_contentful_paint::candidate::Epoch;
use largest_contentful_paint::collector::{
    compute_visual_rect_with_scroll_clip, LargestContentfulPaintCollector,
};
use largest_contentful_paint::geometry::{AffineTransform, FrameTransform, Point, Rect, Size};
use largest_contentful_paint::tree::{
    ClipId, ClipStore, ReferenceFrameNodeInfo, ScrollTree, ScrollTreeNodeId, SpatialTreeNodeInfo,
};

fn rect(x0: i32, y0: i32, x1: i32, y1: i32) -> Rect {
    Rect { x0, y0, x1, y1 }
}

fn viewport() -> Size {
    Size { width: 800, height: 600 }
}

fn translation(tx: i32, ty: i32) -> SpatialTreeNodeInfo {
    SpatialTreeNodeInfo::ReferenceFrame(ReferenceFrameNodeInfo {
        origin: Point { x: 0, y: 0 },
        transform: FrameTransform::Affine(AffineTransform {
            m11: 1,
            m12: 0,
            m21: 0,
            m22: 1,
            m31: tx,
            m32: ty,
        }),
    })
}

/// A single plain scroll root: rectangles pass through and meet only the
/// viewport.
fn plain_root() -> (ScrollTree, ClipStore, ScrollTreeNodeId, ClipId) {
    let mut scroll_tree = ScrollTree::new();
    let root = scroll_tree.add_node(None, SpatialTreeNodeInfo::Scroll);
    (scroll_tree, ClipStore::new(), root, ClipId::invalid())
}

#[test]
fn rectangle_passes_through_plain_scroll_root() {
    let (scroll_tree, clips, root, no_clip) = plain_root();
    let r = compute_visual_rect_with_scroll_clip(
        rect(10, 10, 60, 40),
        Some(root),
        no_clip,
        &scroll_tree,
        &clips,
    );
    assert_eq!(r, rect(10, 10, 60, 40));
}

#[test]
fn rectangle_outside_ancestor_clip_composes_to_zero_area() {
    let mut scroll_tree = ScrollTree::new();
    let root = scroll_tree.add_node(None, SpatialTreeNodeInfo::Scroll);
    // an ancestor transform stands above the clipping level; it must not
    // rescue a rectangle the clip has already emptied
    let frame = scroll_tree.add_node(Some(root), translation(500, 500));
    let mut clips = ClipStore::new();
    let clip = clips.add_clip(rect(0, 0, 50, 50), frame, ClipId::invalid());

    let collector = LargestContentfulPaintCollector::new(frame, clip);
    let visible = collector.compute_visual_rect(
        rect(100, 100, 200, 200),
        &scroll_tree,
        &clips,
        viewport(),
    );
    assert_eq!(visible.area(), 0);
}

#[test]
fn clip_then_transform_order_is_kept() {
    // the clip is expressed in the child's space: it applies before the
    // frame's translation moves the rectangle
    let mut scroll_tree = ScrollTree::new();
    let root = scroll_tree.add_node(None, SpatialTreeNodeInfo::Scroll);
    let frame = scroll_tree.add_node(Some(root), translation(100, 0));
    let mut clips = ClipStore::new();
    let clip = clips.add_clip(rect(0, 0, 30, 30), frame, ClipId::invalid());

    let r = compute_visual_rect_with_scroll_clip(
        rect(10, 10, 50, 50),
        Some(frame),
        clip,
        &scroll_tree,
        &clips,
    );
    // clipped to (10,10)..(30,30), then translated by 100
    assert_eq!(r, rect(110, 10, 130, 30));
}

#[test]
fn sentinel_clip_identity_leaves_rectangle_unchanged() {
    let mut scroll_tree = ScrollTree::new();
    let root = scroll_tree.add_node(None, SpatialTreeNodeInfo::Scroll);
    let mut clips = ClipStore::new();
    let marker = clips.add_invalid_marker(root);

    let r = compute_visual_rect_with_scroll_clip(
        rect(1, 2, 3, 4),
        Some(root),
        marker,
        &scroll_tree,
        &clips,
    );
    assert_eq!(r, rect(1, 2, 3, 4));
}

#[test]
fn missing_scroll_node_collapses_to_zero() {
    let (scroll_tree, clips, _root, no_clip) = plain_root();
    let r = compute_visual_rect_with_scroll_clip(
        rect(0, 0, 10, 10),
        Some(ScrollTreeNodeId { index: 42 }),
        no_clip,
        &scroll_tree,
        &clips,
    );
    assert_eq!(r, Rect::zero());
}

#[test]
fn visible_rect_is_clamped_to_viewport() {
    let (scroll_tree, clips, root, no_clip) = plain_root();
    let collector = LargestContentfulPaintCollector::new(root, no_clip);
    let visible = collector.compute_visual_rect(
        rect(700, 500, 1000, 1000),
        &scroll_tree,
        &clips,
        viewport(),
    );
    assert_eq!(visible, rect(700, 500, 800, 600));
    assert_eq!(visible.area(), 10000);
}

#[test]
fn record_keeps_only_the_largest_image() {
    let (scroll_tree, clips, root, no_clip) = plain_root();
    let mut collector = LargestContentfulPaintCollector::new(root, no_clip);
    collector.record_image_candidate(1, rect(0, 0, 10, 10), viewport(), &scroll_tree, &clips, Epoch(1));
    collector.record_image_candidate(2, rect(0, 0, 30, 30), viewport(), &scroll_tree, &clips, Epoch(1));
    collector.record_image_candidate(3, rect(0, 0, 20, 20), viewport(), &scroll_tree, &clips, Epoch(1));

    let held = collector.largest_image.expect("a candidate is held");
    assert_eq!(held.tag().0, 2);
    assert_eq!(held.size(), 900);
    assert_eq!(held.epoch(), Epoch(1));
    assert_eq!(held.paint_time(), None);
}

#[test]
fn equal_area_keeps_the_first_image_of_the_pass() {
    let (scroll_tree, clips, root, no_clip) = plain_root();
    let mut collector = LargestContentfulPaintCollector::new(root, no_clip);
    collector.record_image_candidate(7, rect(0, 0, 10, 10), viewport(), &scroll_tree, &clips, Epoch(1));
    collector.record_image_candidate(8, rect(50, 50, 60, 60), viewport(), &scroll_tree, &clips, Epoch(1));

    assert_eq!(collector.largest_image.expect("a candidate is held").tag().0, 7);
}

#[test]
fn zero_visible_area_is_discarded() {
    let (scroll_tree, clips, root, no_clip) = plain_root();
    let mut collector = LargestContentfulPaintCollector::new(root, no_clip);
    // entirely outside the viewport
    collector.record_image_candidate(
        1,
        rect(900, 700, 1000, 800),
        viewport(),
        &scroll_tree,
        &clips,
        Epoch(1),
    );
    assert!(collector.largest_image.is_none());
}

#[test]
fn finalizing_a_pass_moves_the_candidate_out_and_clears() {
    let (scroll_tree, clips, root, no_clip) = plain_root();
    let mut collector = LargestContentfulPaintCollector::new(root, no_clip);
    collector.record_image_candidate(4, rect(0, 0, 5, 5), viewport(), &scroll_tree, &clips, Epoch(2));

    let record = collector.update_largest_contentful_paint_candiate();
    let candidate = record.image_candidate.expect("the record carries the candidate");
    assert_eq!(candidate.tag().0, 4);
    assert_eq!(candidate.size(), 25);
    assert!(collector.largest_image.is_none());

    // a pass with no qualifying image yields an empty record
    let empty = collector.update_largest_contentful_paint_candiate();
    assert!(empty.image_candidate.is_none());
}

#[test]
fn update_current_node_id_moves_the_position() {
    let mut scroll_tree = ScrollTree::new();
    let root = scroll_tree.add_node(None, SpatialTreeNodeInfo::Scroll);
    let frame = scroll_tree.add_node(Some(root), translation(10, 10));
    let mut clips = ClipStore::new();
    let clip = clips.add_clip(rect(0, 0, 100, 100), frame, ClipId::invalid());

    let mut collector = LargestContentfulPaintCollector::new(root, ClipId::invalid());
    collector.update_current_node_id(frame, clip);
    assert_eq!(collector.current_scroll_node_id, frame);
    assert_eq!(collector.current_clip_id, clip);

    collector.record_image_candidate(1, rect(0, 0, 10, 10), viewport(), &scroll_tree, &clips, Epoch(1));
    let held = collector.largest_image.expect("a candidate is held");
    // clipped (no effect), translated by (10,10), still fully visible
    assert_eq!(held.size(), 100);
}
