use largest_contentful_paint::candidate::{
    Epoch, ImageCandidate, LCPCandidates, LargestContentfulPaint, LCPCandidateTag,
};
use largest_contentful_paint::detector::{
    ImageLargestContentfulPaintCalculator, LargestContentfulPaintDetector,
};

const PIPELINE: u64 = 1;

fn report(detector: &mut LargestContentfulPaintDetector, tag: usize, size: u64, epoch: u32) {
    detector.append_lcp_candidates(
        PIPELINE,
        LCPCandidates { image_candidate: Some(ImageCandidate::new(tag, size, Epoch(epoch))) },
    );
}

#[test]
fn scenario_first_image_is_emitted_once() {
    let mut detector = LargestContentfulPaintDetector::new();
    report(&mut detector, 5, 100, 1);

    let emitted = detector.calculate_largest_contentful_paint(1000, Epoch(1), PIPELINE);
    assert_eq!(
        emitted,
        Some(LargestContentfulPaint { tag: LCPCandidateTag(5), size: 100, paint_time: 1000 })
    );
}

#[test]
fn scenario_smaller_later_image_changes_nothing() {
    let mut detector = LargestContentfulPaintDetector::new();
    report(&mut detector, 5, 100, 1);
    detector.calculate_largest_contentful_paint(1000, Epoch(1), PIPELINE);

    report(&mut detector, 9, 50, 2);
    let emitted = detector.calculate_largest_contentful_paint(2000, Epoch(2), PIPELINE);
    assert_eq!(emitted, None);
}

#[test]
fn scenario_larger_image_is_emitted_with_its_own_time() {
    let mut detector = LargestContentfulPaintDetector::new();
    report(&mut detector, 5, 100, 1);
    detector.calculate_largest_contentful_paint(1000, Epoch(1), PIPELINE);
    report(&mut detector, 9, 50, 2);
    detector.calculate_largest_contentful_paint(2000, Epoch(2), PIPELINE);

    report(&mut detector, 12, 200, 3);
    let emitted = detector.calculate_largest_contentful_paint(3000, Epoch(3), PIPELINE);
    assert_eq!(
        emitted,
        Some(LargestContentfulPaint { tag: LCPCandidateTag(12), size: 200, paint_time: 3000 })
    );
}

#[test]
fn repeated_identical_resolution_emits_nothing() {
    let mut detector = LargestContentfulPaintDetector::new();
    report(&mut detector, 5, 100, 1);
    let first = detector.calculate_largest_contentful_paint(1000, Epoch(1), PIPELINE);
    assert!(first.is_some());

    // nothing new arrived: the same value resolves again, and is not re-emitted
    assert_eq!(detector.calculate_largest_contentful_paint(1500, Epoch(1), PIPELINE), None);
    assert_eq!(detector.calculate_largest_contentful_paint(2000, Epoch(2), PIPELINE), None);
}

#[test]
fn candidate_of_a_later_generation_is_deferred() {
    let mut detector = LargestContentfulPaintDetector::new();
    report(&mut detector, 3, 100, 2);

    // generation 2 is not confirmed by a completion of generation 1
    assert_eq!(detector.calculate_largest_contentful_paint(1000, Epoch(1), PIPELINE), None);

    // once generation 2 completes, the candidate resolves with that paint time
    let emitted = detector.calculate_largest_contentful_paint(2000, Epoch(2), PIPELINE);
    assert_eq!(
        emitted,
        Some(LargestContentfulPaint { tag: LCPCandidateTag(3), size: 100, paint_time: 2000 })
    );
}

#[test]
fn equal_size_reports_the_earlier_paint_time_in_either_order() {
    // earlier-painted candidate first
    let mut detector = LargestContentfulPaintDetector::new();
    report(&mut detector, 1, 100, 1);
    detector.calculate_largest_contentful_paint(1000, Epoch(1), PIPELINE);
    report(&mut detector, 2, 100, 2);
    assert_eq!(detector.calculate_largest_contentful_paint(2000, Epoch(2), PIPELINE), None);

    // later-painted candidate first
    let mut detector = LargestContentfulPaintDetector::new();
    report(&mut detector, 2, 100, 1);
    detector.calculate_largest_contentful_paint(2000, Epoch(1), PIPELINE);
    report(&mut detector, 1, 100, 2);
    let emitted = detector.calculate_largest_contentful_paint(1000, Epoch(2), PIPELINE);
    assert_eq!(
        emitted,
        Some(LargestContentfulPaint { tag: LCPCandidateTag(1), size: 100, paint_time: 1000 })
    );
}

#[test]
fn reported_size_never_decreases() {
    let mut detector = LargestContentfulPaintDetector::new();
    let sizes: Vec<u64> = vec![100, 50, 200, 150, 300];
    let mut last_size: u64 = 0;
    for (pass, size) in sizes.into_iter().enumerate() {
        let epoch = (pass + 1) as u32;
        report(&mut detector, pass + 1, size, epoch);
        if let Some(result) = detector.calculate_largest_contentful_paint(
            1000 * (pass as u64 + 1),
            Epoch(epoch),
            PIPELINE,
        ) {
            assert!(result.size >= last_size);
            last_size = result.size;
        }
    }
    assert_eq!(last_size, 300);
}

#[test]
fn empty_record_is_a_no_op() {
    let mut detector = LargestContentfulPaintDetector::new();
    detector.append_lcp_candidates(PIPELINE, LCPCandidates { image_candidate: None });
    assert_eq!(detector.calculate_largest_contentful_paint(1000, Epoch(1), PIPELINE), None);
}

#[test]
fn unknown_pipeline_gets_fresh_empty_state() {
    let mut detector = LargestContentfulPaintDetector::new();
    assert_eq!(detector.calculate_largest_contentful_paint(1000, Epoch(1), 77), None);
}

#[test]
fn pipelines_are_independent() {
    let mut detector = LargestContentfulPaintDetector::new();
    detector.append_lcp_candidates(
        1,
        LCPCandidates { image_candidate: Some(ImageCandidate::new(10, 100, Epoch(1))) },
    );
    detector.append_lcp_candidates(
        2,
        LCPCandidates { image_candidate: Some(ImageCandidate::new(20, 999, Epoch(1))) },
    );

    let first = detector.calculate_largest_contentful_paint(1000, Epoch(1), 1);
    assert_eq!(
        first,
        Some(LargestContentfulPaint { tag: LCPCandidateTag(10), size: 100, paint_time: 1000 })
    );
    let second = detector.calculate_largest_contentful_paint(2000, Epoch(1), 2);
    assert_eq!(
        second,
        Some(LargestContentfulPaint { tag: LCPCandidateTag(20), size: 999, paint_time: 2000 })
    );
}

#[test]
fn teardown_drops_the_pipeline_state() {
    let mut detector = LargestContentfulPaintDetector::new();
    report(&mut detector, 5, 100, 1);
    assert!(detector.calculate_largest_contentful_paint(1000, Epoch(1), PIPELINE).is_some());

    detector.remove_pipeline(PIPELINE);

    // fresh state: the same value is a change again and is re-emitted
    report(&mut detector, 5, 100, 2);
    let emitted = detector.calculate_largest_contentful_paint(2000, Epoch(2), PIPELINE);
    assert_eq!(
        emitted,
        Some(LargestContentfulPaint { tag: LCPCandidateTag(5), size: 100, paint_time: 2000 })
    );
}

#[test]
fn calculator_defers_and_keeps_pending_candidates() {
    let mut calculator = ImageLargestContentfulPaintCalculator::new();
    calculator.candidates.push(ImageCandidate::new(1, 10, Epoch(5)));
    calculator.candidates.push(ImageCandidate::new(2, 20, Epoch(3)));

    let result = calculator.calculate_largest_contentful_paint(1000, Epoch(3));
    assert_eq!(
        result,
        Some(LargestContentfulPaint { tag: LCPCandidateTag(2), size: 20, paint_time: 1000 })
    );
    assert_eq!(calculator.candidates.len(), 1);
    assert_eq!(calculator.candidates[0].tag().0, 1);
    assert_eq!(calculator.candidates[0].paint_time(), None);
}

#[test]
fn calculator_with_nothing_pending_returns_previous_value() {
    let mut calculator = ImageLargestContentfulPaintCalculator::new();
    assert_eq!(calculator.calculate_largest_contentful_paint(1000, Epoch(1)), None);

    calculator.candidates.push(ImageCandidate::new(1, 10, Epoch(1)));
    let first = calculator.calculate_largest_contentful_paint(2000, Epoch(1));
    assert!(first.is_some());
    // idempotent no-op: same value returned, nothing re-stamped
    assert_eq!(calculator.calculate_largest_contentful_paint(9999, Epoch(4)), first);
}
