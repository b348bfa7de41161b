//! The compositor-side aggregator: per-pipeline resolution of pending
//! candidates against confirmed paint generations, and change-gated
//! reporting of the running largest image.

use std::collections::HashMap;

use vstd::prelude::*;

use crate::candidate::{
    spec_lcp_of, spec_time, Epoch, ImageCandidate, LCPCandidates, LargestContentfulPaint,
};

verus! {

broadcast use vstd::std_specs::hash::group_hash_axioms;

/// A candidate stays pending when its generation has not been confirmed
/// painted yet.
pub open spec fn spec_defers(c: ImageCandidate, cur_epoch: Epoch) -> bool {
    c.epoch.0 > cur_epoch.0
}

/// A resolved candidate, stamped with the confirmed paint timestamp.
pub open spec fn spec_stamp(c: ImageCandidate, paint_time: u64) -> ImageCandidate {
    ImageCandidate { paint_time: Some(paint_time), ..c }
}

/// The strict ordering rule of the per-pipeline calculator: a freshly
/// resolved candidate displaces the best one exactly when it is strictly
/// larger, or of equal size but painted strictly earlier.
pub open spec fn spec_better(new: ImageCandidate, best: ImageCandidate) -> bool {
    best.size < new.size || (best.size == new.size && spec_time(best.paint_time) > spec_time(
        new.paint_time,
    ))
}

/// Folds one resolved candidate into the best-resolved value.
pub open spec fn spec_fold_one(best: Option<ImageCandidate>, new: ImageCandidate) -> Option<
    ImageCandidate,
> {
    match best {
        None => Some(new),
        Some(b) => if spec_better(new, b) {
            Some(new)
        } else {
            Some(b)
        },
    }
}

/// The candidates that stay pending after resolving against `cur_epoch`:
/// exactly those of a later generation, in their arrival order.
pub open spec fn spec_kept(pending: Seq<ImageCandidate>, cur_epoch: Epoch) -> Seq<ImageCandidate>
    decreases pending.len(),
{
    if pending.len() == 0 {
        Seq::empty()
    } else {
        let rest = spec_kept(pending.drop_first(), cur_epoch);
        if spec_defers(pending.first(), cur_epoch) {
            seq![pending.first()] + rest
        } else {
            rest
        }
    }
}

/// The best-resolved candidate after resolving: every pending candidate
/// whose generation is confirmed is stamped with the paint timestamp and
/// folded in, in arrival order; deferred candidates do not enter.
pub open spec fn spec_resolve_best(
    pending: Seq<ImageCandidate>,
    best: Option<ImageCandidate>,
    paint_time: u64,
    cur_epoch: Epoch,
) -> Option<ImageCandidate>
    decreases pending.len(),
{
    if pending.len() == 0 {
        best
    } else if spec_defers(pending.first(), cur_epoch) {
        spec_resolve_best(pending.drop_first(), best, paint_time, cur_epoch)
    } else {
        spec_resolve_best(
            pending.drop_first(),
            spec_fold_one(best, spec_stamp(pending.first(), paint_time)),
            paint_time,
            cur_epoch,
        )
    }
}

/// The public view of an optional best-resolved candidate.
pub open spec fn spec_lcp_opt(o: Option<ImageCandidate>) -> Option<LargestContentfulPaint> {
    match o {
        None => None,
        Some(c) => Some(spec_lcp_of(c)),
    }
}

/// The detector's choice between the freshly resolved value and the value
/// reported last: the larger wins, and of equal sizes the one painted no
/// later.
pub open spec fn spec_pick(
    candidate1: Option<LargestContentfulPaint>,
    candidate2: Option<LargestContentfulPaint>,
) -> Option<LargestContentfulPaint> {
    match (candidate1, candidate2) {
        (_, None) => candidate1,
        (None, _) => candidate2,
        (Some(c1), Some(c2)) => if c1.size > c2.size || (c1.size == c2.size && c1.paint_time
            <= c2.paint_time) {
            Some(c1)
        } else {
            Some(c2)
        },
    }
}

/// The per-pipeline image calculator: the pending, not yet resolved
/// candidates, and the best-resolved candidate so far.
pub struct ImageLargestContentfulPaintCalculator {
    pub candidates: Vec<ImageCandidate>,
    pub largest_image: Option<ImageCandidate>,
}

impl ImageLargestContentfulPaintCalculator {
    /// The best-resolved candidate is always stamped, and no pending
    /// candidate is: a candidate is timestamped exactly once, on
    /// resolution.
    pub open spec fn wf(self) -> bool {
        &&& (match self.largest_image {
            Some(c) => c.paint_time is Some,
            None => true,
        })
        &&& (forall|i: int|
            0 <= i < self.candidates@.len() ==> (#[trigger] self.candidates@[i]).paint_time
                is None)
    }

    pub fn new() -> (r: ImageLargestContentfulPaintCalculator)
        ensures
            r.candidates@.len() == 0,
            r.largest_image is None,
            r.wf(),
    {
        ImageLargestContentfulPaintCalculator { candidates: Vec::new(), largest_image: None }
    }

    /// Resolves every pending candidate whose generation is now confirmed
    /// painted: stamps it with `paint_time`, folds it into the best-resolved
    /// candidate under the strict ordering rule, and returns the public view
    /// of the result.  Later-generation candidates stay pending.
    pub fn calculate_largest_contentful_paint(&mut self, paint_time: u64, cur_epoch: Epoch) -> (r:
        Option<LargestContentfulPaint>)
        requires
            old(self).wf(),
        ensures
            final(self).wf(),
            final(self).candidates@ == spec_kept(old(self).candidates@, cur_epoch),
            final(self).largest_image == spec_resolve_best(
                old(self).candidates@,
                old(self).largest_image,
                paint_time,
                cur_epoch,
            ),
            r == spec_lcp_opt(final(self).largest_image),
    {
        let ghost pending0 = self.candidates@;
        let ghost best0 = self.largest_image;

        if self.candidates.len() == 0 {
            assert(pending0 =~= Seq::<ImageCandidate>::empty());
            return match &self.largest_image {
                None => None,
                Some(c) => Some(LargestContentfulPaint::from_candidate(c)),
            };
        }

        let n = self.candidates.len();
        let mut kept: Vec<ImageCandidate> = Vec::new();
        let mut best: Option<ImageCandidate> = self.largest_image;
        let mut i: usize = 0;
        proof {
            assert(pending0.skip(0) =~= pending0);
            assert(kept@ + spec_kept(pending0, cur_epoch) =~= spec_kept(pending0, cur_epoch));
        }
        while i < n
            invariant
                0 <= i <= n,
                n == self.candidates@.len(),
                self.candidates@ == pending0,
                spec_resolve_best(pending0, best0, paint_time, cur_epoch) == spec_resolve_best(
                    pending0.skip(i as int),
                    best,
                    paint_time,
                    cur_epoch,
                ),
                spec_kept(pending0, cur_epoch) == kept@ + spec_kept(
                    pending0.skip(i as int),
                    cur_epoch,
                ),
                match best {
                    Some(b) => b.paint_time is Some,
                    None => true,
                },
                forall|j: int|
                    0 <= j < kept@.len() ==> (#[trigger] kept@[j]).paint_time is None,
                forall|j: int|
                    0 <= j < pending0.len() ==> (#[trigger] pending0[j]).paint_time is None,
            decreases n - i,
        {
            proof {
                assert(pending0.skip(i as int).first() == pending0[i as int]);
                assert(pending0.skip(i as int).drop_first() =~= pending0.skip(i as int + 1));
            }
            let c = self.candidates[i];
            if c.epoch.0 > cur_epoch.0 {
                kept.push(c);
                proof {
                    assert(spec_kept(pending0, cur_epoch) =~= kept@ + spec_kept(
                        pending0.skip(i as int + 1),
                        cur_epoch,
                    ));
                }
            } else {
                let stamped = ImageCandidate {
                    tag: c.tag,
                    size: c.size,
                    epoch: c.epoch,
                    paint_time: Some(paint_time),
                };
                best = match best {
                    None => Some(stamped),
                    Some(b) => {
                        let b_time: u64 = match b.paint_time {
                            Some(t) => t,
                            None => 0,
                        };
                        if b.size < stamped.size || (b.size == stamped.size && b_time
                            > paint_time) {
                            Some(stamped)
                        } else {
                            Some(b)
                        }
                    },
                };
            }
            i = i + 1;
        }
        proof {
            assert(pending0.skip(n as int) =~= Seq::<ImageCandidate>::empty());
        }
        self.candidates = kept;
        self.largest_image = best;
        match &self.largest_image {
            None => None,
            Some(c) => Some(LargestContentfulPaint::from_candidate(c)),
        }
    }
}

impl Default for ImageLargestContentfulPaintCalculator {
    /// The empty calculator: nothing pending, nothing resolved.
    fn default() -> (r: ImageLargestContentfulPaintCalculator)
        ensures
            r.candidates@.len() == 0,
            r.largest_image is None,
            r.wf(),
    {
        ImageLargestContentfulPaintCalculator::new()
    }
}

/// The whole state the detector keeps for one pipeline.
pub struct LargestContentfulPaintCalculator {
    pub image_calculator: ImageLargestContentfulPaintCalculator,
    pub lcp: Option<LargestContentfulPaint>,
}

/// The mathematical state of one pipeline: the pending candidates, the
/// best-resolved candidate, and the value reported last.
pub ghost struct CalculatorModel {
    pub pending: Seq<ImageCandidate>,
    pub best: Option<ImageCandidate>,
    pub lcp: Option<LargestContentfulPaint>,
}

impl CalculatorModel {
    /// The state of a pipeline nothing has been recorded for yet.
    pub open spec fn empty() -> CalculatorModel {
        CalculatorModel { pending: Seq::empty(), best: None, lcp: None }
    }
}

impl View for LargestContentfulPaintCalculator {
    type V = CalculatorModel;

    open spec fn view(&self) -> CalculatorModel {
        CalculatorModel {
            pending: self.image_calculator.candidates@,
            best: self.image_calculator.largest_image,
            lcp: self.lcp,
        }
    }
}

impl LargestContentfulPaintCalculator {
    pub open spec fn wf(self) -> bool {
        self.image_calculator.wf()
    }

    pub fn new() -> (r: LargestContentfulPaintCalculator)
        ensures
            r@ == CalculatorModel::empty(),
            r.wf(),
    {
        let r = LargestContentfulPaintCalculator {
            image_calculator: ImageLargestContentfulPaintCalculator::new(),
            lcp: None,
        };
        proof {
            assert(r@.pending =~= Seq::<ImageCandidate>::empty());
        }
        r
    }
}

/// One paint completion, on the model of one pipeline: resolve the pending
/// candidates, choose between the resolved best and the value reported
/// last, and emit the choice only when it differs from the last report.
pub open spec fn spec_paint_completed(c: CalculatorModel, paint_time: u64, cur_epoch: Epoch) -> (
    CalculatorModel,
    Option<LargestContentfulPaint>,
) {
    let resolved = spec_resolve_best(c.pending, c.best, paint_time, cur_epoch);
    let picked = spec_pick(spec_lcp_opt(resolved), c.lcp);
    (
        CalculatorModel {
            pending: spec_kept(c.pending, cur_epoch),
            best: resolved,
            lcp: picked,
        },
        if picked == c.lcp {
            None
        } else {
            picked
        },
    )
}

/// The detector: one calculator per pipeline, created on demand.
pub struct LargestContentfulPaintDetector {
    pub lcp_calculators: HashMap<u64, LargestContentfulPaintCalculator>,
}

impl LargestContentfulPaintDetector {
    /// The per-pipeline models, keyed by pipeline identifier.
    pub open spec fn models(self) -> Map<u64, CalculatorModel> {
        self.lcp_calculators@.map_values(|c: LargestContentfulPaintCalculator| c@)
    }

    /// The model of one pipeline; a pipeline never seen has the empty state.
    pub open spec fn model_of(self, pipeline_id: u64) -> CalculatorModel {
        if self.models().contains_key(pipeline_id) {
            self.models()[pipeline_id]
        } else {
            CalculatorModel::empty()
        }
    }

    pub open spec fn wf(self) -> bool {
        forall|pid: u64|
            self.lcp_calculators@.contains_key(pid) ==> (#[trigger] self.lcp_calculators@[pid]).wf()
    }

    pub fn new() -> (r: LargestContentfulPaintDetector)
        ensures
            r.models() == Map::<u64, CalculatorModel>::empty(),
            r.wf(),
    {
        let r = LargestContentfulPaintDetector { lcp_calculators: HashMap::new() };
        proof {
            assert(r.models() =~= Map::<u64, CalculatorModel>::empty());
        }
        r
    }

    /// Removes the pipeline's calculator, or makes a fresh one on first
    /// use; the lazy creation the detector's keyed store lives by.
    fn take_calculator(&mut self, pipeline_id: u64) -> (r: LargestContentfulPaintCalculator)
        requires
            old(self).wf(),
        ensures
            final(self).wf(),
            r@ == old(self).model_of(pipeline_id),
            r.wf(),
            final(self).lcp_calculators@ == old(self).lcp_calculators@.remove(pipeline_id),
    {
        match self.lcp_calculators.remove(&pipeline_id) {
            Some(calculator) => calculator,
            None => {
                proof {
                    assert(final(self).lcp_calculators@ =~= old(self).lcp_calculators@.remove(
                        pipeline_id,
                    ));
                }
                LargestContentfulPaintCalculator::new()
            },
        }
    }

    /// Stores the pipeline's calculator back.
    fn store_calculator(
        &mut self,
        pipeline_id: u64,
        calculator: LargestContentfulPaintCalculator,
    )
        requires
            old(self).wf(),
            calculator.wf(),
        ensures
            final(self).wf(),
            final(self).lcp_calculators@ == old(self).lcp_calculators@.insert(
                pipeline_id,
                calculator,
            ),
    {
        self.lcp_calculators.insert(pipeline_id, calculator);
    }

    /// Appends the pass's image candidate, if any, to the pipeline's
    /// pending queue; an empty record changes nothing.
    pub fn append_lcp_candidates(&mut self, pipeline_id: u64, candidates: LCPCandidates)
        requires
            old(self).wf(),
            match candidates.image_candidate {
                Some(c) => c.paint_time is None,
                None => true,
            },
        ensures
            final(self).wf(),
            match candidates.image_candidate {
                None => final(self).models() == old(self).models(),
                Some(c) => final(self).models() == old(self).models().insert(
                    pipeline_id,
                    CalculatorModel {
                        pending: old(self).model_of(pipeline_id).pending.push(c),
                        ..old(self).model_of(pipeline_id)
                    },
                ),
            },
    {
        let image_candidate = match candidates.image_candidate {
            Some(c) => c,
            None => {
                return;
            },
        };
        let ghost model0 = self.model_of(pipeline_id);
        let mut calculator = self.take_calculator(pipeline_id);
        calculator.image_calculator.candidates.push(image_candidate);
        proof {
            assert(calculator@ == (CalculatorModel { pending: model0.pending.push(image_candidate), ..model0 }));
        }
        self.store_calculator(pipeline_id, calculator);
        proof {
            assert(final(self).models() =~= old(self).models().insert(pipeline_id, calculator@));
        }
    }

    /// The pipeline has been torn down: drops its state, if any.
    pub fn remove_pipeline(&mut self, pipeline_id: u64)
        requires
            old(self).wf(),
        ensures
            final(self).wf(),
            final(self).models() == old(self).models().remove(pipeline_id),
    {
        self.lcp_calculators.remove(&pipeline_id);
        proof {
            assert(final(self).models() =~= old(self).models().remove(pipeline_id));
        }
    }

    /// Chooses, when a paint completes, between the freshly resolved
    /// value and the value reported last.
    fn pick_largest_contentful_paint(
        candidate1: Option<LargestContentfulPaint>,
        candidate2: Option<LargestContentfulPaint>,
    ) -> (r: Option<LargestContentfulPaint>)
        ensures
            r == spec_pick(candidate1, candidate2),
    {
        match (candidate1, candidate2) {
            (_, None) => candidate1,
            (None, _) => candidate2,
            (Some(c1), Some(c2)) => {
                if c1.size > c2.size || (c1.size == c2.size && c1.paint_time <= c2.paint_time) {
                    Some(c1)
                } else {
                    Some(c2)
                }
            },
        }
    }

    /// A paint of generation `epoch` completed at `paint_time` for the
    /// pipeline: resolves its pending candidates and reports the new
    /// largest-so-far value exactly when it differs from the last report.
    pub fn calculate_largest_contentful_paint(
        &mut self,
        paint_time: u64,
        epoch: Epoch,
        pipeline_id: u64,
    ) -> (r: Option<LargestContentfulPaint>)
        requires
            old(self).wf(),
        ensures
            final(self).wf(),
            final(self).models() == old(self).models().insert(
                pipeline_id,
                spec_paint_completed(old(self).model_of(pipeline_id), paint_time, epoch).0,
            ),
            r == spec_paint_completed(old(self).model_of(pipeline_id), paint_time, epoch).1,
    {
        let mut calculator = self.take_calculator(pipeline_id);
        let image_candidate = calculator.image_calculator.calculate_largest_contentful_paint(
            paint_time,
            epoch,
        );
        let candidate = Self::pick_largest_contentful_paint(image_candidate, calculator.lcp);
        let changed = !opt_lcp_eq(&candidate, &calculator.lcp);
        calculator.lcp = candidate;
        self.store_calculator(pipeline_id, calculator);
        proof {
            assert(final(self).models() =~= old(self).models().insert(pipeline_id, calculator@));
        }
        if changed {
            candidate
        } else {
            None
        }
    }
}

impl Default for LargestContentfulPaintDetector {
    /// A detector that has seen no pipeline yet.
    fn default() -> (r: LargestContentfulPaintDetector)
        ensures
            r.models() == Map::<u64, CalculatorModel>::empty(),
            r.wf(),
    {
        LargestContentfulPaintDetector::new()
    }
}

/// The size of the best-resolved candidate never decreases: resolving any
/// sequence of pending candidates against it keeps it or replaces it by a
/// candidate at least as large.
pub proof fn lemma_resolved_best_size_monotonic(
    pending: Seq<ImageCandidate>,
    b: ImageCandidate,
    paint_time: u64,
    cur_epoch: Epoch,
)
    ensures
        spec_resolve_best(pending, Some(b), paint_time, cur_epoch) is Some,
        spec_resolve_best(pending, Some(b), paint_time, cur_epoch)->0.size >= b.size,
    decreases pending.len(),
{
    if pending.len() > 0 {
        if spec_defers(pending.first(), cur_epoch) {
            lemma_resolved_best_size_monotonic(pending.drop_first(), b, paint_time, cur_epoch);
        } else {
            let folded = spec_fold_one(Some(b), spec_stamp(pending.first(), paint_time));
            lemma_resolved_best_size_monotonic(
                pending.drop_first(),
                folded->0,
                paint_time,
                cur_epoch,
            );
        }
    }
}

/// The reported size of a pipeline never decreases: whatever a paint
/// completion resolves, the size the detector holds afterwards is at least
/// the size it held before, and so is anything it emits.
pub proof fn lemma_reported_size_monotonic(c: CalculatorModel, paint_time: u64, cur_epoch: Epoch)
    ensures
        c.lcp is Some ==> {
            let after = spec_paint_completed(c, paint_time, cur_epoch);
            &&& after.0.lcp is Some
            &&& after.0.lcp->0.size >= c.lcp->0.size
            &&& (after.1 is Some ==> after.1->0.size >= c.lcp->0.size)
        },
{
}

/// Of two resolved candidates of equal size, the one painted earlier wins,
/// in either arrival order: folding both into an empty best-resolved value
/// yields the earlier one, never the later.
pub proof fn lemma_tie_break_stability(a: ImageCandidate, b: ImageCandidate)
    requires
        a.size == b.size,
        spec_time(a.paint_time) < spec_time(b.paint_time),
    ensures
        spec_fold_one(spec_fold_one(None, a), b) == Some(a),
        spec_fold_one(spec_fold_one(None, b), a) == Some(a),
{
}

/// A candidate of a generation later than the confirmed one is never
/// folded into the best-resolved value: it stays pending, and the resolved
/// best is exactly what it would be had the candidate not been there at
/// all.  It is folded only once a call confirms its generation.
pub proof fn lemma_generation_deferral(
    pending: Seq<ImageCandidate>,
    i: int,
    best: Option<ImageCandidate>,
    paint_time: u64,
    cur_epoch: Epoch,
)
    requires
        0 <= i < pending.len(),
        spec_defers(pending[i], cur_epoch),
    ensures
        spec_kept(pending, cur_epoch).contains(pending[i]),
        spec_resolve_best(pending, best, paint_time, cur_epoch) == spec_resolve_best(
            pending.remove(i),
            best,
            paint_time,
            cur_epoch,
        ),
    decreases pending.len(),
{
    if i == 0 {
        assert(pending.remove(0) =~= pending.drop_first());
        assert(spec_kept(pending, cur_epoch)[0] == pending[0]);
    } else {
        let rest = pending.drop_first();
        assert(pending.remove(i).first() == pending.first());
        assert(pending.remove(i).drop_first() =~= rest.remove(i - 1));
        if spec_defers(pending.first(), cur_epoch) {
            lemma_generation_deferral(rest, i - 1, best, paint_time, cur_epoch);
            let known = spec_kept(rest, cur_epoch);
            let k = choose|k: int| 0 <= k < known.len() && known[k] == rest[i - 1];
            assert(spec_kept(pending, cur_epoch)[1 + k] == pending[i]);
        } else {
            lemma_generation_deferral(
                rest,
                i - 1,
                spec_fold_one(best, spec_stamp(pending.first(), paint_time)),
                paint_time,
                cur_epoch,
            );
        }
    }
}

/// Resolving changes nothing when every pending candidate is still of a
/// later generation than the confirmed one.
proof fn lemma_resolve_best_all_deferred(
    pending: Seq<ImageCandidate>,
    best: Option<ImageCandidate>,
    paint_time: u64,
    cur_epoch: Epoch,
)
    requires
        forall|j: int| 0 <= j < pending.len() ==> spec_defers(#[trigger] pending[j], cur_epoch),
    ensures
        spec_resolve_best(pending, best, paint_time, cur_epoch) == best,
    decreases pending.len(),
{
    if pending.len() > 0 {
        lemma_resolve_best_all_deferred(pending.drop_first(), best, paint_time, cur_epoch);
    }
}

/// Choosing against a value already chosen once changes nothing.
proof fn lemma_pick_idempotent(
    x: Option<LargestContentfulPaint>,
    y: Option<LargestContentfulPaint>,
)
    ensures
        spec_pick(x, spec_pick(x, y)) == spec_pick(x, y),
{
}

/// Emission is gated on change: when a second paint completion resolves to
/// the same report as the first — here, because everything the first call
/// left pending is still deferred — the second call emits nothing.
pub proof fn lemma_change_gated_emission(
    c: CalculatorModel,
    paint_time1: u64,
    cur_epoch1: Epoch,
    paint_time2: u64,
    cur_epoch2: Epoch,
)
    requires
        ({
            let c1 = spec_paint_completed(c, paint_time1, cur_epoch1).0;
            forall|j: int|
                0 <= j < c1.pending.len() ==> spec_defers(#[trigger] c1.pending[j], cur_epoch2)
        }),
    ensures
        spec_paint_completed(
            spec_paint_completed(c, paint_time1, cur_epoch1).0,
            paint_time2,
            cur_epoch2,
        ).1 is None,
{
    let c1 = spec_paint_completed(c, paint_time1, cur_epoch1).0;
    lemma_resolve_best_all_deferred(c1.pending, c1.best, paint_time2, cur_epoch2);
    lemma_pick_idempotent(spec_lcp_opt(c1.best), c.lcp);
}

/// Structural equality of two optional reports.
fn opt_lcp_eq(a: &Option<LargestContentfulPaint>, b: &Option<LargestContentfulPaint>) -> (r: bool)
    ensures
        r == (*a == *b),
{
    match (a, b) {
        (None, None) => true,
        (Some(x), Some(y)) => x.tag.0 == y.tag.0 && x.size == y.size && x.paint_time
            == y.paint_time,
        _ => false,
    }
}

} // verus!
