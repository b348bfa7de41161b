//! The candidate records exchanged between the layout-side collector and
//! the compositor-side detector, and the public result type.

use vstd::prelude::*;

verus! {

/// A rendering generation of a pipeline's paintable content.  Generations
/// grow monotonically; a candidate recorded at generation `g` may only be
/// resolved once a paint completion for a generation `>= g` is observed.
#[derive(Clone, Copy, Debug, PartialEq, Eq, Structural)]
pub struct Epoch(pub u32);

impl Epoch {
    /// The sentinel generation carried by a default (invalid) candidate.
    pub fn invalid() -> (r: Epoch)
        ensures
            r.0 == u32::MAX,
    {
        Epoch(u32::MAX)
    }
}

/// The identity of the element a candidate was recorded for.
#[derive(Clone, Copy, Debug, PartialEq, Eq, PartialOrd, Ord, Hash, Structural)]
pub struct LCPCandidateTag(pub usize);

impl LCPCandidateTag {
    /// The sentinel identity of a default (invalid) candidate.
    pub fn invalid() -> (r: LCPCandidateTag)
        ensures
            r.0 == 0,
    {
        LCPCandidateTag(0)
    }
}

/// The largest image of one layout pass, as reported by the collector.
///
/// `paint_time` is `None` until the candidate's generation is confirmed
/// painted; the per-pipeline calculator then stamps it exactly once.
#[derive(Clone, Copy, Debug)]
pub struct ImageCandidate {
    pub tag: LCPCandidateTag,
    pub size: u64,
    pub epoch: Epoch,
    pub paint_time: Option<u64>,
}

/// The timestamp held by an optional paint time; only meaningful when the
/// option is set, which the calculator's invariants guarantee at every use.
pub open spec fn spec_time(t: Option<u64>) -> u64 {
    match t {
        Some(v) => v,
        None => 0,
    }
}

impl ImageCandidate {
    pub fn new(tag: usize, size: u64, epoch: Epoch) -> (r: ImageCandidate)
        ensures
            r == (ImageCandidate {
                tag: LCPCandidateTag(tag),
                size: size,
                epoch: epoch,
                paint_time: None,
            }),
    {
        ImageCandidate { tag: LCPCandidateTag(tag), size, epoch, paint_time: None }
    }

    pub fn tag(&self) -> (r: LCPCandidateTag)
        ensures
            r == self.tag,
    {
        self.tag
    }

    pub fn size(&self) -> (r: u64)
        ensures
            r == self.size,
    {
        self.size
    }

    /// The confirmed paint timestamp; present exactly on resolved candidates.
    pub fn paint_time(&self) -> (r: Option<u64>)
        ensures
            r == self.paint_time,
    {
        self.paint_time
    }

    pub fn epoch(&self) -> (r: Epoch)
        ensures
            r == self.epoch,
    {
        self.epoch
    }
}

impl Default for ImageCandidate {
    /// The invalid candidate: sentinel identity, zero area, sentinel
    /// generation, not painted.
    fn default() -> (r: ImageCandidate)
        ensures
            r.tag.0 == 0,
            r.size == 0,
            r.epoch.0 == u32::MAX,
            r.paint_time is None,
    {
        ImageCandidate {
            tag: LCPCandidateTag::invalid(),
            size: 0,
            epoch: Epoch::invalid(),
            paint_time: None,
        }
    }
}

/// The transport record of one layout pass: at most one image candidate.
#[derive(Clone, Copy, Debug)]
pub struct LCPCandidates {
    pub image_candidate: Option<ImageCandidate>,
}

impl Default for LCPCandidates {
    fn default() -> (r: LCPCandidates)
        ensures
            r.image_candidate is None,
    {
        LCPCandidates { image_candidate: None }
    }
}

/// The externally reported result: the largest image painted so far in one
/// pipeline, with the timestamp at which it became visible.
#[derive(Clone, Copy, Debug, PartialEq, Eq, Structural)]
pub struct LargestContentfulPaint {
    pub tag: LCPCandidateTag,
    pub size: u64,
    pub paint_time: u64,
}

/// The public result derived from a resolved candidate.
pub open spec fn spec_lcp_of(c: ImageCandidate) -> LargestContentfulPaint {
    LargestContentfulPaint { tag: c.tag, size: c.size, paint_time: spec_time(c.paint_time) }
}

impl LargestContentfulPaint {
    /// Derives the public result from a candidate whose generation has been
    /// confirmed painted.
    pub fn from_candidate(candidate: &ImageCandidate) -> (r: LargestContentfulPaint)
        requires
            candidate.paint_time is Some,
        ensures
            r == spec_lcp_of(*candidate),
    {
        let paint_time: u64 = match candidate.paint_time {
            Some(t) => t,
            None => 0,
        };
        LargestContentfulPaint { tag: candidate.tag, size: candidate.size, paint_time }
    }
}

} // verus!
