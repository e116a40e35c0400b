use crate::sampling::{OutOfMode, Sample, WithinMode};
use vstd::prelude::*;

verus! {

/// A valid state of an adherer: still searching, or done with the boundary
/// halfspace it found.
#[derive(Clone, Copy, Debug, PartialEq)]
pub enum AdhererState<H> {
    Searching,
    FoundBoundary(H),
}

/// What an adherer concluded from the sample it has just taken.
#[derive(Clone, Copy, Debug, PartialEq)]
pub enum StepVerdict<P> {
    /// The boundary has not been crossed yet: keep rotating.
    Searching,
    /// The boundary lies next to this target point.
    Found(WithinMode<P>),
    /// The search budget ran out without crossing the boundary.
    Lost,
}

/// The target point of two consecutive samples of different classes, where
/// the boundary was crossed between them.
pub open spec fn crossing_point<P>(prev: Sample<P>, cur: Sample<P>) -> WithinMode<P> {
    if cur.label() {
        WithinMode(cur.point())
    } else {
        WithinMode(prev.point())
    }
}

/// The boundary point reported at a crossing is a point that was classified
/// in the target mode: of two consecutive samples of different classes, it is
/// the target one.
pub proof fn crossing_point_is_target<P>(prev: Sample<P>, cur: Sample<P>)
    requires
        prev.label() != cur.label(),
    ensures
        cur.label() ==> crossing_point(prev, cur).0 == cur.point(),
        prev.label() ==> crossing_point(prev, cur).0 == prev.point(),
{
}

/// Detects a boundary crossing between the previous sample and the current
/// one: when their classes differ, returns the target point of the two.
pub fn boundary_crossing<P: Copy>(prev: Option<Sample<P>>, cur: Sample<P>) -> (r: Option<
    WithinMode<P>,
>)
    ensures
        r is Some <==> (prev matches Some(p) && p.label() != cur.label()),
        r matches Some(b) ==> b == crossing_point(prev->0, cur),
{
    match (cur, prev) {
        (Sample::WithinMode(t), Some(Sample::OutOfMode(_))) => Some(t),
        (Sample::OutOfMode(_), Some(Sample::WithinMode(t))) => Some(t),
        _ => None,
    }
}

/// The verdict of a fixed-step rotation after a sample: a crossing since the
/// previous sample finds the boundary; otherwise the search is lost once the
/// accumulated rotation exceeds its maximum (`rotation_exceeded`), and goes on
/// before that.
pub fn constant_verdict<P: Copy>(
    prev: Option<Sample<P>>,
    cur: Sample<P>,
    rotation_exceeded: bool,
) -> (r: StepVerdict<P>)
    ensures
        (prev matches Some(p) && p.label() != cur.label()) ==> r == StepVerdict::Found(
            crossing_point(prev->0, cur),
        ),
        !(prev matches Some(p) && p.label() != cur.label()) && rotation_exceeded ==> r
            == StepVerdict::<P>::Lost,
        !(prev matches Some(p) && p.label() != cur.label()) && !rotation_exceeded ==> r
            == StepVerdict::<P>::Searching,
{
    match boundary_crossing(prev, cur) {
        Some(b) => StepVerdict::Found(b),
        None => if rotation_exceeded {
            StepVerdict::Lost
        } else {
            StepVerdict::Searching
        },
    }
}

/// The record a rotational bisection keeps: the samples it may still take, the
/// class of the last sample, and the last target and non-target points seen.
pub struct BisectionTally<P> {
    remaining: u32,
    prev_cls: Option<bool>,
    t: Option<WithinMode<P>>,
    x: Option<OutOfMode<P>>,
}

impl<P: Copy> BisectionTally<P> {
    /// The number of samples still to be taken.
    pub closed spec fn spec_remaining(&self) -> nat {
        self.remaining as nat
    }

    /// The class of the last sample, if any was taken.
    pub closed spec fn spec_prev(&self) -> Option<bool> {
        self.prev_cls
    }

    /// The last target point seen.
    pub closed spec fn spec_t(&self) -> Option<WithinMode<P>> {
        self.t
    }

    /// The last non-target point seen.
    pub closed spec fn spec_x(&self) -> Option<OutOfMode<P>> {
        self.x
    }

    /// A tally for a bisection of `n_iter` samples, none taken yet.
    pub fn new(n_iter: u32) -> (r: Self)
        ensures
            r.spec_remaining() == n_iter,
            r.spec_prev() is None,
            r.spec_t() is None,
            r.spec_x() is None,
    {
        BisectionTally { remaining: n_iter, prev_cls: None, t: None, x: None }
    }

    /// The samples still to be taken.
    pub fn remaining(&self) -> (r: u32)
        ensures
            r == self.spec_remaining(),
    {
        self.remaining
    }

    /// The sense of the next rotation: `None` before the first sample, which is
    /// taken without rotating; then `Some(true)` (towards the outside) after a
    /// target sample and `Some(false)` after a non-target one.
    pub fn rotation(&self) -> (r: Option<bool>)
        ensures
            r == self.spec_prev(),
    {
        self.prev_cls
    }

    /// Records the sample `s` and concludes: once the last sample is taken, the
    /// boundary is next to the last target point if both classes were seen, and
    /// is lost otherwise.
    pub fn record(&mut self, s: Sample<P>) -> (r: StepVerdict<P>)
        requires
            old(self).spec_remaining() > 0,
        ensures
            final(self).spec_remaining() == old(self).spec_remaining() - 1,
            final(self).spec_prev() == Some(s.label()),
            s.label() ==> final(self).spec_t() == Some(WithinMode(s.point())) && final(self).spec_x()
                == old(self).spec_x(),
            !s.label() ==> final(self).spec_x() == Some(OutOfMode(s.point())) && final(self).spec_t() == old(self).spec_t(),
            final(self).spec_remaining() > 0 ==> r == StepVerdict::<P>::Searching,
            final(self).spec_remaining() == 0 && final(self).spec_t() is Some && final(self).spec_x() is Some ==> r == StepVerdict::Found(final(self).spec_t()->0),
            final(self).spec_remaining() == 0 && (final(self).spec_t() is None || final(self).spec_x() is None) ==> r == StepVerdict::<P>::Lost,
    {
        self.prev_cls = Some(s.class());
        match s {
            Sample::WithinMode(t) => self.t = Some(t),
            Sample::OutOfMode(x) => self.x = Some(x),
        }
        self.remaining = self.remaining - 1;
        if self.remaining > 0 {
            StepVerdict::Searching
        } else {
            match (self.t, self.x) {
                (Some(t), Some(_)) => StepVerdict::Found(t),
                _ => StepVerdict::Lost,
            }
        }
    }
}

} // verus!
