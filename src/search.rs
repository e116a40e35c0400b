use crate::extensions::Queue;
use crate::sampling::{BoundaryPair, OutOfMode, Sample, WithinMode};
use vstd::prelude::*;

verus! {

/// How a bisection between two points goes on after a midpoint missed.
/// * Full: both halves are searched, so any point of the wanted class is found.
/// * Nearest: only the half next to the first point is searched, so the point
///   found is the one of the wanted class closest to it.
#[derive(Clone, Copy, Debug, PartialEq, Eq, Structural)]
pub enum SearchMode {
    Full,
    Nearest,
}

/// Queues the halves of the interval `(p1, p2)` split at `mid` that `mode`
/// searches next, nearest half first.
pub fn enqueue_halves<P>(mode: SearchMode, pairs: &mut Vec<(P, P)>, p1: P, mid: P, p2: P)
    where
        P: Copy,
    ensures
        mode == SearchMode::Full ==> final(pairs)@ == old(pairs)@.push((p1, mid)).push((mid, p2)),
        mode == SearchMode::Nearest ==> final(pairs)@ == old(pairs)@.push((p1, mid)),
{
    pairs.enqueue((p1, mid));
    if mode == SearchMode::Full {
        pairs.enqueue((mid, p2));
    }
}

/// What a global search has seen so far: the last target and the last
/// non-target point.
pub struct PairTally<P> {
    t: Option<WithinMode<P>>,
    x: Option<OutOfMode<P>>,
}

impl<P: Copy> PairTally<P> {
    /// The last target point seen.
    pub closed spec fn spec_t(&self) -> Option<WithinMode<P>> {
        self.t
    }

    /// The last non-target point seen.
    pub closed spec fn spec_x(&self) -> Option<OutOfMode<P>> {
        self.x
    }

    /// A tally that has seen nothing.
    pub fn new() -> (r: Self)
        ensures
            r.spec_t() is None,
            r.spec_x() is None,
    {
        PairTally { t: None, x: None }
    }

    /// Records the sample `s`; once points of both classes were seen, returns
    /// the last of each as a boundary pair.
    pub fn record(&mut self, s: Sample<P>) -> (r: Option<BoundaryPair<P>>)
        ensures
            s.label() ==> final(self).spec_t() == Some(WithinMode(s.point())) && final(self).spec_x()
                == old(self).spec_x(),
            !s.label() ==> final(self).spec_x() == Some(OutOfMode(s.point())) && final(self).spec_t()
                == old(self).spec_t(),
            r is Some <==> (final(self).spec_t() is Some && final(self).spec_x() is Some),
            r matches Some(pair) ==> pair.spec_t() == final(self).spec_t()->0 && pair.spec_x()
                == final(self).spec_x()->0,
    {
        match s {
            Sample::WithinMode(t) => self.t = Some(t),
            Sample::OutOfMode(x) => self.x = Some(x),
        }
        match (self.t, self.x) {
            (Some(t), Some(x)) => Some(BoundaryPair::new(t, x)),
            _ => None,
        }
    }
}

/// How an opposing-boundary search concludes from what its bisections found:
/// the innermost target point `t` and the gap `x` (a non-target point) next to
/// it, where found.
#[derive(Clone, Copy, Debug, PartialEq)]
pub enum OpposingOutcome<P> {
    /// Only a gap was found: the starting point is the answer.
    Start,
    /// No gap lies beyond `t`: it is the answer.
    Target(P),
    /// A boundary lies between the target point and the gap: search its surface.
    Surface(P, P),
}

/// Concludes an opposing-boundary search from the target point `t` and the gap
/// `x` it found; at least one of them was found.
pub fn opposing_outcome<P: Copy>(t: Option<P>, x: Option<P>) -> (r: OpposingOutcome<P>)
    requires
        t is Some || x is Some,
    ensures
        t is None ==> r == OpposingOutcome::<P>::Start,
        t is Some && x is None ==> r == OpposingOutcome::Target(t->0),
        t is Some && x is Some ==> r == OpposingOutcome::Surface(t->0, x->0),
{
    match (t, x) {
        (Some(tp), Some(xp)) => OpposingOutcome::Surface(tp, xp),
        (Some(tp), None) => OpposingOutcome::Target(tp),
        (None, _) => OpposingOutcome::Start,
    }
}

} // verus!
