use vstd::prelude::*;

verus! {

/// A point that falls within the target performance mode: classifying it gives
/// the target class.
#[derive(Clone, Copy, Debug, PartialEq)]
pub struct WithinMode<P>(pub P);

/// A point that falls outside of the target performance mode.
#[derive(Clone, Copy, Debug, PartialEq)]
pub struct OutOfMode<P>(pub P);

/// A point of the input space together with its classification.
#[derive(Clone, Copy, Debug, PartialEq)]
pub enum Sample<P> {
    WithinMode(WithinMode<P>),
    OutOfMode(OutOfMode<P>),
}

impl<P> Sample<P> {
    /// The class of the sample: true for the target performance mode.
    pub open spec fn label(&self) -> bool {
        self is WithinMode
    }

    /// The point that was classified.
    pub open spec fn point(&self) -> P {
        match self {
            Sample::WithinMode(t) => t.0,
            Sample::OutOfMode(x) => x.0,
        }
    }

    /// Labels `p` with the class `cls`.
    pub fn from_class(p: P, cls: bool) -> (r: Self)
        ensures
            r.label() == cls,
            r.point() == p,
    {
        if cls {
            Sample::WithinMode(WithinMode(p))
        } else {
            Sample::OutOfMode(OutOfMode(p))
        }
    }

    /// Strips the sample of its label, returning the raw point.
    pub fn into_inner(self) -> (r: P)
        ensures
            r == self.point(),
    {
        match self {
            Sample::WithinMode(WithinMode(p)) => p,
            Sample::OutOfMode(OutOfMode(p)) => p,
        }
    }

    /// The class of the sample: true for the target performance mode.
    pub fn class(&self) -> (r: bool)
        ensures
            r == self.label(),
    {
        match self {
            Sample::WithinMode(_) => true,
            Sample::OutOfMode(_) => false,
        }
    }
}

/// The smallest discrete unit of an envelope's surface: a boundary point `b`
/// inside the envelope and the outward surface vector `n`.
#[derive(Clone, Copy, Debug, PartialEq)]
pub struct Halfspace<P> {
    pub b: WithinMode<P>,
    pub n: P,
}

/// A target sample `t` and a non-target sample `x`: a boundary lies on the
/// segment between them.
#[derive(Clone, Debug, PartialEq)]
pub struct BoundaryPair<P> {
    t: WithinMode<P>,
    x: OutOfMode<P>,
}

impl<P> BoundaryPair<P> {
    /// The target sample of the pair.
    pub closed spec fn spec_t(&self) -> WithinMode<P> {
        self.t
    }

    /// The non-target sample of the pair.
    pub closed spec fn spec_x(&self) -> OutOfMode<P> {
        self.x
    }

    /// Creates a pair from known target and non-target samples.
    pub fn new(t: WithinMode<P>, x: OutOfMode<P>) -> (r: Self)
        ensures
            r.spec_t() == t,
            r.spec_x() == x,
    {
        BoundaryPair { t, x }
    }

    /// Creates a pair from two samples, in either order. Two samples of the same
    /// class make no pair.
    pub fn from_samples(s1: Sample<P>, s2: Sample<P>) -> (r: Option<Self>)
        ensures
            r is Some <==> s1.label() != s2.label(),
            r matches Some(pair) ==> (s1.label() ==> pair.spec_t().0 == s1.point() && pair.spec_x().0
                == s2.point()) && (s2.label() ==> pair.spec_t().0 == s2.point() && pair.spec_x().0
                == s1.point()),
    {
        match (s1, s2) {
            (Sample::WithinMode(t), Sample::OutOfMode(x)) => Some(BoundaryPair { t, x }),
            (Sample::OutOfMode(x), Sample::WithinMode(t)) => Some(BoundaryPair { t, x }),
            _ => None,
        }
    }

    /// The target sample of the pair.
    pub fn t(&self) -> (r: &WithinMode<P>)
        ensures
            *r == self.spec_t(),
    {
        &self.t
    }

    /// The non-target sample of the pair.
    pub fn x(&self) -> (r: &OutOfMode<P>)
        ensures
            *r == self.spec_x(),
    {
        &self.x
    }
}

} // verus!
