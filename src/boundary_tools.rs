use crate::sampling::{Sample, WithinMode};
use vstd::prelude::*;

verus! {

/// How the envelopes of several boundaries combine in a prediction.
#[derive(Clone, Copy, Debug, PartialEq, Eq, Structural)]
pub enum PredictionMode {
    Union,
    Intersection,
}

/// The prediction for a group of envelopes from the predictions for each of
/// them: inside the union when inside any, inside the intersection when
/// inside all.
pub open spec fn group_prediction(mode: PredictionMode, preds: Seq<bool>) -> bool {
    match mode {
        PredictionMode::Union => exists|i: int| 0 <= i < preds.len() && #[trigger] preds[i],
        PredictionMode::Intersection => forall|i: int| 0 <= i < preds.len() ==> #[trigger] preds[i],
    }
}

/// Combines the predictions `preds` made for each envelope of a group: the
/// union holds a point that any envelope holds, the intersection one that all
/// of them hold. An empty union holds nothing; an empty intersection holds
/// everything.
pub fn combine_predictions(mode: PredictionMode, preds: &Vec<bool>) -> (r: bool)
    ensures
        r == group_prediction(mode, preds@),
{
    let mut i: usize = 0;
    while i < preds.len()
        invariant
            i <= preds@.len(),
            mode == PredictionMode::Union ==> forall|j: int| 0 <= j < i ==> !#[trigger] preds@[j],
            mode == PredictionMode::Intersection ==> forall|j: int|
                0 <= j < i ==> #[trigger] preds@[j],
        decreases preds@.len() - i,
    {
        match mode {
            PredictionMode::Union => {
                if preds[i] {
                    return true;
                }
            },
            PredictionMode::Intersection => {
                if !preds[i] {
                    return false;
                }
            },
        }
        i += 1;
    }
    match mode {
        PredictionMode::Union => false,
        PredictionMode::Intersection => true,
    }
}

/// Over samples classified against two envelopes (`cls[i]` is whether sample
/// `i` is in the first and in the second): the numbers of samples in both, in
/// the first only and in the second only.
pub open spec fn memberships(cls: Seq<(bool, bool)>) -> (nat, nat, nat)
    decreases cls.len(),
{
    if cls.len() == 0 {
        (0, 0, 0)
    } else {
        let m = memberships(cls.drop_last());
        let c = cls.last();
        if c.0 && c.1 {
            (m.0 + 1, m.1, m.2)
        } else if c.0 {
            (m.0, m.1 + 1, m.2)
        } else if c.1 {
            (m.0, m.1, m.2 + 1)
        } else {
            m
        }
    }
}

proof fn lemma_memberships_bound(cls: Seq<(bool, bool)>)
    ensures
        memberships(cls).0 + memberships(cls).1 + memberships(cls).2 <= cls.len(),
    decreases cls.len(),
{
    if cls.len() > 0 {
        lemma_memberships_bound(cls.drop_last());
    }
}

/// Counts, over samples classified against two envelopes (`cls[i]` is whether
/// sample `i` is in the first and in the second), the samples in both, in the
/// first only and in the second only.
pub fn count_memberships(cls: &Vec<(bool, bool)>) -> (r: (usize, usize, usize))
    ensures
        r == ((memberships(cls@).0) as usize, (memberships(cls@).1) as usize, (memberships(
            cls@,
        ).2) as usize),
        r.0 + r.1 + r.2 <= cls@.len(),
{
    let mut n_both: usize = 0;
    let mut n_first: usize = 0;
    let mut n_second: usize = 0;
    let mut i: usize = 0;
    while i < cls.len()
        invariant
            i <= cls@.len(),
            (n_both as nat, n_first as nat, n_second as nat) == memberships(
                cls@.subrange(0, i as int),
            ),
        decreases cls@.len() - i,
    {
        proof {
            assert(cls@.subrange(0, i + 1).drop_last() =~= cls@.subrange(0, i as int));
            lemma_memberships_bound(cls@.subrange(0, i as int));
        }
        let (c1, c2) = cls[i];
        if c1 && c2 {
            n_both += 1;
        } else if c1 {
            n_first += 1;
        } else if c2 {
            n_second += 1;
        }
        i += 1;
    }
    proof {
        assert(cls@.subrange(0, i as int) =~= cls@);
        lemma_memberships_bound(cls@);
    }
    (n_both, n_first, n_second)
}

/// Where a walk along a stale halfspace's surface vector ended, and so where
/// the boundary now lies. The walk started in class `init_cls`, `prev` is the
/// sample before the last one, `last` the last one, and `last_in_domain` says
/// whether `last` lies in the domain.
/// * The class never changed: the boundary was not reacquired.
/// * It changed at a target point in the domain: that point.
/// * It changed otherwise: `prev` if it is a target point, else nothing.
pub fn reacquired_point<P: Copy>(
    init_cls: bool,
    prev: Sample<P>,
    last: Sample<P>,
    last_in_domain: bool,
) -> (r: Option<WithinMode<P>>)
    ensures
        last.label() == init_cls ==> r is None,
        last.label() != init_cls && last_in_domain && last.label() ==> r == Some(
            WithinMode(last.point()),
        ),
        last.label() != init_cls && !(last_in_domain && last.label()) ==> (if prev.label() {
            r == Some(WithinMode(prev.point()))
        } else {
            r is None
        }),
{
    let boundary_exists = last.class() != init_cls;
    if !boundary_exists {
        return None;
    }
    match (last_in_domain, last) {
        (true, Sample::WithinMode(b)) => Some(b),
        _ => match prev {
            Sample::WithinMode(b) => Some(b),
            Sample::OutOfMode(_) => None,
        },
    }
}

} // verus!
