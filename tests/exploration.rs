use sembas::adherers::{boundary_crossing, constant_verdict, BisectionTally, StepVerdict};
use sembas::boundary_tools::{
    combine_predictions, count_memberships, reacquired_point, PredictionMode,
};
use sembas::explorers::MeshFrontier;
use sembas::sampling::{Halfspace, Sample, WithinMode};
use sembas::sampling::{BoundaryPair, OutOfMode};
use sembas::search::{enqueue_halves, opposing_outcome, OpposingOutcome, PairTally, SearchMode};

fn hs(x: f64) -> Halfspace<[f64; 2]> {
    Halfspace { b: WithinMode([x, 0.5]), n: [1.0, 0.0] }
}

#[test]
fn crossing_reports_target_point_of_pair() {
    let t = Sample::from_class([0.6, 0.5], true);
    let x = Sample::from_class([0.7, 0.5], false);
    assert_eq!(boundary_crossing(None, t), None);
    assert_eq!(boundary_crossing(Some(t), t), None);
    assert_eq!(boundary_crossing(Some(x), x), None);
    assert_eq!(boundary_crossing(Some(t), x), Some(WithinMode([0.6, 0.5])));
    assert_eq!(boundary_crossing(Some(x), t), Some(WithinMode([0.6, 0.5])));
}

#[test]
fn constant_verdicts() {
    let t = Sample::from_class([0.6, 0.5], true);
    let x = Sample::from_class([0.7, 0.5], false);
    assert_eq!(constant_verdict(None, x, false), StepVerdict::Searching);
    assert_eq!(constant_verdict(Some(x), x, false), StepVerdict::Searching);
    assert_eq!(constant_verdict(Some(x), x, true), StepVerdict::Lost);
    // a crossing on the last allowed step still finds the boundary
    assert_eq!(constant_verdict(Some(x), t, true), StepVerdict::Found(WithinMode([0.6, 0.5])));
}

#[test]
fn bisection_takes_exactly_its_budget() {
    let mut tally: BisectionTally<[f64; 1]> = BisectionTally::new(3);
    assert_eq!(tally.rotation(), None);
    assert_eq!(tally.record(Sample::from_class([0.1], true)), StepVerdict::Searching);
    assert_eq!(tally.rotation(), Some(true));
    assert_eq!(tally.record(Sample::from_class([0.2], false)), StepVerdict::Searching);
    assert_eq!(tally.rotation(), Some(false));
    assert_eq!(tally.remaining(), 1);
    assert_eq!(tally.record(Sample::from_class([0.3], true)), StepVerdict::Found(WithinMode([0.3])));
    assert_eq!(tally.remaining(), 0);
}

#[test]
fn bisection_keeps_last_target_point() {
    let mut tally: BisectionTally<[f64; 1]> = BisectionTally::new(2);
    assert_eq!(tally.record(Sample::from_class([0.1], true)), StepVerdict::Searching);
    assert_eq!(tally.record(Sample::from_class([0.2], false)), StepVerdict::Found(WithinMode([0.1])));
}

#[test]
fn bisection_loses_boundary_with_one_class() {
    let mut tally: BisectionTally<[f64; 1]> = BisectionTally::new(2);
    assert_eq!(tally.record(Sample::from_class([0.1], false)), StepVerdict::Searching);
    assert_eq!(tally.record(Sample::from_class([0.2], false)), StepVerdict::Lost);
}

#[test]
fn frontier_starts_from_root() {
    let f: MeshFrontier<[f64; 2], i32> = MeshFrontier::new(hs(0.5), vec![1, -1]);
    assert_eq!(f.boundary_count(), 1);
    assert_eq!(f.boundary(), &vec![hs(0.5)]);
    assert_eq!(f.queued_paths(), 2);
    assert_eq!(f.current_parent(), 0);
    assert_eq!(f.get_parent(0), None);
}

#[test]
fn frontier_paths_come_out_in_order() {
    let mut f: MeshFrontier<[f64; 2], i32> = MeshFrontier::new(hs(0.5), vec![1, -1]);
    assert_eq!(f.next_path(), Some((hs(0.5), 0, 1)));
    f.select_parent(0);
    let id = f.add_child(hs(0.6), &vec![2, -2]);
    assert_eq!(id, 1);
    assert_eq!(f.get_parent(1), Some(0));
    assert_eq!(f.next_path(), Some((hs(0.5), 0, -1)));
    assert_eq!(f.next_path(), Some((hs(0.6), 1, 2)));
    f.select_parent(1);
    assert_eq!(f.add_child(hs(0.7), &vec![]), 2);
    assert_eq!(f.get_parent(2), Some(1));
    assert_eq!(f.next_path(), Some((hs(0.6), 1, -2)));
    assert_eq!(f.next_path(), None);
    assert_eq!(f.boundary_count(), 3);
    assert_eq!(f.boundary_owned(), vec![hs(0.5), hs(0.6), hs(0.7)]);
}

#[test]
fn frontier_loads_saved_boundary() {
    let saved = vec![hs(0.5), hs(0.6), hs(0.7), hs(0.4)];
    let parents = vec![0, 0, 1, 0];
    let dirs = vec![vec![1], vec![], vec![3, 4], vec![]];
    let mut f: MeshFrontier<[f64; 2], i32> = MeshFrontier::load(&saved, &parents, &dirs);
    assert_eq!(f.boundary(), &saved);
    assert_eq!(f.get_parent(0), None);
    assert_eq!(f.get_parent(1), Some(0));
    assert_eq!(f.get_parent(2), Some(1));
    assert_eq!(f.get_parent(3), Some(0));
    assert_eq!(f.queued_paths(), 3);
    assert_eq!(f.next_path(), Some((hs(0.5), 0, 1)));
    assert_eq!(f.next_path(), Some((hs(0.7), 2, 3)));
    assert_eq!(f.next_path(), Some((hs(0.7), 2, 4)));
    assert_eq!(f.next_path(), None);
}

#[test]
fn halves_by_search_mode() {
    let mut pairs: Vec<(f64, f64)> = vec![];
    enqueue_halves(SearchMode::Full, &mut pairs, 0.0, 0.5, 1.0);
    assert_eq!(pairs, vec![(0.0, 0.5), (0.5, 1.0)]);
    let mut near: Vec<(f64, f64)> = vec![];
    enqueue_halves(SearchMode::Nearest, &mut near, 0.0, 0.5, 1.0);
    assert_eq!(near, vec![(0.0, 0.5)]);
}

#[test]
fn reacquisition_outcomes() {
    let t = Sample::from_class([0.4], true);
    let t2 = Sample::from_class([0.45], true);
    let x = Sample::from_class([0.5], false);
    // no class change: nothing reacquired
    assert_eq!(reacquired_point(true, t, t2, true), None);
    // walking outwards from a target point: the last target point before the change
    assert_eq!(reacquired_point(true, t2, x, true), Some(WithinMode([0.45])));
    // walking inwards from a non-target point: the first target point in the domain
    assert_eq!(reacquired_point(false, x, t, true), Some(WithinMode([0.4])));
    // ... unless it left the domain, and the point before was no target
    assert_eq!(reacquired_point(false, x, t, false), None);
}

#[test]
fn opposing_search_conclusions() {
    assert_eq!(opposing_outcome::<f64>(None, Some(0.9)), OpposingOutcome::Start);
    assert_eq!(opposing_outcome(Some(0.7), None), OpposingOutcome::Target(0.7));
    assert_eq!(opposing_outcome(Some(0.7), Some(0.9)), OpposingOutcome::Surface(0.7, 0.9));
}

#[test]
fn group_predictions() {
    assert!(combine_predictions(PredictionMode::Union, &vec![false, true, false]));
    assert!(!combine_predictions(PredictionMode::Union, &vec![false, false]));
    assert!(!combine_predictions(PredictionMode::Union, &vec![]));
    assert!(combine_predictions(PredictionMode::Intersection, &vec![true, true]));
    assert!(!combine_predictions(PredictionMode::Intersection, &vec![true, false, true]));
    assert!(combine_predictions(PredictionMode::Intersection, &vec![]));
}

#[test]
fn membership_counts() {
    let cls = vec![(true, true), (true, false), (false, false), (false, true), (true, true)];
    assert_eq!(count_memberships(&cls), (2, 1, 1));
    assert_eq!(count_memberships(&vec![]), (0, 0, 0));
}

#[test]
fn refined_normal_keeps_point() {
    let mut f: MeshFrontier<[f64; 2], i32> = MeshFrontier::new(hs(0.5), vec![]);
    f.select_parent(0);
    f.add_child(hs(0.6), &vec![]);
    f.replace_normal(0, [0.0, 1.0]);
    assert_eq!(f.boundary()[0], Halfspace { b: WithinMode([0.5, 0.5]), n: [0.0, 1.0] });
    assert_eq!(f.boundary()[1], hs(0.6));
    assert_eq!(f.get_parent(1), Some(0));
}

#[test]
fn pair_tally_waits_for_both_classes() {
    let mut tally: PairTally<[f64; 1]> = PairTally::new();
    assert_eq!(tally.record(Sample::from_class([0.1], false)), None);
    assert_eq!(tally.record(Sample::from_class([0.2], false)), None);
    assert_eq!(
        tally.record(Sample::from_class([0.3], true)),
        Some(BoundaryPair::new(WithinMode([0.3]), OutOfMode([0.2])))
    );
}
