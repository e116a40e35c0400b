use sembas::error::SamplingError;
use sembas::extensions::Queue;
use sembas::sampling::{BoundaryPair, Halfspace, OutOfMode, Sample, WithinMode};

#[test]
fn from_class_labels_point() {
    let s = Sample::from_class([0.25, 0.5], true);
    assert_eq!(s, Sample::WithinMode(WithinMode([0.25, 0.5])));
    assert!(s.class());
    let s = Sample::from_class([0.25, 0.5], false);
    assert_eq!(s, Sample::OutOfMode(OutOfMode([0.25, 0.5])));
    assert!(!s.class());
    assert_eq!(s.into_inner(), [0.25, 0.5]);
}

#[test]
fn boundary_pair_from_samples_either_order() {
    let t = Sample::from_class([0.5, 0.5], true);
    let x = Sample::from_class([0.9, 0.5], false);
    let p = BoundaryPair::from_samples(t, x).expect("pair of different classes");
    assert_eq!(*p.t(), WithinMode([0.5, 0.5]));
    assert_eq!(*p.x(), OutOfMode([0.9, 0.5]));
    let q = BoundaryPair::from_samples(x, t).expect("pair of different classes");
    assert_eq!(p, q);
    let r = BoundaryPair::new(WithinMode([0.5, 0.5]), OutOfMode([0.9, 0.5]));
    assert_eq!(p, r);
}

#[test]
fn boundary_pair_needs_two_classes() {
    let a = Sample::from_class([0.1], true);
    let b = Sample::from_class([0.2], true);
    assert_eq!(BoundaryPair::from_samples(a, b), None);
    let c = Sample::from_class([0.1], false);
    let d = Sample::from_class([0.2], false);
    assert_eq!(BoundaryPair::from_samples(c, d), None);
}

#[test]
fn halfspace_holds_point_and_normal() {
    let hs = Halfspace { b: WithinMode([0.625, 0.5, 0.5]), n: [1.0, 0.0, 0.0] };
    assert_eq!(hs.b.0[0], 0.625);
    assert_eq!(hs.n, [1.0, 0.0, 0.0]);
}

#[test]
fn queue_is_first_in_first_out() {
    let mut q: Vec<u32> = vec![];
    assert_eq!(q.dequeue(), None);
    q.enqueue(1);
    q.enqueue(2);
    q.enqueue(3);
    assert_eq!(q.dequeue(), Some(1));
    q.enqueue(4);
    assert_eq!(q.dequeue(), Some(2));
    assert_eq!(q.dequeue(), Some(3));
    assert_eq!(q.dequeue(), Some(4));
    assert_eq!(q.dequeue(), None);
}

#[test]
fn sampling_errors_compare() {
    assert_eq!(SamplingError::BoundaryLost, SamplingError::BoundaryLost);
    assert_ne!(SamplingError::OutOfBounds, SamplingError::MaxSamplesExceeded);
}

#[test]
fn sampling_error_messages() {
    assert_eq!(SamplingError::BoundaryLost.message(), "Boundary lost during adherence.");
    assert_eq!(SamplingError::OutOfBounds.message(), "Boundary was sampled out of domain bounds.");
    assert_eq!(SamplingError::MaxSamplesExceeded.message(), "Exceeded max samples.");
    assert_eq!(SamplingError::InvalidClassifierResponse("bad byte".to_string()).message(), "bad byte");
}
