use tinyraytracer::depth::{Depth, MAX_DEPTH};

#[test]
fn primary_depth_is_active_zero() {
    assert_eq!(Depth::start(), Depth::Active(0));
    assert!(Depth::start().is_active());
}

#[test]
fn exhausted_depth_is_not_active() {
    assert!(!Depth::Exhausted.is_active());
    assert_eq!(Depth::Exhausted.next(), Depth::Exhausted);
}

#[test]
fn depth_counts_up_to_the_limit_then_exhausts() {
    assert_eq!(MAX_DEPTH, 4);
    assert_eq!(Depth::Active(0).next(), Depth::Active(1));
    assert_eq!(Depth::Active(3).next(), Depth::Active(4));
    assert_eq!(Depth::Active(4).next(), Depth::Exhausted);
}

#[test]
fn primary_chain_has_five_active_calls() {
    let mut d = Depth::start();
    let mut active: usize = 0;
    while d.is_active() {
        active += 1;
        d = d.next();
    }
    assert_eq!(active, MAX_DEPTH + 1);
}
