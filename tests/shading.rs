use tinyraytracer::depth::Depth;
use tinyraytracer::shading::trace;

// Rays are integers; a hit carries the ray's number; shading adds the hit to
// the reflected color.

#[test]
fn exhausted_depth_returns_background_even_on_a_hit() {
    let query = |x: i64| Some(x);
    let bounce = |h: i64| h + 1;
    let shade = |h: i64, c: i64| h + c;
    assert_eq!(trace(&query, &bounce, &shade, -7, 3, Depth::Exhausted), -7);
}

#[test]
fn miss_returns_background() {
    let query = |_x: i64| None::<i64>;
    let bounce = |h: i64| h;
    let shade = |h: i64, c: i64| h + c;
    assert_eq!(trace(&query, &bounce, &shade, 9, 0, Depth::start()), 9);
}

#[test]
fn primary_ray_bounces_five_times_then_sees_background() {
    let query = |x: i64| Some(x);
    let bounce = |h: i64| h * 10;
    let shade = |h: i64, c: i64| h + c;
    // Hits at rays 1, 10, 100, 1000, 10000; the sixth call is exhausted.
    assert_eq!(trace(&query, &bounce, &shade, 0, 1, Depth::start()), 11111);
    assert_eq!(trace(&query, &bounce, &shade, 5, 1, Depth::Active(4)), 6);
}

#[test]
fn chain_stops_at_first_miss() {
    let query = |x: i64| if x < 3 { Some(x) } else { None };
    let bounce = |h: i64| h + 1;
    let shade = |h: i64, c: i64| 10 * c + h;
    // Hits at 0, 1, 2; ray 3 misses and sees the background 7.
    assert_eq!(trace(&query, &bounce, &shade, 7, 0, Depth::start()), 7210);
}

#[test]
fn mirror_at_last_active_depth_shows_background() {
    let query = |x: i64| Some(x);
    let bounce = |h: i64| h + 1;
    let mirror = |_h: i64, c: i64| c;
    assert_eq!(trace(&query, &bounce, &mirror, 42, 0, Depth::Active(4)), 42);
    assert_eq!(trace(&query, &bounce, &mirror, 42, 0, Depth::start()), 42);
}
