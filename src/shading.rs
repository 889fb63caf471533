//! The recursion of the shading evaluator, apart from its arithmetic.
//!
//! A call at an exhausted depth returns the background color without querying
//! the scene. An active call queries the scene along its ray; on a miss it
//! returns the background, on a hit it traces the reflected ray one level
//! deeper and shades the hit with the color that came back.
use vstd::prelude::*;
use crate::depth::{Depth, MAX_DEPTH};

verus! {

/// `r` is a color that tracing `ray` at `depth` can return: the background
/// at an exhausted depth or on a miss; on a hit `h`, what `shade` returns for
/// `h` and a color that tracing the ray `bounce` gives for `h` can return one
/// level deeper.
pub open spec fn traced<R, H, C, Q: Fn(R) -> Option<H>, B: Fn(H) -> R, S: Fn(H, C) -> C>(
    query: Q,
    bounce: B,
    shade: S,
    background: C,
    ray: R,
    depth: Depth,
    r: C,
) -> bool
    decreases depth.remaining(),
{
    match depth {
        Depth::Exhausted => r == background,
        Depth::Active(_) => exists|o: Option<H>|
            {
                &&& #[trigger] query.ensures((ray,), o)
                &&& o is None ==> r == background
                &&& o is Some ==> exists|next_ray: R, c: C|
                    {
                        &&& #[trigger] bounce.ensures((o->Some_0,), next_ray)
                        &&& traced(query, bounce, shade, background, next_ray, depth.next_spec(), c)
                        &&& #[trigger] shade.ensures((o->Some_0, c), r)
                    }
            },
    }
}

/// Traces `ray` at `depth`. `query` finds the nearest hit along a ray,
/// `bounce` gives the reflected ray leaving a hit, and `shade` combines a hit
/// with the color seen along its reflected ray.
pub fn trace<R: Copy, H: Copy, C: Copy, Q: Fn(R) -> Option<H>, B: Fn(H) -> R, S: Fn(H, C) -> C>(
    query: &Q,
    bounce: &B,
    shade: &S,
    background: C,
    ray: R,
    depth: Depth,
) -> (r: C)
    requires
        depth.wf(),
        forall|x: R| #[trigger] query.requires((x,)),
        forall|h: H| #[trigger] bounce.requires((h,)),
        forall|h: H, c: C| #[trigger] shade.requires((h, c)),
    ensures
        traced(*query, *bounce, *shade, background, ray, depth, r),
        depth is Exhausted ==> r == background,
        (forall|x: R, o: Option<H>| #[trigger] query.ensures((x,), o) ==> o is None) ==> r
            == background,
    decreases depth.remaining(),
{
    if !depth.is_active() {
        return background;
    }
    let found = query(ray);
    match found {
        None => background,
        Some(hit) => {
            let reflected = bounce(hit);
            let next = depth.next();
            let reflect_color = trace(query, bounce, shade, background, reflected, next);
            let r = shade(hit, reflect_color);
            assert(bounce.ensures((found->Some_0,), reflected));
            assert(shade.ensures((found->Some_0, reflect_color), r));
            assert(query.ensures((ray,), found));
            r
        },
    }
}

/// A surface that only passes on its reflected color, hit at the last active
/// depth, shows the background: its reflected ray is traced at an exhausted
/// depth.
pub proof fn lemma_mirror_at_last_depth<R, H, C, Q: Fn(R) -> Option<H>, B: Fn(H) -> R, S: Fn(
    H,
    C,
) -> C>(query: Q, bounce: B, shade: S, background: C, ray: R, r: C)
    requires
        traced(query, bounce, shade, background, ray, Depth::Active(MAX_DEPTH), r),
        forall|h: H, c: C, out: C| #[trigger] shade.ensures((h, c), out) ==> out == c,
    ensures
        r == background,
{
    let o = choose|o: Option<H>|
        {
            &&& #[trigger] query.ensures((ray,), o)
            &&& o is None ==> r == background
            &&& o is Some ==> exists|next_ray: R, c: C|
                {
                    &&& #[trigger] bounce.ensures((o->Some_0,), next_ray)
                    &&& traced(query, bounce, shade, background, next_ray, Depth::Exhausted, c)
                    &&& #[trigger] shade.ensures((o->Some_0, c), r)
                }
        };
    assert(Depth::Active(MAX_DEPTH).next_spec() == Depth::Exhausted);
    if o is Some {
        let (next_ray, c) = choose|next_ray: R, c: C|
            {
                &&& #[trigger] bounce.ensures((o->Some_0,), next_ray)
                &&& traced(query, bounce, shade, background, next_ray, Depth::Exhausted, c)
                &&& #[trigger] shade.ensures((o->Some_0, c), r)
            };
        assert(c == background);
    }
}

} // verus!
