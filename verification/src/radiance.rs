//! When a light path goes on and how it ends.

use vstd::prelude::*;
use crate::hit::Contact;
use crate::hit::HitRecord;
use crate::hittable_list::counted;
use crate::hittable_list::lemma_nearest_exists;
use crate::hittable_list::nearest_hit;
use crate::scalar::Scalar;
use crate::scalar::HALF_BITS;
use crate::scalar::ONE_BITS;
use crate::scalar::Vec3;
use crate::sphere::Sphere;

verus! {

/// The number of bounces after which a path is given up.
pub const MAX_DEPTH: u32 = 50;

/// The bit pattern of `0.001`: a hit nearer than this is the surface that
/// the ray has just left.
pub const T_MIN_BITS: u32 = 0x3A83_126F;

/// The bit pattern of the largest finite number: no hit is too far.
pub const T_MAX_BITS: u32 = 0x7F7F_FFFF;

/// The bit pattern of `0.7`, to single precision.
pub const SEVEN_TENTHS_BITS: u32 = 0x3F33_3333;

/// What a path does once the scene has told what its ray hits.
#[derive(Clone, Copy, Debug)]
pub enum Verdict {
    /// The ray leaves the scene: the path ends with the colour of the sky.
    Sky,
    /// The path ends without light.
    Black,
    /// The material of `record` decides how the path goes on, `deeper`
    /// being the depth of the ray that leaves it.
    Scatter { record: HitRecord, deeper: u32 },
}

/// The verdict on a ray at `depth` whose nearest hit is `nearest`.
///
/// A ray that hits nothing sees the sky. One that hits a surface is
/// scattered as long as fewer than `max_depth` bounces lie behind it, and
/// is black after that.
pub open spec fn spec_color(nearest: Option<HitRecord>, depth: u32, max_depth: u32) -> Verdict {
    match nearest {
        None => Verdict::Sky,
        Some(record) => if depth < max_depth {
            Verdict::Scatter { record, deeper: (depth + 1) as u32 }
        } else {
            Verdict::Black
        },
    }
}

/// Decides how the path of a ray at `depth` goes on, given its nearest hit.
pub fn color(nearest: Option<HitRecord>, depth: u32, max_depth: u32) -> (verdict: Verdict)
    ensures
        verdict == spec_color(nearest, depth, max_depth),
        verdict matches Verdict::Scatter { deeper, .. } ==> deeper == depth + 1 && deeper
            <= max_depth,
{
    match nearest {
        None => Verdict::Sky,
        Some(record) => if depth < max_depth {
            Verdict::Scatter { record, deeper: depth + 1 }
        } else {
            Verdict::Black
        },
    }
}

/// The window of distances in which a path looks for hits: from `0.001`
/// to the largest finite number, both excluded.
pub fn window() -> (r: (Scalar, Scalar))
    ensures
        r.0.bits == T_MIN_BITS,
        r.1.bits == T_MAX_BITS,
        r.0.positive(),
        r.0.less(r.1),
{
    (Scalar::from_bits(T_MIN_BITS), Scalar::from_bits(T_MAX_BITS))
}

/// The colour of the sky straight below: white.
pub fn horizon_color() -> (r: Vec3)
    ensures
        r == Vec3::spec_splat(Scalar::spec_one()),
{
    Vec3::ones()
}

/// The colour of the sky straight above: `(0.5, 0.7, 1.0)`.
pub fn zenith_color() -> (r: Vec3)
    ensures
        r == Vec3::spec_from_bits(HALF_BITS, SEVEN_TENTHS_BITS, ONE_BITS),
{
    Vec3::from_bits(HALF_BITS, SEVEN_TENTHS_BITS, ONE_BITS)
}

/// What one ray of a path meets: its nearest hit, and whether the material
/// there scatters it.
#[derive(Clone, Copy, Debug)]
pub struct Event {
    pub nearest: Option<HitRecord>,
    pub scatters: bool,
}

/// How a path ends.
#[derive(Clone, Copy, Debug, PartialEq, Eq, Structural)]
pub enum End {
    Sky,
    Black,
}

/// The length of the path that starts at `depth` and meets `events` in
/// turn, in bounces, and its end; `None` where the events run out first.
pub open spec fn run(events: Seq<Event>, depth: u32, max_depth: u32) -> (nat, Option<End>)
    decreases events.len(),
{
    if events.len() == 0 {
        (0, None)
    } else {
        match spec_color(events[0].nearest, depth, max_depth) {
            Verdict::Sky => (0, Some(End::Sky)),
            Verdict::Black => (0, Some(End::Black)),
            Verdict::Scatter { deeper, .. } => if events[0].scatters {
                let rest = run(events.drop_first(), deeper, max_depth);
                (rest.0 + 1, rest.1)
            } else {
                (0, Some(End::Black))
            },
        }
    }
}

/// Every ray of `events` hits a surface that scatters it, as inside a
/// closed mirror.
pub open spec fn all_scatter(events: Seq<Event>) -> bool {
    forall|i: int|
        0 <= i < events.len() ==> (#[trigger] events[i]).nearest is Some && events[i].scatters
}

/// No path makes more bounces than the depth limit leaves it, and none
/// looks at more rays than one more than that.
pub proof fn lemma_path_is_bounded(events: Seq<Event>, depth: u32, max_depth: u32)
    requires
        depth <= max_depth,
    ensures
        run(events, depth, max_depth).0 <= max_depth - depth,
        events.len() > max_depth - depth ==> run(events, depth, max_depth).1 is Some,
    decreases events.len(),
{
    if events.len() > 0 && depth < max_depth {
        lemma_path_is_bounded(events.drop_first(), (depth + 1) as u32, max_depth);
    }
}

/// Inside a closed mirror a path makes exactly as many bounces as the
/// depth limit leaves it, and then ends black.
pub proof fn lemma_mirrored_path_ends(events: Seq<Event>, depth: u32, max_depth: u32)
    requires
        depth <= max_depth,
        all_scatter(events),
        events.len() > max_depth - depth,
    ensures
        run(events, depth, max_depth) == ((max_depth - depth) as nat, Some(End::Black)),
    decreases events.len(),
{
    assert(events[0].nearest is Some && events[0].scatters);
    if depth < max_depth {
        let rest = events.drop_first();
        assert forall|i: int| 0 <= i < rest.len() implies (#[trigger] rest[i]).nearest is Some
            && rest[i].scatters by {
            assert(rest[i] == events[i + 1]);
        }
        lemma_mirrored_path_ends(rest, (depth + 1) as u32, max_depth);
    }
}

/// In a scene without spheres every ray sees the sky, whatever its depth.
pub proof fn lemma_empty_scene_shows_sky(
    spheres: Seq<Sphere>,
    found: Seq<Option<Contact>>,
    depth: u32,
    max_depth: u32,
)
    requires
        spheres.len() == 0,
    ensures
        nearest_hit(spheres, found) is None,
        spec_color(nearest_hit(spheres, found), depth, max_depth) == Verdict::Sky,
        forall|events: Seq<Event>|
            events.len() > 0 && events[0].nearest == nearest_hit(spheres, found) ==> #[trigger] run(
                events,
                depth,
                max_depth,
            ) == (0nat, Some(End::Sky)),
{
    lemma_nearest_exists(counted(spheres, found));
}

} // verus!
