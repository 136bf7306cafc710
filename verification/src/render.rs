use vstd::prelude::*;

verus! {

/// What tracing a ray one bounce further finds, once the world and the
/// material that was hit have been asked.
#[derive(Clone, Copy, Debug, PartialEq, Eq, Structural)]
pub enum PathEvent {
    /// The ray leaves the scene.
    Miss,
    /// The ray hits a surface that does not scatter it.
    Absorbed,
    /// The surface reflects or refracts the ray in one direction.
    Specular,
    /// The surface scatters the ray diffusely.
    Diffuse,
}

/// How the colour carried by a ray is made up.
#[derive(Clone, Copy, Debug, PartialEq, Eq, Structural)]
pub enum PathAction {
    /// Black: the bounce budget is spent.
    Black,
    /// The background colour.
    Background,
    /// The light emitted at the hit point, nothing more.
    Emitted,
    /// The attenuation times the colour of the specular ray, traced with the
    /// given remaining depth; emission at the hit point is not added.
    FollowSpecular(i32),
    /// The emitted light plus the colour of a ray sampled from the mixture of
    /// the light and surface densities, traced with the given remaining depth,
    /// weighted by attenuation and the ratio of scattering to sampling density.
    FollowDiffuse(i32),
}

/// Whether a ray with `depth` bounces left is traced at all.
pub open spec fn spec_traces(depth: int) -> bool {
    depth > 0
}

/// The colour rule for a ray with `depth` bounces left after the event `ev`.
pub open spec fn spec_decide(depth: int, ev: PathEvent) -> PathAction {
    if depth <= 0 {
        PathAction::Black
    } else {
        match ev {
            PathEvent::Miss => PathAction::Background,
            PathEvent::Absorbed => PathAction::Emitted,
            PathEvent::Specular => PathAction::FollowSpecular((depth - 1) as i32),
            PathEvent::Diffuse => PathAction::FollowDiffuse((depth - 1) as i32),
        }
    }
}

/// The depth with which a follow-up ray is traced, if the action asks for one.
pub open spec fn follow_depth(a: PathAction) -> Option<int> {
    match a {
        PathAction::FollowSpecular(d) => Some(d as int),
        PathAction::FollowDiffuse(d) => Some(d as int),
        _ => None,
    }
}

/// Whether a ray with `depth` bounces left is traced, that is whether the
/// world is asked what it hits; otherwise its colour is black.
pub fn traces(depth: i32) -> (r: bool)
    ensures
        r == spec_traces(depth as int),
        r == (depth > 0),
{
    depth > 0
}

/// How the colour of a ray with `depth` bounces left is made up, given what
/// the ray met.
pub fn decide(depth: i32, ev: PathEvent) -> (r: PathAction)
    ensures
        r == spec_decide(depth as int, ev),
        depth <= 0 ==> r == PathAction::Black,
        depth > 0 && ev == PathEvent::Miss ==> r == PathAction::Background,
        depth > 0 && ev == PathEvent::Absorbed ==> r == PathAction::Emitted,
        depth > 0 && ev == PathEvent::Specular ==> r == PathAction::FollowSpecular(
            (depth - 1) as i32,
        ),
        depth > 0 && ev == PathEvent::Diffuse ==> r == PathAction::FollowDiffuse(
            (depth - 1) as i32,
        ),
{
    if depth <= 0 {
        PathAction::Black
    } else {
        match ev {
            PathEvent::Miss => PathAction::Background,
            PathEvent::Absorbed => PathAction::Emitted,
            PathEvent::Specular => PathAction::FollowSpecular(depth - 1),
            PathEvent::Diffuse => PathAction::FollowDiffuse(depth - 1),
        }
    }
}

/// How many times the world is asked when a ray starts with `depth` bounces
/// left and the successive queries meet the events `evs`.
pub open spec fn queries(depth: int, evs: Seq<PathEvent>) -> nat
    decreases evs.len(),
{
    if !spec_traces(depth) || evs.len() == 0 {
        0
    } else {
        match follow_depth(spec_decide(depth, evs[0])) {
            Some(d) => 1 + queries(d, evs.drop_first()),
            None => 1,
        }
    }
}

/// A ray is traced exactly when it has a bounce left, however large its budget.
pub proof fn lemma_traces_iff_budget_left(depth: int)
    ensures
        spec_traces(depth) <==> depth > 0,
{
}

/// The path-tracing rule. With no bounce left the colour is black, whatever
/// the ray would meet. With at least one left: a miss gives the background,
/// a hit that does not scatter gives the emitted light, and a scattering hit
/// follows one ray (specular or diffuse) with exactly one bounce fewer.
pub proof fn lemma_decide_rule(depth: i32, ev: PathEvent)
    ensures
        depth <= 0 ==> spec_decide(depth as int, ev) == PathAction::Black,
        depth > 0 ==> spec_decide(depth as int, ev) == match ev {
            PathEvent::Miss => PathAction::Background,
            PathEvent::Absorbed => PathAction::Emitted,
            PathEvent::Specular => PathAction::FollowSpecular((depth - 1) as i32),
            PathEvent::Diffuse => PathAction::FollowDiffuse((depth - 1) as i32),
        },
{
}

/// Once a ray is traced, the kind of action taken depends only on what it
/// met, not on how many bounces are left: two traced rays that meet a miss,
/// or a non-scattering hit, are coloured by the same rule, and two traced
/// rays that scatter the same way follow rays whose budgets differ by exactly
/// as much as theirs.
pub proof fn lemma_decide_same_rule_at_every_depth(d1: i32, d2: i32, ev: PathEvent)
    requires
        d1 > 0,
        d2 > 0,
    ensures
        (ev == PathEvent::Miss || ev == PathEvent::Absorbed) ==> spec_decide(d1 as int, ev)
            == spec_decide(d2 as int, ev),
        spec_decide(d1 as int, ev) != PathAction::Black,
        ev == PathEvent::Absorbed ==> spec_decide(d1 as int, ev) == PathAction::Emitted,
        ev == PathEvent::Miss ==> spec_decide(d1 as int, ev) == PathAction::Background,
        follow_depth(spec_decide(d1 as int, ev)) matches Some(a) ==> follow_depth(
            spec_decide(d2 as int, ev),
        ) matches Some(b) && a - b == d1 - d2,
{
}

/// A follow-up ray always has one bounce fewer, and never a negative budget.
pub proof fn lemma_follow_depth_decreases(depth: i32, ev: PathEvent)
    ensures
        follow_depth(spec_decide(depth as int, ev)) matches Some(d) ==> d == depth - 1 && 0 <= d,
{
}

/// Whatever the rays meet, a ray started with `depth` bounces makes at most
/// `depth` queries of the world (none when `depth <= 0`): tracing ends.
pub proof fn lemma_queries_bounded(depth: i32, evs: Seq<PathEvent>)
    ensures
        queries(depth as int, evs) <= (if depth > 0 {
            depth as int
        } else {
            0
        }),
    decreases evs.len(),
{
    if spec_traces(depth as int) && evs.len() > 0 {
        match follow_depth(spec_decide(depth as int, evs[0])) {
            Some(d) => {
                assert(d == depth - 1);
                lemma_queries_bounded((depth - 1) as i32, evs.drop_first());
            },
            None => {},
        }
    }
}

/// The image row that receives the pixel `y` counted from the bottom:
/// images are stored top row first.
pub open spec fn spec_image_row(height: int, y: int) -> int {
    height - 1 - y
}

/// The image row (top row first) of the pixel in row `y` counted from the bottom.
pub fn image_row(height: u32, y: u32) -> (r: u32)
    requires
        y < height,
    ensures
        r == spec_image_row(height as int, y as int),
        r == height - 1 - y,
        r + y == height - 1,
{
    height - 1 - y
}

/// Rows are flipped one to one: every row of the image is in range and
/// receives exactly one row of the rendering.
pub proof fn lemma_image_row_flip(height: int, y: int)
    requires
        0 <= y < height,
    ensures
        0 <= spec_image_row(height, y) < height,
        spec_image_row(height, spec_image_row(height, y)) == y,
{
}

/// The flip puts a pixel as far from the top as it was from the bottom: its
/// row and its distance from the bottom add up to the last row, so the bottom
/// row lands last and the top row first, for every height.
pub proof fn lemma_image_row_mirrors(height: int, y: int)
    requires
        0 <= y < height,
    ensures
        spec_image_row(height, y) + y == height - 1,
        spec_image_row(height, 0) == height - 1,
        spec_image_row(height, height - 1) == 0,
        y + 1 < height ==> spec_image_row(height, y + 1) == spec_image_row(height, y) - 1,
{
}

} // verus!
