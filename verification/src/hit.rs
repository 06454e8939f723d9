//! Finding the body under the pointer. Distances are compared exactly, on the grid of
//! the view that made the screen positions.

use vstd::prelude::*;
use crate::body::{models, Body};
use crate::selection::Selection;
use crate::vector::{Point, Vec2, Wide};
use crate::view::{
    positions, project, project_point, projection_in_range, SimulationView, ViewModel,
};

verus! {

/// The pointer, at the whole screen unit `pointer`, is closer than `reach` screen units
/// to `center`, a screen position in steps of `grid`: the distance is compared exactly,
/// by its square.
pub open spec fn within_reach(center: Point, grid: int, pointer: Point, reach: int) -> bool {
    (center.x - pointer.x * grid) * (center.x - pointer.x * grid) + (center.y - pointer.y
        * grid) * (center.y - pointer.y * grid) < (reach * grid) * (reach * grid)
}

/// `found` is the first of `centers`, in their order, that the pointer is within reach
/// of, or nothing where it is within reach of none.
pub open spec fn is_first_hit(
    centers: Seq<Point>,
    grid: int,
    pointer: Point,
    reach: int,
    found: Option<usize>,
) -> bool {
    match found {
        Some(i) => {
            &&& i < centers.len()
            &&& within_reach(centers[i as int], grid, pointer, reach)
            &&& forall|j: int|
                0 <= j < i ==> !within_reach(#[trigger] centers[j], grid, pointer, reach)
        },
        None => forall|j: int|
            0 <= j < centers.len() ==> !within_reach(#[trigger] centers[j], grid, pointer, reach),
    }
}

/// Where each of `points` lands on the screen, in steps of the grid of the view.
pub open spec fn projections(view: ViewModel, viewport_center: Point, points: Seq<Point>) -> Seq<
    Point,
> {
    Seq::new(points.len(), |i: int| project_point(view, viewport_center, points[i]))
}

/// The models of the vectors, in their order.
pub open spec fn points_of(vectors: Seq<Vec2>) -> Seq<Point> {
    Seq::new(vectors.len(), |i: int| vectors[i]@)
}

/// The comparison of a squared distance with a squared reach, taken apart so that no
/// number needs more than 128 bits: each offset is so many whole units `q` and a rest
/// `r` below the grid `g`.
proof fn lemma_reach_in_parts(ax: int, ay: int, g: int, reach: int, qx: int, rx: int, qy: int, ry: int)
    requires
        0 < g,
        0 <= reach,
        ax == g * qx + rx,
        ay == g * qy + ry,
        0 <= qx,
        0 <= qy,
        0 <= rx < g,
        0 <= ry < g,
    ensures
        qx * qx + qy * qy >= reach * reach ==> ax * ax + ay * ay >= (reach * g) * (reach * g),
        qx * qx + qy * qy < reach * reach ==> (ax * ax + ay * ay < (reach * g) * (reach * g) <==> 2
            * (qx * rx + qy * ry) + (rx * rx + ry * ry) / g < g * (reach * reach - (qx * qx + qy
            * qy))),
        2 * (qx * rx + qy * ry) + (rx * rx + ry * ry) / g < g * (2 * (qx + qy) + 2),
{
    let a = qx * qx + qy * qy;
    let rr = reach * reach;
    let b = qx * rx + qy * ry;
    let c = rx * rx + ry * ry;
    let gg = g * g;
    assert(ax * ax == gg * (qx * qx) + 2 * g * (qx * rx) + rx * rx) by (nonlinear_arith)
        requires
            ax == g * qx + rx,
            gg == g * g,
    ;
    assert(ay * ay == gg * (qy * qy) + 2 * g * (qy * ry) + ry * ry) by (nonlinear_arith)
        requires
            ay == g * qy + ry,
            gg == g * g,
    ;
    assert((reach * g) * (reach * g) == gg * rr) by (nonlinear_arith)
        requires
            gg == g * g,
            rr == reach * reach,
    ;
    assert(gg * a == gg * (qx * qx) + gg * (qy * qy)) by (nonlinear_arith)
        requires
            a == qx * qx + qy * qy,
    ;
    assert(2 * g * b == 2 * g * (qx * rx) + 2 * g * (qy * ry)) by (nonlinear_arith)
        requires
            b == qx * rx + qy * ry,
    ;
    let f = ax * ax + ay * ay;
    assert(f == gg * a + 2 * g * b + c);
    assert(0 <= b && 0 <= c && b <= (qx + qy) * (g - 1) && c <= 2 * ((g - 1) * (g - 1)))
        by (nonlinear_arith)
        requires
            b == qx * rx + qy * ry,
            c == rx * rx + ry * ry,
            0 <= qx,
            0 <= qy,
            0 <= rx < g,
            0 <= ry < g,
    ;
    let c1 = c / g;
    let c0 = c % g;
    assert(c == g * c1 + c0 && 0 <= c0 < g) by (nonlinear_arith)
        requires
            0 < g,
            c1 == c / g,
            c0 == c % g,
    ;
    assert(0 <= c1 < 2 * g) by (nonlinear_arith)
        requires
            c == g * c1 + c0,
            0 <= c0 < g,
            0 <= c <= 2 * ((g - 1) * (g - 1)),
            0 < g,
    ;
    assert(2 * b + c1 < g * (2 * (qx + qy) + 2)) by (nonlinear_arith)
        requires
            b <= (qx + qy) * (g - 1),
            c1 < 2 * g,
            0 <= qx,
            0 <= qy,
            0 < g,
    ;
    if a >= rr {
        assert(gg * a >= gg * rr) by (nonlinear_arith)
            requires
                a >= rr,
                gg == g * g,
        ;
        assert(2 * g * b >= 0) by (nonlinear_arith)
            requires
                0 <= b,
                0 < g,
        ;
    } else {
        let gap = rr - a;
        assert(gg * rr - gg * a == g * (g * gap)) by (nonlinear_arith)
            requires
                gap == rr - a,
                gg == g * g,
        ;
        assert(2 * g * b + c == g * (2 * b + c1) + c0) by (nonlinear_arith)
            requires
                c == g * c1 + c0,
        ;
        assert((g * (2 * b + c1) + c0 < g * (g * gap)) <==> (2 * b + c1 < g * gap))
            by (nonlinear_arith)
            requires
                0 <= c0 < g,
        ;
    }
}

/// Whether the pointer is within `reach` screen units of the screen position `c`, given
/// in steps of `grid`.
fn reaches(c: Wide, grid: u64, pointer: Vec2, reach: u64) -> (b: bool)
    requires
        projection_in_range(c@),
        0 < grid <= 0x4000_0000_0000_0000,
        reach <= 0x2_0000_0000,
    ensures
        b == within_reach(c@, grid as int, pointer@, reach as int),
{
    let g: i128 = grid as i128;
    assert(-0x2000_0000_0000_0000_0000_0000_0000_0000 <= pointer.x * g
        <= 0x2000_0000_0000_0000_0000_0000_0000_0000
        && -0x2000_0000_0000_0000_0000_0000_0000_0000 <= pointer.y * g
        <= 0x2000_0000_0000_0000_0000_0000_0000_0000 && 0 <= reach * g
        <= 0x8000_0000_0000_0000_0000_0000) by (nonlinear_arith)
        requires
            -0x8000_0000_0000_0000 <= pointer.x <= 0x7fff_ffff_ffff_ffff,
            -0x8000_0000_0000_0000 <= pointer.y <= 0x7fff_ffff_ffff_ffff,
            0 < g <= 0x4000_0000_0000_0000,
            0 <= reach <= 0x2_0000_0000,
    ;
    let dx: i128 = c.x - pointer.x as i128 * g;
    let dy: i128 = c.y - pointer.y as i128 * g;
    let far: i128 = reach as i128 * g;
    let ax: i128 = if dx < 0 {
        -dx
    } else {
        dx
    };
    let ay: i128 = if dy < 0 {
        -dy
    } else {
        dy
    };
    assert(ax * ax == dx * dx && ay * ay == dy * dy) by (nonlinear_arith)
        requires
            ax == dx || ax == -dx,
            ay == dy || ay == -dy,
    ;
    if ax >= far || ay >= far {
        assert(ax * ax + ay * ay >= far * far) by (nonlinear_arith)
            requires
                0 <= far,
                0 <= ax,
                0 <= ay,
                ax >= far || ay >= far,
        ;
        return false;
    }
    let qx: i128 = ax / g;
    let rx: i128 = ax % g;
    let qy: i128 = ay / g;
    let ry: i128 = ay % g;
    let r: i128 = reach as i128;
    proof {
        assert(ax == g * qx + rx && ay == g * qy + ry && 0 <= qx < r && 0 <= qy < r)
            by (nonlinear_arith)
            requires
                0 < g,
                qx == ax / g,
                rx == ax % g,
                qy == ay / g,
                ry == ay % g,
                0 <= ax < r * g,
                0 <= ay < r * g,
        ;
        lemma_reach_in_parts(
            ax as int,
            ay as int,
            g as int,
            r as int,
            qx as int,
            rx as int,
            qy as int,
            ry as int,
        );
        assert(0 <= qx * qx <= 0x4_0000_0000_0000_0000 && 0 <= qy * qy <= 0x4_0000_0000_0000_0000
            && 0 <= r * r <= 0x4_0000_0000_0000_0000) by (nonlinear_arith)
            requires
                0 <= qx < r,
                0 <= qy < r,
                r <= 0x2_0000_0000,
        ;
        assert(0 <= qx * rx <= 0x8000_0000_0000_0000_0000_0000 && 0 <= qy * ry
            <= 0x8000_0000_0000_0000_0000_0000 && 0 <= rx * rx
            <= 0x1000_0000_0000_0000_0000_0000_0000_0000 && 0 <= ry * ry
            <= 0x1000_0000_0000_0000_0000_0000_0000_0000) by (nonlinear_arith)
            requires
                0 <= qx < 0x2_0000_0000,
                0 <= qy < 0x2_0000_0000,
                0 <= rx < g,
                0 <= ry < g,
                g <= 0x4000_0000_0000_0000,
        ;
    }
    let a: i128 = qx * qx + qy * qy;
    let rr: i128 = r * r;
    if a >= rr {
        return false;
    }
    let gap: i128 = rr - a;
    if gap >= 2 * (qx + qy) + 2 {
        assert(g * (2 * (qx + qy) + 2) <= g * gap) by (nonlinear_arith)
            requires
                0 < g,
                2 * (qx + qy) + 2 <= gap,
        ;
        return true;
    }
    assert(0 <= g * gap <= 0x10_0000_0000_0000_0000_0000_0000) by (nonlinear_arith)
        requires
            0 < g <= 0x4000_0000_0000_0000,
            0 < gap < 0x10_0000_0000,
    ;
    2 * (qx * rx + qy * ry) + (rx * rx + ry * ry) / g < g * gap
}

/// The first body, in the order of `bodies`, whose projected centre is closer to the
/// pointer than `body_pixel_radius + tolerance_pixels`; nothing where there is no
/// pointer position or no such body. The centres are where [`project`] puts them,
/// unrounded.
pub fn hit_test(
    bodies: &Vec<Body>,
    view: &SimulationView,
    viewport_center: Vec2,
    pointer: Option<Vec2>,
    body_pixel_radius: u32,
    tolerance_pixels: u32,
) -> (found: Option<usize>)
    ensures
        pointer is None ==> found is None,
        pointer matches Some(p) ==> is_first_hit(
            projections(view@, viewport_center@, positions(models(bodies@))),
            view@.grid(),
            p@,
            body_pixel_radius + tolerance_pixels,
            found,
        ),
{
    let p = match pointer {
        Some(p) => p,
        None => {
            return None;
        },
    };
    let reach: u64 = body_pixel_radius as u64 + tolerance_pixels as u64;
    let grid: u64 = view.grid();
    let ghost centers = projections(view@, viewport_center@, positions(models(bodies@)));
    let mut i: usize = 0;
    while i < bodies.len()
        invariant
            i <= bodies.len(),
            pointer == Some(p),
            reach == body_pixel_radius + tolerance_pixels,
            grid == view@.grid(),
            0 < grid <= 0x4000_0000_0000_0000,
            centers == projections(view@, viewport_center@, positions(models(bodies@))),
            forall|j: int|
                0 <= j < i ==> !within_reach(#[trigger] centers[j], grid as int, p@, reach as int),
        decreases bodies.len() - i,
    {
        let c = project(view, viewport_center, bodies[i].place());
        if reaches(c, grid, p, reach) {
            return Some(i);
        }
        i += 1;
    }
    None
}

/// The first of `centers`, whole screen units in their order, that is closer to the
/// pointer than `body_pixel_radius + tolerance_pixels`; nothing where there is no
/// pointer position or no such centre.
pub fn first_hit(
    centers: &Vec<Vec2>,
    pointer: Option<Vec2>,
    body_pixel_radius: u32,
    tolerance_pixels: u32,
) -> (found: Option<usize>)
    ensures
        pointer is None ==> found is None,
        pointer matches Some(p) ==> is_first_hit(
            points_of(centers@),
            1,
            p@,
            body_pixel_radius + tolerance_pixels,
            found,
        ),
{
    let p = match pointer {
        Some(p) => p,
        None => {
            return None;
        },
    };
    let reach: u64 = body_pixel_radius as u64 + tolerance_pixels as u64;
    let mut i: usize = 0;
    while i < centers.len()
        invariant
            i <= centers.len(),
            pointer == Some(p),
            reach == body_pixel_radius + tolerance_pixels,
            forall|j: int|
                0 <= j < i ==> !within_reach(
                    #[trigger] points_of(centers@)[j],
                    1,
                    p@,
                    reach as int,
                ),
        decreases centers.len() - i,
    {
        let c = centers[i];
        if reaches(Wide { x: c.x as i128, y: c.y as i128 }, 1, p, reach) {
            return Some(i);
        }
        i += 1;
    }
    None
}

/// A pointer that stands exactly on a centre hits something whenever the reach is
/// positive: that centre, unless an earlier one is within reach too, which then wins.
pub proof fn lemma_hit_at_center(
    centers: Seq<Point>,
    grid: int,
    pointer: Point,
    i: int,
    reach: int,
    found: Option<usize>,
)
    requires
        0 <= i < centers.len(),
        0 < grid,
        0 < reach,
        centers[i] == (Point { x: pointer.x * grid, y: pointer.y * grid }),
        is_first_hit(centers, grid, pointer, reach, found),
    ensures
        found is Some,
        found->0 <= i,
        (forall|j: int| 0 <= j < i ==> !within_reach(#[trigger] centers[j], grid, pointer, reach))
            ==> found == Some(i as usize),
{
    assert(within_reach(centers[i], grid, pointer, reach)) by (nonlinear_arith)
        requires
            0 < reach,
            0 < grid,
            centers[i] == (Point { x: pointer.x * grid, y: pointer.y * grid }),
    ;
}

/// A pointer that is no closer than the reach to any centre hits nothing, and a press
/// there leaves nothing selected.
pub proof fn lemma_miss_when_far(
    centers: Seq<Point>,
    grid: int,
    pointer: Point,
    reach: int,
    found: Option<usize>,
)
    requires
        is_first_hit(centers, grid, pointer, reach, found),
        forall|j: int|
            0 <= j < centers.len() ==> !within_reach(#[trigger] centers[j], grid, pointer, reach),
    ensures
        found is None,
        Selection::of_hit(found) == Selection::Unselected,
{
}

} // verus!
