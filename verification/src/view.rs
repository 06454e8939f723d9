//! The mapping between physical coordinates and screen coordinates: a uniform scale,
//! held exactly as a ratio, and an offset; fitting it to a set of bodies, and applying
//! it in both directions. Nothing is rounded on the way to the screen: a screen position
//! is held as a whole number of steps of the view's grid, of which there are twice the
//! scale's denominator to a screen unit.

use vstd::prelude::*;
use vstd::arithmetic::div_mod::lemma_div_multiples_vanish;
use crate::arith::{floor_div, narrow};
use crate::body::{models, Body, BodyModel, PLACE_LIMIT_MM};
use crate::error::SimError;
use crate::vector::{Point, Vec2, Wide};

verus! {

/// The greatest denominator of a scale.
pub const MAX_DEN: u64 = 0x2000_0000_0000_0000;

/// How far a coordinate of the centre of a view may lie from zero, in steps of its grid.
pub const CENTER_LIMIT: i128 = 0x2000_0000_0000_0000_0000_0000_0000_0000;

/// A positive rational number `num / den`: the model of a [`Scale`].
pub struct Ratio {
    pub num: int,
    pub den: int,
}

impl Ratio {
    /// Both parts are positive.
    pub open spec fn is_positive(self) -> bool {
        self.num > 0 && self.den > 0
    }
}

/// Screen units per millimetre, as the exact ratio of two positive whole numbers.
#[derive(Clone, Copy, Debug)]
pub struct Scale {
    num: u32,
    den: u64,
}

impl View for Scale {
    type V = Ratio;

    closed spec fn view(&self) -> Ratio {
        Ratio { num: self.num as int, den: self.den as int }
    }
}

impl Scale {
    #[verifier::type_invariant]
    spec fn inv(self) -> bool {
        self.num > 0 && 0 < self.den <= MAX_DEN
    }

    /// The scale `num / den`, if both parts are positive and the denominator is no
    /// greater than [`MAX_DEN`].
    pub fn new(num: u32, den: u64) -> (r: Option<Scale>)
        ensures
            r is Some <==> num > 0 && 0 < den <= MAX_DEN,
            r matches Some(s) ==> s@ == (Ratio { num: num as int, den: den as int }),
    {
        if num > 0 && den > 0 && den <= MAX_DEN {
            Some(Scale { num, den })
        } else {
            None
        }
    }

    /// The scale of one screen unit per millimetre.
    pub fn identity() -> (s: Scale)
        ensures
            s@ == (Ratio { num: 1, den: 1 }),
    {
        Scale { num: 1, den: 1 }
    }

    /// The numerator: screen units.
    pub fn num(&self) -> (n: u32)
        ensures
            n == self@.num,
            0 < n,
    {
        proof {
            use_type_invariant(self);
        }
        self.num
    }

    /// The denominator: millimetres.
    pub fn den(&self) -> (d: u64)
        ensures
            d == self@.den,
            0 < d <= MAX_DEN,
    {
        proof {
            use_type_invariant(self);
        }
        self.den
    }
}

/// The model of a [`SimulationView`]: the centre in steps of the grid.
pub struct ViewModel {
    pub center: Point,
    pub scale: Ratio,
}

impl ViewModel {
    /// The steps of the grid in one screen unit: twice the denominator of the scale, so
    /// that the middle between two scaled points is a whole number of steps.
    pub open spec fn grid(self) -> int {
        2 * self.scale.den
    }
}

/// A view of the simulation: physical coordinates are multiplied by the scale, and the
/// centre, a screen position in steps of the grid, is what then lands on the centre of
/// the viewport.
#[derive(Clone, Copy, Debug)]
pub struct SimulationView {
    center: Wide,
    scale: Scale,
}

impl View for SimulationView {
    type V = ViewModel;

    closed spec fn view(&self) -> ViewModel {
        ViewModel { center: self.center@, scale: self.scale@ }
    }
}

/// The centre lies within the limit along both axes.
pub open spec fn center_in_range(center: Point) -> bool {
    &&& -CENTER_LIMIT <= center.x <= CENTER_LIMIT
    &&& -CENTER_LIMIT <= center.y <= CENTER_LIMIT
}

impl SimulationView {
    #[verifier::type_invariant]
    spec fn inv(self) -> bool {
        center_in_range(self.center@)
    }

    /// The view with the given centre, in steps of the grid of `scale`, if the centre
    /// lies within [`CENTER_LIMIT`].
    pub fn new(center: Wide, scale: Scale) -> (r: Option<SimulationView>)
        ensures
            r is Some <==> center_in_range(center@),
            r matches Some(v) ==> v@ == (ViewModel { center: center@, scale: scale@ }),
    {
        if center.x < -CENTER_LIMIT || center.x > CENTER_LIMIT || center.y < -CENTER_LIMIT
            || center.y > CENTER_LIMIT {
            None
        } else {
            Some(SimulationView { center, scale })
        }
    }

    /// The centre, in steps of the grid.
    pub fn center(&self) -> (c: Wide)
        ensures
            c@ == self@.center,
            center_in_range(c@),
    {
        proof {
            use_type_invariant(self);
        }
        self.center
    }

    /// The scale.
    pub fn scale(&self) -> (s: Scale)
        ensures
            s@ == self@.scale,
            s@.is_positive(),
            s@.den <= MAX_DEN,
    {
        let s = self.scale;
        let n: u32 = s.num();
        let d: u64 = s.den();
        s
    }

    /// The whole screen unit in which a screen position lies, given in steps of the grid,
    /// if it can be represented.
    pub fn whole(&self, s: Wide) -> (r: Option<Vec2>)
        ensures
            r is Some <==> whole_units(s@, self@.grid()).fits(),
            r matches Some(w) ==> w@ == whole_units(s@, self@.grid()),
    {
        let grid: i128 = self.grid() as i128;
        match (narrow(floor_div(s.x, grid)), narrow(floor_div(s.y, grid))) {
            (Some(x), Some(y)) => Some(Vec2 { x, y }),
            _ => None,
        }
    }

    /// The whole screen unit `p` in steps of the grid.
    pub fn on_grid(&self, p: Vec2) -> (s: Wide)
        ensures
            s@ == (Point { x: p.x * self@.grid(), y: p.y * self@.grid() }),
            whole_units(s@, self@.grid()) == p@,
    {
        let grid: i128 = self.grid() as i128;
        assert(-0x2000_0000_0000_0000_0000_0000_0000_0000 <= p.x * grid
            <= 0x2000_0000_0000_0000_0000_0000_0000_0000
            && -0x2000_0000_0000_0000_0000_0000_0000_0000 <= p.y * grid
            <= 0x2000_0000_0000_0000_0000_0000_0000_0000) by (nonlinear_arith)
            requires
                -0x8000_0000_0000_0000 <= p.x <= 0x7fff_ffff_ffff_ffff,
                -0x8000_0000_0000_0000 <= p.y <= 0x7fff_ffff_ffff_ffff,
                0 < grid <= 0x4000_0000_0000_0000,
        ;
        proof {
            assert(p.x * grid == grid * p.x && p.y * grid == grid * p.y) by (nonlinear_arith);
            lemma_div_multiples_vanish(p.x as int, grid as int);
            lemma_div_multiples_vanish(p.y as int, grid as int);
        }
        Wide { x: p.x as i128 * grid, y: p.y as i128 * grid }
    }

    /// The steps of the grid in one screen unit.
    pub fn grid(&self) -> (g: u64)
        ensures
            g == self@.grid(),
            0 < g <= 2 * MAX_DEN,
    {
        2 * self.scale.den()
    }
}

/// Where the bodies are drawn, in millimetres, in their order.
pub open spec fn positions(bodies: Seq<BodyModel>) -> Seq<Point> {
    Seq::new(bodies.len(), |i: int| bodies[i].place())
}

/// The horizontal coordinates of the points, in their order.
pub open spec fn xs(points: Seq<Point>) -> Seq<int> {
    Seq::new(points.len(), |i: int| points[i].x)
}

/// The vertical coordinates of the points, in their order.
pub open spec fn ys(points: Seq<Point>) -> Seq<int> {
    Seq::new(points.len(), |i: int| points[i].y)
}

/// The largest uniform scale at which a box of extent `span_x` by `span_y` fits a screen
/// area of `usable_w` by `usable_h`. An axis along which the box has no extent sets no
/// limit; a box with no extent at all, or a screen area with no room, gives a scale of
/// one.
pub open spec fn fit_scale(usable_w: int, usable_h: int, span_x: int, span_y: int) -> Ratio {
    if usable_w <= 0 || usable_h <= 0 {
        Ratio { num: 1, den: 1 }
    } else if span_x > 0 && span_y > 0 {
        if usable_w * span_y <= usable_h * span_x {
            Ratio { num: usable_w, den: span_x }
        } else {
            Ratio { num: usable_h, den: span_y }
        }
    } else if span_x > 0 {
        Ratio { num: usable_w, den: span_x }
    } else if span_y > 0 {
        Ratio { num: usable_h, den: span_y }
    } else {
        Ratio { num: 1, den: 1 }
    }
}

/// The view that shows all of `points` in a viewport of `width` by `height`, leaving on
/// each side room for a disc of radius `body_radius` and a margin: the scale fits the
/// bounding box of the points to what is left, and the centre is the middle of the box
/// times the scale, exactly: in steps of the grid, the sum of the two ends of the box
/// times the numerator of the scale.
pub open spec fn fit(
    points: Seq<Point>,
    width: int,
    height: int,
    body_radius: int,
    margin: int,
) -> ViewModel {
    let inset = 2 * (body_radius + margin);
    let (min_x, max_x) = (xs(points).min(), xs(points).max());
    let (min_y, max_y) = (ys(points).min(), ys(points).max());
    let scale = fit_scale(width - inset, height - inset, max_x - min_x, max_y - min_y);
    ViewModel {
        center: Point { x: (min_x + max_x) * scale.num, y: (min_y + max_y) * scale.num },
        scale,
    }
}

/// Where the physical point `p` lands on a screen whose viewport is centred at the whole
/// screen unit `viewport_center`, in steps of the grid. The vertical axis is turned
/// over: physical `y` grows upwards, screen `y` downwards.
pub open spec fn project_point(view: ViewModel, viewport_center: Point, p: Point) -> Point {
    Point {
        x: viewport_center.x * view.grid() + (2 * p.x * view.scale.num - view.center.x),
        y: viewport_center.y * view.grid() - (2 * p.y * view.scale.num - view.center.y),
    }
}

/// The physical point, rounded down, that lands on the screen point `s`, given in steps
/// of the grid.
pub open spec fn unproject_point(view: ViewModel, viewport_center: Point, s: Point) -> Point {
    Point {
        x: (s.x - viewport_center.x * view.grid() + view.center.x) / (2 * view.scale.num),
        y: (viewport_center.y * view.grid() - s.y + view.center.y) / (2 * view.scale.num),
    }
}

/// The whole screen unit in which a screen position, given in steps of `grid`, lies.
pub open spec fn whole_units(s: Point, grid: int) -> Point {
    Point { x: s.x / grid, y: s.y / grid }
}

/// A bound on every projection, well within 128 bits.
pub open spec fn projection_in_range(s: Point) -> bool {
    &&& -0x5000_0000_0000_0000_0000_0000_0000_0000 <= s.x
        <= 0x5000_0000_0000_0000_0000_0000_0000_0000
    &&& -0x5000_0000_0000_0000_0000_0000_0000_0000 <= s.y
        <= 0x5000_0000_0000_0000_0000_0000_0000_0000
}

/// The bounding box of the places of the bodies: least and greatest horizontal
/// coordinate, then least and greatest vertical coordinate; all zero where there is no
/// body.
fn bounding_box(bodies: &Vec<Body>) -> (b: (i64, i64, i64, i64))
    ensures
        b.0 == xs(positions(models(bodies@))).min(),
        b.1 == xs(positions(models(bodies@))).max(),
        b.2 == ys(positions(models(bodies@))).min(),
        b.3 == ys(positions(models(bodies@))).max(),
        -PLACE_LIMIT_MM <= b.0 <= b.1 <= PLACE_LIMIT_MM,
        -PLACE_LIMIT_MM <= b.2 <= b.3 <= PLACE_LIMIT_MM,
{
    let ghost px = xs(positions(models(bodies@)));
    let ghost py = ys(positions(models(bodies@)));
    if bodies.len() == 0 {
        return (0, 0, 0, 0);
    }
    let first = bodies[0].place();
    let mut min_x: i64 = first.x;
    let mut max_x: i64 = first.x;
    let mut min_y: i64 = first.y;
    let mut max_y: i64 = first.y;
    let ghost mut at_min_x: int = 0;
    let ghost mut at_max_x: int = 0;
    let ghost mut at_min_y: int = 0;
    let ghost mut at_max_y: int = 0;
    let mut i: usize = 1;
    while i < bodies.len()
        invariant
            1 <= i <= bodies.len(),
            -PLACE_LIMIT_MM <= min_x <= max_x <= PLACE_LIMIT_MM,
            -PLACE_LIMIT_MM <= min_y <= max_y <= PLACE_LIMIT_MM,
            px == xs(positions(models(bodies@))),
            py == ys(positions(models(bodies@))),
            0 <= at_min_x < i && px[at_min_x] == min_x,
            0 <= at_max_x < i && px[at_max_x] == max_x,
            0 <= at_min_y < i && py[at_min_y] == min_y,
            0 <= at_max_y < i && py[at_max_y] == max_y,
            forall|j: int| 0 <= j < i ==> min_x <= #[trigger] px[j] <= max_x,
            forall|j: int| 0 <= j < i ==> min_y <= #[trigger] py[j] <= max_y,
        decreases bodies.len() - i,
    {
        let p = bodies[i].place();
        if p.x < min_x {
            min_x = p.x;
            proof {
                at_min_x = i as int;
            }
        }
        if p.x > max_x {
            max_x = p.x;
            proof {
                at_max_x = i as int;
            }
        }
        if p.y < min_y {
            min_y = p.y;
            proof {
                at_min_y = i as int;
            }
        }
        if p.y > max_y {
            max_y = p.y;
            proof {
                at_max_y = i as int;
            }
        }
        i += 1;
    }
    proof {
        px.min_ensures();
        px.max_ensures();
        py.min_ensures();
        py.max_ensures();
        let kx = choose|k: int| 0 <= k < px.len() && px[k] == px.min();
        let lx = choose|k: int| 0 <= k < px.len() && px[k] == px.max();
        let ky = choose|k: int| 0 <= k < py.len() && py[k] == py.min();
        let ly = choose|k: int| 0 <= k < py.len() && py[k] == py.max();
        assert(min_x <= px[kx] && px[lx] <= max_x);
        assert(min_y <= py[ky] && py[ly] <= max_y);
    }
    (min_x, max_x, min_y, max_y)
}

/// The two parts of the scale that [`fit_scale`] describes.
fn choose_scale(usable_w: i64, usable_h: i64, span_x: u64, span_y: u64) -> (s: (u32, u64))
    requires
        usable_w <= u32::MAX,
        usable_h <= u32::MAX,
    ensures
        (Ratio { num: s.0 as int, den: s.1 as int }) == fit_scale(
            usable_w as int,
            usable_h as int,
            span_x as int,
            span_y as int,
        ),
        s.0 > 0,
        s.1 > 0,
{
    if usable_w <= 0 || usable_h <= 0 {
        return (1, 1);
    }
    if span_x > 0 && span_y > 0 {
        assert(usable_w * span_y <= 0xffff_ffff_ffff_ffff_ffff_ffff && usable_h * span_x
            <= 0xffff_ffff_ffff_ffff_ffff_ffff) by (nonlinear_arith)
            requires
                0 < usable_w <= 0xffff_ffff,
                0 < usable_h <= 0xffff_ffff,
                span_x <= 0xffff_ffff_ffff_ffff,
                span_y <= 0xffff_ffff_ffff_ffff,
        ;
        if usable_w as u128 * span_y as u128 <= usable_h as u128 * span_x as u128 {
            (usable_w as u32, span_x)
        } else {
            (usable_h as u32, span_y)
        }
    } else if span_x > 0 {
        (usable_w as u32, span_x)
    } else if span_y > 0 {
        (usable_h as u32, span_y)
    } else {
        (1, 1)
    }
}

/// The view that shows all the bodies in a viewport of `width` by `height`, each as a
/// disc of radius `body_pixel_radius` with `margin_pixels` to spare: see [`fit`].
pub fn fit_view(
    bodies: &Vec<Body>,
    width: u32,
    height: u32,
    body_pixel_radius: u32,
    margin_pixels: u32,
) -> (v: SimulationView)
    ensures
        v@ == fit(
            positions(models(bodies@)),
            width as int,
            height as int,
            body_pixel_radius as int,
            margin_pixels as int,
        ),
{
    let (min_x, max_x, min_y, max_y) = bounding_box(bodies);
    proof {
        xs(positions(models(bodies@))).min_ensures();
        xs(positions(models(bodies@))).max_ensures();
        ys(positions(models(bodies@))).min_ensures();
        ys(positions(models(bodies@))).max_ensures();
    }
    let inset: i64 = 2 * (body_pixel_radius as i64 + margin_pixels as i64);
    let span_x: u64 = (max_x as i128 - min_x as i128) as u64;
    let span_y: u64 = (max_y as i128 - min_y as i128) as u64;
    let (num, den) = choose_scale(width as i64 - inset, height as i64 - inset, span_x, span_y);
    let sum_x: i128 = min_x as i128 + max_x as i128;
    let sum_y: i128 = min_y as i128 + max_y as i128;
    assert(-0x1_0000_0000_0000_0000_0000_0000 <= sum_x * num <= 0x1_0000_0000_0000_0000_0000_0000
        && -0x1_0000_0000_0000_0000_0000_0000 <= sum_y * num
        <= 0x1_0000_0000_0000_0000_0000_0000) by (nonlinear_arith)
        requires
            -0x1_0000_0000_0000_0000 <= sum_x <= 0x1_0000_0000_0000_0000,
            -0x1_0000_0000_0000_0000 <= sum_y <= 0x1_0000_0000_0000_0000,
            0 < num <= 0xffff_ffff,
    ;
    SimulationView {
        center: Wide { x: sum_x * num as i128, y: sum_y * num as i128 },
        scale: Scale { num, den },
    }
}

/// Where the physical point `position`, in millimetres, lands on the screen, in steps of
/// the grid of the view: see [`project_point`].
pub fn project(view: &SimulationView, viewport_center: Vec2, position: Vec2) -> (s: Wide)
    ensures
        s@ == project_point(view@, viewport_center@, position@),
        projection_in_range(s@),
{
    let num: i128 = view.scale().num() as i128;
    let grid: i128 = view.grid() as i128;
    let center = view.center();
    assert(-0x1_0000_0000_0000_0000_0000_0000 <= 2 * position.x * num
        <= 0x1_0000_0000_0000_0000_0000_0000 && -0x1_0000_0000_0000_0000_0000_0000 <= 2
        * position.y * num <= 0x1_0000_0000_0000_0000_0000_0000) by (nonlinear_arith)
        requires
            -0x8000_0000_0000_0000 <= position.x <= 0x7fff_ffff_ffff_ffff,
            -0x8000_0000_0000_0000 <= position.y <= 0x7fff_ffff_ffff_ffff,
            0 < num <= 0xffff_ffff,
    ;
    assert(-0x2000_0000_0000_0000_0000_0000_0000_0000 <= viewport_center.x * grid
        <= 0x2000_0000_0000_0000_0000_0000_0000_0000
        && -0x2000_0000_0000_0000_0000_0000_0000_0000 <= viewport_center.y * grid
        <= 0x2000_0000_0000_0000_0000_0000_0000_0000) by (nonlinear_arith)
        requires
            -0x8000_0000_0000_0000 <= viewport_center.x <= 0x7fff_ffff_ffff_ffff,
            -0x8000_0000_0000_0000 <= viewport_center.y <= 0x7fff_ffff_ffff_ffff,
            0 < grid <= 0x4000_0000_0000_0000,
    ;
    Wide {
        x: viewport_center.x as i128 * grid + (2 * position.x as i128 * num - center.x),
        y: viewport_center.y as i128 * grid - (2 * position.y as i128 * num - center.y),
    }
}

/// `x / d`, rounded down, if it is a 64-bit value, where `sum` is `x` unless `x` is
/// beyond 128 bits.
fn narrow_quotient(sum: Option<i128>, Ghost(x): Ghost<int>, d: u64) -> (r: Option<i64>)
    requires
        0 < d <= 0x2_0000_0000,
        sum matches Some(n) ==> n == x,
        sum is None ==> x > i128::MAX || x < i128::MIN,
    ensures
        r is Some <==> i64::MIN <= x / (d as int) <= i64::MAX,
        r matches Some(v) ==> v == x / (d as int),
{
    match sum {
        Some(n) => narrow(floor_div(n, d as i128)),
        None => {
            proof {
                let n = d as int;
                let q = x / n;
                let rem = x % n;
                assert(x == n * q + rem && 0 <= rem < n) by (nonlinear_arith)
                    requires
                        0 < n,
                        q == x / n,
                        rem == x % n,
                ;
                assert(!(i64::MIN <= q <= i64::MAX)) by (nonlinear_arith)
                    requires
                        x == n * q + rem,
                        0 <= rem < n,
                        0 < n <= 0x2_0000_0000,
                        x > 0x7fff_ffff_ffff_ffff_ffff_ffff_ffff_ffff || x
                            < -0x8000_0000_0000_0000_0000_0000_0000_0000,
                ;
            }
            None
        },
    }
}

/// The physical point, in millimetres and rounded down, that lands on the screen point
/// `screen`, given in steps of the grid of the view, if it can be represented: see
/// [`unproject_point`].
pub fn unproject(view: &SimulationView, viewport_center: Vec2, screen: Wide) -> (r: Result<
    Vec2,
    SimError,
>)
    ensures
        r is Ok <==> unproject_point(view@, viewport_center@, screen@).fits(),
        r matches Ok(p) ==> p@ == unproject_point(view@, viewport_center@, screen@),
        r matches Err(e) ==> e == SimError::OutOfRange,
{
    let twice: u64 = 2 * (view.scale().num() as u64);
    let grid: i128 = view.grid() as i128;
    let center = view.center();
    assert(-0x2000_0000_0000_0000_0000_0000_0000_0000 <= viewport_center.x * grid
        <= 0x2000_0000_0000_0000_0000_0000_0000_0000
        && -0x2000_0000_0000_0000_0000_0000_0000_0000 <= viewport_center.y * grid
        <= 0x2000_0000_0000_0000_0000_0000_0000_0000) by (nonlinear_arith)
        requires
            -0x8000_0000_0000_0000 <= viewport_center.x <= 0x7fff_ffff_ffff_ffff,
            -0x8000_0000_0000_0000 <= viewport_center.y <= 0x7fff_ffff_ffff_ffff,
            0 < grid <= 0x4000_0000_0000_0000,
    ;
    let vx: i128 = viewport_center.x as i128 * grid;
    let vy: i128 = viewport_center.y as i128 * grid;
    let x = narrow_quotient(
        screen.x.checked_add(center.x - vx),
        Ghost(screen.x - vx + center.x),
        twice,
    );
    let y = narrow_quotient(
        (vy + center.y).checked_sub(screen.y),
        Ghost(vy - screen.y + center.y),
        twice,
    );
    match (x, y) {
        (Some(x), Some(y)) => Ok(Vec2 { x, y }),
        _ => Err(SimError::OutOfRange),
    }
}

/// Projecting a physical point and taking the result back gives the point again,
/// exactly.
pub proof fn lemma_project_round_trip(view: ViewModel, viewport_center: Point, p: Point)
    requires
        view.scale.is_positive(),
    ensures
        unproject_point(view, viewport_center, project_point(view, viewport_center, p)) == p,
{
    let n = 2 * view.scale.num;
    assert(2 * p.x * view.scale.num == n * p.x && 2 * p.y * view.scale.num == n * p.y)
        by (nonlinear_arith)
        requires
            n == 2 * view.scale.num,
    ;
    lemma_div_multiples_vanish(p.x, n);
    lemma_div_multiples_vanish(p.y, n);
}

/// The fitted scale is a positive ratio at which the box fits the room along both axes.
proof fn lemma_fit_scale_fits(usable_w: int, usable_h: int, span_x: int, span_y: int)
    requires
        0 < usable_w,
        0 < usable_h,
        0 <= span_x,
        0 <= span_y,
    ensures
        fit_scale(usable_w, usable_h, span_x, span_y).is_positive(),
        fit_scale(usable_w, usable_h, span_x, span_y).num * span_x <= usable_w * fit_scale(
            usable_w,
            usable_h,
            span_x,
            span_y,
        ).den,
        fit_scale(usable_w, usable_h, span_x, span_y).num * span_y <= usable_h * fit_scale(
            usable_w,
            usable_h,
            span_x,
            span_y,
        ).den,
{
    let s = fit_scale(usable_w, usable_h, span_x, span_y);
    assert(s.num * span_x <= usable_w * s.den && s.num * span_y <= usable_h * s.den)
        by (nonlinear_arith)
        requires
            0 < usable_w,
            0 < usable_h,
            0 <= span_x,
            0 <= span_y,
            (s.num == usable_w && s.den == span_x && usable_w * span_y <= usable_h * span_x) || (
            s.num == usable_h && s.den == span_y && usable_w * span_y > usable_h * span_x) || (
            s.num == usable_w && s.den == span_x && span_y == 0) || (s.num == usable_h && s.den
                == span_y && span_x == 0) || (s.num == 1 && s.den == 1 && span_x == 0 && span_y
                == 0),
    ;
}

/// In the fitted view every point lands, along each axis, within half the room of the
/// centre of the viewport: a disc of the body radius round it is on the screen with the
/// margin to spare. In steps of the grid, of which there are `grid` to a unit: twice the
/// offset is no more than the room.
pub proof fn lemma_fit_shows_every_point(
    points: Seq<Point>,
    width: int,
    height: int,
    body_radius: int,
    margin: int,
    viewport_center: Point,
    i: int,
)
    requires
        0 <= i < points.len(),
        0 < width - 2 * (body_radius + margin),
        0 < height - 2 * (body_radius + margin),
    ensures
        ({
            let view = fit(points, width, height, body_radius, margin);
            let s = project_point(view, viewport_center, points[i]);
            let room_w = (width - 2 * (body_radius + margin)) * view.grid();
            let room_h = (height - 2 * (body_radius + margin)) * view.grid();
            &&& view.scale.is_positive()
            &&& -room_w <= 2 * (s.x - viewport_center.x * view.grid()) <= room_w
            &&& -room_h <= 2 * (s.y - viewport_center.y * view.grid()) <= room_h
        }),
{
    let inset = 2 * (body_radius + margin);
    let (min_x, max_x) = (xs(points).min(), xs(points).max());
    let (min_y, max_y) = (ys(points).min(), ys(points).max());
    xs(points).min_ensures();
    xs(points).max_ensures();
    ys(points).min_ensures();
    ys(points).max_ensures();
    assert(xs(points)[i] == points[i].x);
    assert(ys(points)[i] == points[i].y);
    lemma_fit_scale_fits(width - inset, height - inset, max_x - min_x, max_y - min_y);
    let scale = fit_scale(width - inset, height - inset, max_x - min_x, max_y - min_y);
    let (n, d) = (scale.num, scale.den);
    let (x, y) = (points[i].x, points[i].y);
    let (w, h) = (width - inset, height - inset);
    assert(-(w * (2 * d)) <= 2 * (2 * x * n - (min_x + max_x) * n) <= w * (2 * d))
        by (nonlinear_arith)
        requires
            min_x <= x <= max_x,
            0 < n,
            n * (max_x - min_x) <= w * d,
    ;
    assert(-(h * (2 * d)) <= 2 * (2 * y * n - (min_y + max_y) * n) <= h * (2 * d))
        by (nonlinear_arith)
        requires
            min_y <= y <= max_y,
            0 < n,
            n * (max_y - min_y) <= h * d,
    ;
}

/// A single point is fitted at a scale of one, with the view centred on it: a lone body
/// at the origin gives the identity view, with its centre at zero.
pub proof fn lemma_fit_single_point(
    p: Point,
    width: int,
    height: int,
    body_radius: int,
    margin: int,
)
    ensures
        fit(seq![p], width, height, body_radius, margin) == (ViewModel {
            center: Point { x: 2 * p.x, y: 2 * p.y },
            scale: Ratio { num: 1, den: 1 },
        }),
        project_point(fit(seq![p], width, height, body_radius, margin), Point { x: 0, y: 0 }, p)
            == (Point { x: 0, y: 0 }),
{
    let points = seq![p];
    assert(xs(points).len() == 1 && xs(points)[0] == p.x);
    assert(ys(points).len() == 1 && ys(points)[0] == p.y);
    assert(xs(points).min() == p.x && xs(points).max() == p.x);
    assert(ys(points).min() == p.y && ys(points).max() == p.y);
    assert((p.x + p.x) * 1 == 2 * p.x && (p.y + p.y) * 1 == 2 * p.y);
    assert(2 * p.x * 1 == 2 * p.x && 2 * p.y * 1 == 2 * p.y);
    let view = fit(points, width, height, body_radius, margin);
    assert(view.scale == Ratio { num: 1, den: 1 });
    assert(0 * view.grid() == 0) by (nonlinear_arith);
}

} // verus!
