//! What is drawn for the bodies: the decisions, as a list of commands for whoever holds
//! the canvas.

use vstd::prelude::*;
use crate::arith::{floor_sqrt, isqrt};
use crate::body::{models, Body, BodyModel, Color};
use crate::error::SimError;
use crate::vector::{dot, Point, Vec2};

verus! {

/// Width of the outline of a highlighted body, in screen units.
pub const HIGHLIGHT_RADIUS: u32 = 2;

/// The free space between a body's outline and its label, in screen units.
pub const LABEL_GAP: u32 = 3;

/// Stroke width of a highlighted outline, in tenths of a screen unit.
pub const HIGHLIGHT_WIDTH_TENTHS: u32 = 20;

/// Stroke width of a plain outline and of an orbit ring, in tenths of a screen unit.
pub const THIN_WIDTH_TENTHS: u32 = 5;

/// Font size of the label of a highlighted body.
pub const HIGHLIGHT_LABEL_SIZE: u32 = 16;

/// Font size of a plain label.
pub const LABEL_SIZE: u32 = 12;

/// Distance between the dots of an orbit ring, in screen units.
pub const ORBIT_DOT_SPACING: u32 = 4;

/// Colour of the outline and label of a body: white where it is highlighted, else a
/// light gray.
pub open spec fn outline_color(highlighted: bool) -> Color {
    if highlighted {
        Color { r: 255, g: 255, b: 255, a: 255 }
    } else {
        Color { r: 220, g: 220, b: 220, a: 255 }
    }
}

/// One thing to draw.
#[derive(Debug, PartialEq, Eq)]
pub enum DrawCommand {
    /// A filled disc of `radius` screen units at the physical point `position`, in
    /// millimetres.
    Marker { position: Vec2, radius: u32, color: Color, name: String },
    /// A dotted circle of `radius_mm` millimetres round the origin of physical space.
    OrbitRing { radius_mm: u64, spacing: u32, width_tenths: u32, color: Color },
    /// A stroked circle round the screen point `center`.
    Circle { center: Vec2, radius: u32, width_tenths: u32, color: Color },
    /// A line of text whose left edge, at half its height, is the screen point `pos`.
    Text { pos: Vec2, text: String, size: u32, color: Color },
}

/// The model of a [`DrawCommand`].
pub enum DrawModel {
    Marker { position: Vec2, radius: u32, color: Color, name: Seq<char> },
    OrbitRing { radius_mm: u64, spacing: u32, width_tenths: u32, color: Color },
    Circle { center: Vec2, radius: u32, width_tenths: u32, color: Color },
    Text { pos: Vec2, text: Seq<char>, size: u32, color: Color },
}

impl View for DrawCommand {
    type V = DrawModel;

    open spec fn view(&self) -> DrawModel {
        match *self {
            DrawCommand::Marker { position, radius, color, name } => DrawModel::Marker {
                position,
                radius,
                color,
                name: name@,
            },
            DrawCommand::OrbitRing { radius_mm, spacing, width_tenths, color } => DrawModel::OrbitRing {
                radius_mm,
                spacing,
                width_tenths,
                color,
            },
            DrawCommand::Circle { center, radius, width_tenths, color } => DrawModel::Circle {
                center,
                radius,
                width_tenths,
                color,
            },
            DrawCommand::Text { pos, text, size, color } => DrawModel::Text {
                pos,
                text: text@,
                size,
                color,
            },
        }
    }
}

/// The models of the commands, in their order.
pub open spec fn draw_models(commands: Seq<DrawCommand>) -> Seq<DrawModel> {
    Seq::new(commands.len(), |i: int| commands[i]@)
}

/// The distance of a point from the origin, rounded down.
pub open spec fn distance_from_origin(p: Point) -> int {
    floor_sqrt(dot(p, p))
}

/// Where the label of a body drawn at `center` with radius `radius` begins: to the right
/// of the outline, a little above the middle.
pub open spec fn label_anchor(center: Point, radius: int) -> Point {
    Point { x: center.x + radius + HIGHLIGHT_RADIUS + LABEL_GAP, y: center.y - 1 }
}

/// What is drawn for a body in physical space: the body itself and, where orbits are
/// shown, the ring through it round the origin.
pub open spec fn plot_items_of(body: BodyModel, radius: u32, show_orbit: bool) -> Seq<DrawModel> {
    let marker = DrawModel::Marker {
        position: Vec2 { x: body.place().x as i64, y: body.place().y as i64 },
        radius,
        color: body.color,
        name: body.name,
    };
    if show_orbit {
        seq![
            marker,
            DrawModel::OrbitRing {
                radius_mm: distance_from_origin(body.place()) as u64,
                spacing: ORBIT_DOT_SPACING,
                width_tenths: THIN_WIDTH_TENTHS,
                color: body.color,
            },
        ]
    } else {
        seq![marker]
    }
}

/// What is drawn over a body on the screen: its outline and its name beside it, both
/// stronger where the body is highlighted.
pub open spec fn overlay_of(body: BodyModel, center: Vec2, highlighted: bool, radius: u32) -> Seq<
    DrawModel,
> {
    let anchor = label_anchor(center@, radius as int);
    let color = outline_color(highlighted);
    seq![
        DrawModel::Circle {
            center,
            radius,
            width_tenths: if highlighted {
                HIGHLIGHT_WIDTH_TENTHS
            } else {
                THIN_WIDTH_TENTHS
            },
            color,
        },
        DrawModel::Text {
            pos: Vec2 { x: anchor.x as i64, y: anchor.y as i64 },
            text: body.name,
            size: if highlighted {
                HIGHLIGHT_LABEL_SIZE
            } else {
                LABEL_SIZE
            },
            color,
        },
    ]
}

/// What is drawn in physical space for the first `n` of the bodies, in their order.
pub open spec fn all_plot_items(bodies: Seq<BodyModel>, radius: u32, show_orbits: bool, n: int) -> Seq<
    DrawModel,
>
    decreases n,
{
    if n <= 0 {
        Seq::empty()
    } else {
        all_plot_items(bodies, radius, show_orbits, n - 1) + plot_items_of(
            bodies[n - 1],
            radius,
            show_orbits,
        )
    }
}

/// What is drawn on the screen over the first `n` of the bodies, in their order, where
/// `centers` are their screen positions and the selected body is highlighted.
pub open spec fn all_overlays(
    bodies: Seq<BodyModel>,
    centers: Seq<Vec2>,
    selected: Option<usize>,
    radius: u32,
    n: int,
) -> Seq<DrawModel>
    decreases n,
{
    if n <= 0 {
        Seq::empty()
    } else {
        all_overlays(bodies, centers, selected, radius, n - 1) + overlay_of(
            bodies[n - 1],
            centers[n - 1],
            selected == Some((n - 1) as usize),
            radius,
        )
    }
}

/// The labels of the first `n` centres all begin within the coordinates.
pub open spec fn all_labels_fit(centers: Seq<Vec2>, radius: u32, n: int) -> bool {
    forall|i: int| 0 <= i < n ==> label_anchor((#[trigger] centers[i])@, radius as int).fits()
}

/// The distance of the body from the origin, in millimetres, rounded down: the radius of the
/// ring that traces its orbit.
pub fn orbit_radius(body: &Body) -> (radius_mm: u64)
    ensures
        radius_mm == distance_from_origin(body@.place()),
{
    let p = body.place();
    assert(0 <= p.x * p.x <= 0x4000_0000_0000_0000_0000_0000_0000_0000 && 0 <= p.y * p.y
        <= 0x4000_0000_0000_0000_0000_0000_0000_0000) by (nonlinear_arith)
        requires
            -0x8000_0000_0000_0000 <= p.x <= 0x7fff_ffff_ffff_ffff,
            -0x8000_0000_0000_0000 <= p.y <= 0x7fff_ffff_ffff_ffff,
    ;
    isqrt((p.x as i128 * p.x as i128) as u128 + (p.y as i128 * p.y as i128) as u128)
}

/// The commands that draw `body` in physical space: see [`plot_items_of`].
pub fn plot_items(body: &Body, body_pixel_radius: u32, show_orbit: bool) -> (commands: Vec<
    DrawCommand,
>)
    ensures
        draw_models(commands@) == plot_items_of(body@, body_pixel_radius, show_orbit),
{
    let mut commands: Vec<DrawCommand> = Vec::new();
    commands.push(
        DrawCommand::Marker {
            position: body.place(),
            radius: body_pixel_radius,
            color: body.color(),
            name: body.name().to_owned(),
        },
    );
    if show_orbit {
        commands.push(
            DrawCommand::OrbitRing {
                radius_mm: orbit_radius(body),
                spacing: ORBIT_DOT_SPACING,
                width_tenths: THIN_WIDTH_TENTHS,
                color: body.color(),
            },
        );
    }
    assert(draw_models(commands@) =~= plot_items_of(body@, body_pixel_radius, show_orbit));
    commands
}

/// The commands that draw over `body` on the screen, where its centre is `center`: see
/// [`overlay_of`]. They are refused where the label would begin beyond the coordinates.
pub fn overlay(body: &Body, center: Vec2, highlighted: bool, body_pixel_radius: u32) -> (r: Result<
    Vec<DrawCommand>,
    SimError,
>)
    ensures
        r is Ok <==> label_anchor(center@, body_pixel_radius as int).fits(),
        r matches Ok(commands) ==> draw_models(commands@) == overlay_of(
            body@,
            center,
            highlighted,
            body_pixel_radius,
        ),
        r matches Err(e) ==> e == SimError::OutOfRange,
{
    let offset: i64 = body_pixel_radius as i64 + HIGHLIGHT_RADIUS as i64 + LABEL_GAP as i64;
    let pos = match (center.x.checked_add(offset), center.y.checked_sub(1)) {
        (Some(x), Some(y)) => Vec2 { x, y },
        _ => {
            return Err(SimError::OutOfRange);
        },
    };
    let color = if highlighted {
        Color { r: 255, g: 255, b: 255, a: 255 }
    } else {
        Color { r: 220, g: 220, b: 220, a: 255 }
    };
    let mut commands: Vec<DrawCommand> = Vec::new();
    commands.push(
        DrawCommand::Circle {
            center,
            radius: body_pixel_radius,
            width_tenths: if highlighted {
                HIGHLIGHT_WIDTH_TENTHS
            } else {
                THIN_WIDTH_TENTHS
            },
            color,
        },
    );
    commands.push(
        DrawCommand::Text {
            pos,
            text: body.name().to_owned(),
            size: if highlighted {
                HIGHLIGHT_LABEL_SIZE
            } else {
                LABEL_SIZE
            },
            color,
        },
    );
    assert(draw_models(commands@) =~= overlay_of(body@, center, highlighted, body_pixel_radius));
    Ok(commands)
}

/// The commands that draw all the bodies in physical space, body by body.
pub fn draw_plot(bodies: &Vec<Body>, body_pixel_radius: u32, show_orbits: bool) -> (commands: Vec<
    DrawCommand,
>)
    ensures
        draw_models(commands@) == all_plot_items(
            models(bodies@),
            body_pixel_radius,
            show_orbits,
            bodies.len() as int,
        ),
{
    let mut commands: Vec<DrawCommand> = Vec::new();
    let mut i: usize = 0;
    assert(draw_models(commands@) =~= all_plot_items(
        models(bodies@),
        body_pixel_radius,
        show_orbits,
        0,
    ));
    while i < bodies.len()
        invariant
            i <= bodies.len(),
            draw_models(commands@) == all_plot_items(
                models(bodies@),
                body_pixel_radius,
                show_orbits,
                i as int,
            ),
        decreases bodies.len() - i,
    {
        let ghost before = commands@;
        let mut items = plot_items(&bodies[i], body_pixel_radius, show_orbits);
        let ghost added = items@;
        commands.append(&mut items);
        assert(draw_models(commands@) =~= draw_models(before) + draw_models(added));
        i += 1;
    }
    commands
}

/// The commands that draw over the bodies on the screen, body by body, where `centers`
/// are the screen positions of the bodies, in their order, and `selected` is the place of
/// the body to highlight. A body without a centre is left out. The commands are refused
/// where a label would begin beyond the coordinates.
pub fn draw_overlay(
    bodies: &Vec<Body>,
    centers: &Vec<Vec2>,
    selected: Option<usize>,
    body_pixel_radius: u32,
) -> (r: Result<Vec<DrawCommand>, SimError>)
    ensures
        ({
            let n = if bodies.len() <= centers.len() {
                bodies.len() as int
            } else {
                centers.len() as int
            };
            &&& r is Ok <==> all_labels_fit(centers@, body_pixel_radius, n)
            &&& r matches Ok(commands) ==> draw_models(commands@) == all_overlays(
                models(bodies@),
                centers@,
                selected,
                body_pixel_radius,
                n,
            )
            &&& r matches Err(e) ==> e == SimError::OutOfRange
        }),
{
    let n: usize = if bodies.len() <= centers.len() {
        bodies.len()
    } else {
        centers.len()
    };
    let mut commands: Vec<DrawCommand> = Vec::new();
    let mut i: usize = 0;
    assert(draw_models(commands@) =~= all_overlays(
        models(bodies@),
        centers@,
        selected,
        body_pixel_radius,
        0,
    ));
    while i < n
        invariant
            i <= n,
            n <= bodies.len(),
            n <= centers.len(),
            all_labels_fit(centers@, body_pixel_radius, i as int),
            draw_models(commands@) == all_overlays(
                models(bodies@),
                centers@,
                selected,
                body_pixel_radius,
                i as int,
            ),
        decreases n - i,
    {
        let highlighted = match selected {
            Some(s) => s == i,
            None => false,
        };
        let ghost before = commands@;
        let mut items = match overlay(&bodies[i], centers[i], highlighted, body_pixel_radius) {
            Ok(items) => items,
            Err(e) => {
                return Err(e);
            },
        };
        let ghost added = items@;
        commands.append(&mut items);
        assert(draw_models(commands@) =~= draw_models(before) + draw_models(added));
        i += 1;
    }
    Ok(commands)
}

} // verus!
