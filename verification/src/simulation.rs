//! The state of a running simulation and the steps of one frame: time moves the bodies,
//! a pointer press changes the selection, and the selected body shows its figures.

use vstd::prelude::*;
use crate::body::{
    advanced, in_range, models, names_are_unique, unique_names, Body, BodyModel,
};
use crate::draw::{
    all_labels_fit, all_overlays, all_plot_items, draw_models, draw_overlay, draw_plot, DrawCommand,
};
use crate::error::SimError;
use crate::hit::{first_hit, hit_test, is_first_hit, points_of, projections, within_reach};
use crate::roster::{solar_system, solar_system_models};
use crate::selection::Selection;
use crate::stats::{earth_mass_tenths, panel_of, speed_tenths, stats_panel, Stats, StatsPanel};
use crate::vector::Vec2;
use crate::view::{fit, fit_view, positions, SimulationView, ViewModel};

verus! {

/// Simulated seconds that pass in one second of real time, and so simulated milliseconds
/// in one millisecond: a year in a minute.
pub const SIMULATION_SPEED: u64 = 525_600;

/// The simulated milliseconds between the frame at `last_update` and the frame at
/// `now`, both in milliseconds of real time: none where there was no frame before, for
/// which a time of zero stands too, and none where the clock has not moved forward.
pub open spec fn scaled_dt(last_update: Option<u64>, now: u64) -> int {
    match last_update {
        Some(last) => if 0 < last < now {
            (now - last) * SIMULATION_SPEED
        } else {
            0
        },
        None => 0,
    }
}

/// The bodies after `dt` milliseconds: the first, the fixed central body, stays; every other
/// moves along its velocity.
pub open spec fn advance_all(bodies: Seq<BodyModel>, dt: int) -> Seq<BodyModel> {
    Seq::new(
        bodies.len(),
        |i: int|
            if i == 0 {
                bodies[i]
            } else {
                BodyModel {
                    position: advanced(bodies[i].position, bodies[i].velocity, dt),
                    ..bodies[i]
                }
            },
    )
}

/// Every body that moves is within the limit of positions after `dt` milliseconds.
pub open spec fn all_fit(bodies: Seq<BodyModel>, dt: int) -> bool {
    forall|i: int|
        1 <= i < bodies.len() ==> in_range(advanced((#[trigger] bodies[i]).position, bodies[i].velocity, dt))
}

/// The model of an optional view.
pub open spec fn view_model(view: Option<SimulationView>) -> Option<ViewModel> {
    match view {
        Some(v) => Some(v@),
        None => None,
    }
}

/// What is kept of a simulation from one run to the next.
#[derive(Clone, Copy, Debug)]
pub struct SavedState {
    pub view: Option<SimulationView>,
    pub selected: Selection,
}

/// The model of an [`App`].
pub struct AppModel {
    pub bodies: Seq<BodyModel>,
    pub view: Option<ViewModel>,
    pub last_update: Option<u64>,
    pub selected: Selection,
}

impl AppModel {
    /// The frame at time `now` can be held: the simulated time since the last frame is a
    /// 64-bit number of milliseconds, and every body that moves stays within the limit.
    pub open spec fn can_update(self, now: u64) -> bool {
        scaled_dt(self.last_update, now) <= u64::MAX && all_fit(
            self.bodies,
            scaled_dt(self.last_update, now),
        )
    }

    /// The simulation after the frame at time `now`: the bodies have moved and `now` is
    /// the time of the last frame; where the frame cannot be held, nothing has changed.
    pub open spec fn after_update(self, now: u64) -> AppModel {
        if self.can_update(now) {
            AppModel {
                bodies: advance_all(self.bodies, scaled_dt(self.last_update, now)),
                last_update: Some(now),
                ..self
            }
        } else {
            self
        }
    }

    /// The selected body, if a body is selected and still there.
    pub open spec fn selected_body(self) -> Option<BodyModel> {
        match self.selected.resolved(self.bodies.len() as int) {
            Some(i) => Some(self.bodies[i as int]),
            None => None,
        }
    }

    /// How many bodies have a centre among `centers`: all, or as many as there are
    /// centres.
    pub open spec fn drawn(self, centers: Seq<Vec2>) -> int {
        if self.bodies.len() <= centers.len() {
            self.bodies.len() as int
        } else {
            centers.len() as int
        }
    }
}

/// What the end of a frame hands to whoever draws: the commands that draw over the
/// bodies, unless a label would begin beyond the coordinates, and the panel of the
/// selected body, if there is one.
#[derive(Debug, PartialEq, Eq)]
pub struct FrameEnd {
    pub overlay: Result<Vec<DrawCommand>, SimError>,
    pub panel: Option<StatsPanel>,
}

/// A simulation: the bodies in a fixed order, the first of them the central body, no two
/// of them with the same name; the cached view, if one has been fitted; the time of the
/// last frame, in milliseconds; and the selection.
#[derive(Debug)]
pub struct App {
    view: Option<SimulationView>,
    bodies: Vec<Body>,
    last_update: Option<u64>,
    selected: Selection,
}

impl View for App {
    type V = AppModel;

    closed spec fn view(&self) -> AppModel {
        AppModel {
            bodies: models(self.bodies@),
            view: view_model(self.view),
            last_update: self.last_update,
            selected: self.selected,
        }
    }
}

impl Default for App {
    /// The simulation of the Sun and its planets, before its first frame.
    fn default() -> (app: App)
        ensures
            app@ == (AppModel {
                bodies: solar_system_models(),
                view: None,
                last_update: None,
                selected: Selection::Unselected,
            }),
    {
        App::new(None)
    }
}

/// The simulated milliseconds between two frames: see [`scaled_dt`].
pub fn elapsed(last_update: Option<u64>, now: u64) -> (dt: u128)
    ensures
        dt == scaled_dt(last_update, now),
{
    match last_update {
        Some(last) => if 0 < last && last < now {
            assert((now - last) * SIMULATION_SPEED <= u128::MAX) by (nonlinear_arith)
                requires
                    0 <= now - last <= u64::MAX,
                    SIMULATION_SPEED == 525_600,
            ;
            (now - last) as u128 * SIMULATION_SPEED as u128
        } else {
            0
        },
        None => 0,
    }
}

/// Moves every body but the first along its velocity for `dt` milliseconds. Where a new
/// position lies beyond the limit, no body moves.
pub fn advance_bodies(bodies: &mut Vec<Body>, dt: u64) -> (r: Result<(), SimError>)
    ensures
        r is Ok <==> all_fit(models(old(bodies)@), dt as int),
        r is Ok ==> models(final(bodies)@) == advance_all(models(old(bodies)@), dt as int),
        r matches Err(e) ==> e == SimError::OutOfRange && models(final(bodies)@) == models(
            old(bodies)@,
        ),
        dt == 0 ==> r is Ok && models(final(bodies)@) == models(old(bodies)@),
    no_unwind
{
    let ghost before = models(bodies@);
    let n: usize = bodies.len();
    let mut i: usize = 1;
    while i < n
        invariant
            1 <= i,
            n == bodies.len(),
            before == models(bodies@),
            *bodies == *old(bodies),
            forall|j: int|
                1 <= j < i && j < n ==> in_range(advanced((#[trigger] before[j]).position, before[j].velocity, dt as int)),
        decreases n - i,
    {
        match bodies[i].position_after(dt) {
            Ok(_) => {},
            Err(e) => {
                assert(!in_range(
                    advanced(before[i as int].position, before[i as int].velocity, dt as int),
                ));
                return Err(e);
            },
        }
        i += 1;
    }
    let mut k: usize = 1;
    while k < n
        invariant
            1 <= k,
            n == bodies.len(),
            before.len() == n,
            all_fit(before, dt as int),
            forall|j: int|
                0 <= j < n ==> models(bodies@)[j] == (if 1 <= j < k {
                    advance_all(before, dt as int)[j]
                } else {
                    #[trigger] before[j]
                }),
        decreases n - k,
    {
        let ghost prior = models(bodies@);
        assert(prior[k as int] == before[k as int]);
        assert(bodies@[k as int]@ == prior[k as int]);
        let moved = bodies[k].update_position(dt);
        assert(moved is Ok);
        proof {
            assert forall|j: int| 0 <= j < n implies models(bodies@)[j] == (if 1 <= j < k + 1 {
                advance_all(before, dt as int)[j]
            } else {
                #[trigger] before[j]
            }) by {
                assert(j != k ==> models(bodies@)[j] == prior[j]);
            }
        }
        k += 1;
    }
    assert(models(bodies@) =~= advance_all(before, dt as int));
    if dt == 0 {
        assert(advance_all(before, 0) =~= before) by {
            assert forall|j: int| 0 <= j < before.len() implies advance_all(before, 0)[j]
                == before[j] by {
                assert(before[j].velocity.x * 0 == 0 && before[j].velocity.y * 0 == 0);
            }
        }
    }
    Ok(())
}

impl App {
    #[verifier::type_invariant]
    spec fn inv(self) -> bool {
        unique_names(models(self.bodies@))
    }

    /// The simulation of the Sun and its planets, before its first frame, with the view
    /// and the selection of `saved`, if there is any. A saved selection that refers to no
    /// body is dropped.
    pub fn new(saved: Option<SavedState>) -> (app: App)
        ensures
            app@.bodies == solar_system_models(),
            app@.last_update is None,
            saved is None ==> app@.view is None && app@.selected == Selection::Unselected,
            saved matches Some(s) ==> app@.view == view_model(s.view) && app@.selected
                == Selection::of_hit(s.selected.resolved(solar_system_models().len() as int)),
    {
        App::with_bodies(solar_system(), saved).unwrap()
    }

    /// A simulation of `bodies` that has not run yet, with the view and the selection of
    /// `saved`, if there is any. A saved selection that refers to no body of this
    /// simulation is dropped. Bodies of which two have the same name are refused.
    pub fn with_bodies(bodies: Vec<Body>, saved: Option<SavedState>) -> (r: Result<
        App,
        SimError,
    >)
        ensures
            r is Ok <==> unique_names(models(bodies@)),
            r matches Ok(app) ==> {
                &&& app@.bodies == models(bodies@)
                &&& app@.last_update is None
                &&& saved is None ==> app@.view is None && app@.selected == Selection::Unselected
                &&& saved matches Some(s) ==> app@.view == view_model(s.view) && app@.selected
                    == Selection::of_hit(s.selected.resolved(bodies.len() as int))
            },
            r matches Err(e) ==> e == SimError::DuplicateName,
    {
        if !names_are_unique(&bodies) {
            return Err(SimError::DuplicateName);
        }
        match saved {
            Some(s) => {
                let selected = match s.selected.resolve(bodies.len()) {
                    Some(i) => Selection::Selected(i),
                    None => Selection::Unselected,
                };
                Ok(App { view: s.view, bodies, last_update: None, selected })
            },
            None => Ok(
                App { view: None, bodies, last_update: None, selected: Selection::Unselected },
            ),
        }
    }

    /// What is to be kept for the next run: the view and the selection.
    pub fn save(&self) -> (saved: SavedState)
        ensures
            view_model(saved.view) == self@.view,
            saved.selected == self@.selected,
    {
        SavedState { view: self.view, selected: self.selected }
    }

    /// The frame at time `now`, in milliseconds: every body but the first moves along
    /// its velocity for the simulated time since the last frame, and `now` becomes the
    /// time of the last frame. The first frame moves nothing. Where the simulated time
    /// or a new position cannot be represented, nothing changes at all.
    pub fn update(&mut self, now: u64) -> (r: Result<(), SimError>)
        ensures
            r is Ok <==> old(self)@.can_update(now),
            r matches Err(e) ==> e == SimError::OutOfRange,
            final(self)@ == old(self)@.after_update(now),
            old(self)@.last_update is None || old(self)@.last_update == Some(0u64) ==> r is Ok
                && final(self)@.bodies == old(self)@.bodies,
    {
        proof {
            use_type_invariant(&*self);
        }
        let wide: u128 = elapsed(self.last_update, now);
        if wide > u64::MAX as u128 {
            return Err(SimError::OutOfRange);
        }
        let ghost before = models(self.bodies@);
        match advance_bodies(&mut self.bodies, wide as u64) {
            Ok(()) => {
                assert forall|i: int, j: int|
                    0 <= i < j < before.len() implies (#[trigger] models(self.bodies@)[i]).name
                    != (#[trigger] models(self.bodies@)[j]).name by {
                    assert(before[i].name != before[j].name);
                }
                self.last_update = Some(now);
                Ok(())
            },
            Err(e) => Err(e),
        }
    }

    /// A frame's pointer input, for a caller that has projected the bodies itself:
    /// `centers` are the screen positions of the bodies, in their order, and `click` is
    /// where the primary button was pressed, if it was. A press selects the first body
    /// within `body_pixel_radius + tolerance_pixels` of it and clears the selection where
    /// there is none; without a press nothing changes.
    pub fn click(
        &mut self,
        centers: &Vec<Vec2>,
        click: Option<Vec2>,
        body_pixel_radius: u32,
        tolerance_pixels: u32,
    )
        ensures
            click is None ==> final(self)@ == old(self)@,
            click matches Some(p) ==> is_first_hit(
                points_of(centers@),
                1,
                p@,
                body_pixel_radius + tolerance_pixels,
                final(self)@.selected.hit(),
            ),
            click matches Some(p) && (forall|j: int|
                0 <= j < centers.len() ==> !within_reach(
                    #[trigger] points_of(centers@)[j],
                    1,
                    p@,
                    body_pixel_radius + tolerance_pixels,
                )) ==> final(self)@.selected == Selection::Unselected,
            final(self)@ == (AppModel { selected: final(self)@.selected, ..old(self)@ }),
    {
        proof {
            use_type_invariant(&*self);
        }
        let hit = first_hit(centers, click, body_pixel_radius, tolerance_pixels);
        self.selected = self.selected.after_frame(click, hit);
    }

    /// A frame's pointer input, with the bodies projected by `view` onto a viewport
    /// centred at `viewport_center`: as [`App::click`].
    pub fn click_in_view(
        &mut self,
        view: &SimulationView,
        viewport_center: Vec2,
        click: Option<Vec2>,
        body_pixel_radius: u32,
        tolerance_pixels: u32,
    )
        ensures
            click is None ==> final(self)@ == old(self)@,
            click matches Some(p) ==> is_first_hit(
                projections(view@, viewport_center@, positions(old(self)@.bodies)),
                view@.grid(),
                p@,
                body_pixel_radius + tolerance_pixels,
                final(self)@.selected.hit(),
            ),
            click matches Some(p) && (forall|j: int|
                0 <= j < old(self)@.bodies.len() ==> !within_reach(
                    #[trigger] projections(
                        view@,
                        viewport_center@,
                        positions(old(self)@.bodies),
                    )[j],
                    view@.grid(),
                    p@,
                    body_pixel_radius + tolerance_pixels,
                )) ==> final(self)@.selected == Selection::Unselected,
            final(self)@ == (AppModel { selected: final(self)@.selected, ..old(self)@ }),
    {
        proof {
            use_type_invariant(&*self);
        }
        let hit = hit_test(
            &self.bodies,
            view,
            viewport_center,
            click,
            body_pixel_radius,
            tolerance_pixels,
        );
        self.selected = self.selected.after_frame(click, hit);
    }

    /// The view of the simulation: the cached one, if there is one; else the view fitted
    /// to the bodies as [`fit_view`] does, which is then cached.
    pub fn view_or_fit(
        &mut self,
        width: u32,
        height: u32,
        body_pixel_radius: u32,
        margin_pixels: u32,
    ) -> (v: SimulationView)
        ensures
            old(self)@.view matches Some(cached) ==> v@ == cached && final(self)@ == old(self)@,
            old(self)@.view is None ==> v@ == fit(
                positions(old(self)@.bodies),
                width as int,
                height as int,
                body_pixel_radius as int,
                margin_pixels as int,
            ) && final(self)@ == (AppModel { view: Some(v@), ..old(self)@ }),
    {
        proof {
            use_type_invariant(&*self);
        }
        match self.view {
            Some(v) => v,
            None => {
                let fitted = fit_view(
                    &self.bodies,
                    width,
                    height,
                    body_pixel_radius,
                    margin_pixels,
                );
                self.view = Some(fitted);
                fitted
            },
        }
    }

    /// Forgets the cached view, so that the next use fits a new one.
    pub fn clear_view(&mut self)
        ensures
            final(self)@ == (AppModel { view: None, ..old(self)@ }),
    {
        proof {
            use_type_invariant(&*self);
        }
        self.view = None;
    }

    /// The bodies, in their order; no two have the same name.
    pub fn bodies(&self) -> (bodies: &Vec<Body>)
        ensures
            models(bodies@) == self@.bodies,
            unique_names(self@.bodies),
    {
        proof {
            use_type_invariant(self);
        }
        &self.bodies
    }

    /// The cached view, if there is one.
    pub fn cached_view(&self) -> (view: Option<SimulationView>)
        ensures
            view_model(view) == self@.view,
    {
        self.view
    }

    /// The time of the last frame, in milliseconds, if there was one.
    pub fn last_update(&self) -> (t: Option<u64>)
        ensures
            t == self@.last_update,
    {
        self.last_update
    }

    /// The selection as it stands, whether or not its body is still there.
    pub fn selection(&self) -> (s: Selection)
        ensures
            s == self@.selected,
    {
        self.selected
    }

    /// The place of the selected body, if a body is selected and still there.
    pub fn selected(&self) -> (i: Option<usize>)
        ensures
            i == self@.selected.resolved(self@.bodies.len() as int),
    {
        self.selected.resolve(self.bodies.len())
    }

    /// The commands that draw the bodies in physical space: each body as a disc of
    /// `body_pixel_radius` and, where orbits are shown, the ring through it.
    pub fn plot_items(&self, body_pixel_radius: u32, show_orbits: bool) -> (commands: Vec<
        DrawCommand,
    >)
        ensures
            draw_models(commands@) == all_plot_items(
                self@.bodies,
                body_pixel_radius,
                show_orbits,
                self@.bodies.len() as int,
            ),
    {
        draw_plot(&self.bodies, body_pixel_radius, show_orbits)
    }

    /// The commands that draw over the bodies on the screen, where `centers` are the
    /// screen positions of the bodies, in their order: each body's outline and name, the
    /// selected body's stronger. A body without a centre is left out. The commands are
    /// refused where a label would begin beyond the coordinates.
    pub fn overlay(&self, centers: &Vec<Vec2>, body_pixel_radius: u32) -> (r: Result<
        Vec<DrawCommand>,
        SimError,
    >)
        ensures
            r is Ok <==> all_labels_fit(centers@, body_pixel_radius, self@.drawn(centers@)),
            r matches Ok(commands) ==> draw_models(commands@) == all_overlays(
                self@.bodies,
                centers@,
                self@.selected.resolved(self@.bodies.len() as int),
                body_pixel_radius,
                self@.drawn(centers@),
            ),
            r matches Err(e) ==> e == SimError::OutOfRange,
    {
        draw_overlay(
            &self.bodies,
            centers,
            self.selected.resolve(self.bodies.len()),
            body_pixel_radius,
        )
    }

    /// The panel of the selected body, if a body is selected and still there.
    pub fn stats_panel(&self) -> (panel: Option<StatsPanel>)
        ensures
            panel is Some <==> self@.selected_body() is Some,
            panel matches Some(p) ==> p@ == panel_of(self@.selected_body()->0),
    {
        match self.selected.resolve(self.bodies.len()) {
            Some(i) => Some(stats_panel(&self.bodies[i])),
            None => None,
        }
    }

    /// The first half of a frame, before the bodies are projected: the simulation moves
    /// to the time `now`, as [`App::update`] does, and then says what to draw in physical
    /// space, as [`App::plot_items`] does. A frame that cannot be held leaves the bodies
    /// where they are, and they are drawn there.
    pub fn begin_frame(&mut self, now: u64, body_pixel_radius: u32, show_orbits: bool) -> (out: (
        Result<(), SimError>,
        Vec<DrawCommand>,
    ))
        ensures
            out.0 is Ok <==> old(self)@.can_update(now),
            out.0 matches Err(e) ==> e == SimError::OutOfRange,
            final(self)@ == old(self)@.after_update(now),
            draw_models(out.1@) == all_plot_items(
                final(self)@.bodies,
                body_pixel_radius,
                show_orbits,
                final(self)@.bodies.len() as int,
            ),
    {
        let moved = self.update(now);
        let items = self.plot_items(body_pixel_radius, show_orbits);
        (moved, items)
    }

    /// The second half of a frame, once the bodies are projected: `centers` are their
    /// screen positions, in their order, and `click` is where the primary button was
    /// pressed in this frame, if it was. First the overlay is laid out, with the selection
    /// as the frame found it, as [`App::overlay`] does; then the press changes the
    /// selection, as [`App::click`] does; then the panel shows the body that is selected
    /// now, as [`App::stats_panel`] does.
    pub fn end_frame(
        &mut self,
        centers: &Vec<Vec2>,
        click: Option<Vec2>,
        body_pixel_radius: u32,
        tolerance_pixels: u32,
    ) -> (end: FrameEnd)
        ensures
            end.overlay is Ok <==> all_labels_fit(
                centers@,
                body_pixel_radius,
                old(self)@.drawn(centers@),
            ),
            end.overlay matches Ok(commands) ==> draw_models(commands@) == all_overlays(
                old(self)@.bodies,
                centers@,
                old(self)@.selected.resolved(old(self)@.bodies.len() as int),
                body_pixel_radius,
                old(self)@.drawn(centers@),
            ),
            end.overlay matches Err(e) ==> e == SimError::OutOfRange,
            click is None ==> final(self)@ == old(self)@,
            click matches Some(p) ==> is_first_hit(
                points_of(centers@),
                1,
                p@,
                body_pixel_radius + tolerance_pixels,
                final(self)@.selected.hit(),
            ),
            final(self)@ == (AppModel { selected: final(self)@.selected, ..old(self)@ }),
            end.panel is Some <==> final(self)@.selected_body() is Some,
            end.panel matches Some(p) ==> p@ == panel_of(final(self)@.selected_body()->0),
    {
        let overlay = self.overlay(centers, body_pixel_radius);
        self.click(centers, click, body_pixel_radius, tolerance_pixels);
        let panel = self.stats_panel();
        FrameEnd { overlay, panel }
    }

    /// The figures of the selected body, if a body is selected and still there.
    pub fn stats(&self) -> (s: Option<Stats>)
        ensures
            s is Some <==> self@.selected_body() is Some,
            s matches Some(stats) ==> {
                &&& stats.earth_mass_tenths == earth_mass_tenths(self@.selected_body()->0.mass_kg)
                &&& stats.speed_tenths == speed_tenths(self@.selected_body()->0.velocity)
            },
    {
        match self.selected.resolve(self.bodies.len()) {
            Some(i) => Some(Stats::of(&self.bodies[i])),
            None => None,
        }
    }
}

} // verus!
