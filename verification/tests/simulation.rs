use orrery::body::{names_are_unique, Body, Color};
use orrery::error::SimError;
use orrery::heading::{Heading, UNIT};
use orrery::selection::Selection;
use orrery::draw::DrawCommand;
use orrery::simulation::{
    advance_bodies, elapsed, App, SavedState, SIMULATION_SPEED,
};
use orrery::stats::Stats;
use orrery::vector::{Vec2, Wide};
use orrery::view::{Scale, SimulationView};

const GOLD: Color = Color { r: 255, g: 215, b: 0, a: 255 };
const BLUE: Color = Color { r: 0, g: 0, b: 255, a: 255 };
const RED: Color = Color { r: 255, g: 0, b: 0, a: 255 };

fn roster() -> Vec<Body> {
    let forty = Heading::from_degrees(40);
    vec![
        Body::orbiting("Sun", 1_989_100_000_000_000_000_000_000_000_000, 0, GOLD, Heading::new(UNIT, 0).unwrap())
            .unwrap(),
        Body::orbiting("Earth", 5_972_190_000_000_000_000_000_000, 150_000_000, BLUE, forty).unwrap(),
        Body::orbiting("Mars", 639_000_000_000_000_000_000_000, 228_000_000, RED, Heading::new(UNIT, 0).unwrap())
            .unwrap(),
    ]
}

/// Scale and centre of the view fitted to the Sun and the Earth in 800 by 600.
const FITTED: (u32, u64, i128, i128) =
    (564, 96_418_141_500_000, 64_807_359_877_800_000, 54_379_831_806_000_000);

fn parts(v: &SimulationView) -> (u32, u64, i128, i128) {
    (v.scale().num(), v.scale().den(), v.center().x, v.center().y)
}

fn positions(app: &App) -> Vec<Wide> {
    app.bodies().iter().map(|b| b.position()).collect()
}

#[test]
fn simulation_speed_is_a_year_in_a_minute() {
    assert_eq!(SIMULATION_SPEED, 60 * 24 * 365);
    assert_eq!(SIMULATION_SPEED * 60, 365 * 24 * 60 * 60);
}

#[test]
fn elapsed_scales_the_time_between_two_frames() {
    assert_eq!(elapsed(Some(1_000), 2_000), 525_600_000);
    assert_eq!(elapsed(Some(1_000), 1_016), 8_409_600);
    assert_eq!(elapsed(Some(1_000), 1_001), 525_600);
    assert_eq!(elapsed(Some(1), 60_001), 31_536_000_000);
    assert_eq!(elapsed(Some(1), u64::MAX), 9_695_608_685_141_740_328_318_400);
}

#[test]
fn elapsed_is_nothing_without_an_earlier_frame() {
    assert_eq!(elapsed(None, 0), 0);
    assert_eq!(elapsed(None, 2_000), 0);
    assert_eq!(elapsed(None, u64::MAX), 0);
}

#[test]
fn elapsed_is_nothing_after_a_frame_at_time_zero() {
    assert_eq!(elapsed(Some(0), 0), 0);
    assert_eq!(elapsed(Some(0), 2_000), 0);
    assert_eq!(elapsed(Some(0), u64::MAX), 0);
}

#[test]
fn elapsed_is_nothing_where_the_clock_stands_or_runs_back() {
    assert_eq!(elapsed(Some(2_000), 2_000), 0);
    assert_eq!(elapsed(Some(2_000), 1_000), 0);
    assert_eq!(elapsed(Some(u64::MAX), 0), 0);
}

#[test]
fn a_new_simulation_has_not_run() {
    let app = App::with_bodies(roster(), None).unwrap();
    assert_eq!(app.bodies().len(), 3);
    assert_eq!(app.bodies()[1].name(), "Earth");
    assert_eq!(app.last_update(), None);
    assert!(app.cached_view().is_none());
    assert_eq!(app.selection(), Selection::Unselected);
    assert_eq!(app.selected(), None);
    assert_eq!(app.stats(), None);
}

#[test]
fn bodies_with_the_same_name_are_refused() {
    let east = Heading::new(UNIT, 0).unwrap();
    let north = Heading::new(0, UNIT).unwrap();
    let twins = vec![
        Body::orbiting("Sun", 1, 0, GOLD, east).unwrap(),
        Body::orbiting("Ceres", 2, 414_000_000, RED, east).unwrap(),
        Body::orbiting("Ceres", 3, 414_000_001, BLUE, north).unwrap(),
    ];
    assert_eq!(App::with_bodies(twins, None).unwrap_err(), SimError::DuplicateName);
    let apart = vec![
        Body::orbiting("Ceres", 1, 0, GOLD, east).unwrap(),
        Body::orbiting("ceres", 1, 0, GOLD, east).unwrap(),
        Body::orbiting("Ceres ", 1, 0, GOLD, east).unwrap(),
        Body::orbiting("", 1, 0, GOLD, east).unwrap(),
    ];
    assert!(App::with_bodies(apart, None).is_ok());
    let first_and_last = vec![
        Body::orbiting("A", 1, 0, GOLD, east).unwrap(),
        Body::orbiting("B", 1, 0, GOLD, east).unwrap(),
        Body::orbiting("C", 1, 0, GOLD, east).unwrap(),
        Body::orbiting("A", 1, 0, GOLD, east).unwrap(),
    ];
    assert_eq!(App::with_bodies(first_and_last, None).unwrap_err(), SimError::DuplicateName);
    assert!(App::with_bodies(Vec::new(), None).is_ok());
}

#[test]
fn names_are_compared_pair_by_pair() {
    let east = Heading::new(UNIT, 0).unwrap();
    let a = Body::orbiting("A", 1, 0, GOLD, east).unwrap();
    let b = Body::orbiting("B", 1, 0, GOLD, east).unwrap();
    let a_again = Body::orbiting("A", 2, 5, RED, east).unwrap();
    assert!(a.same_name(&a_again));
    assert!(!a.same_name(&b));
    assert!(names_are_unique(&vec![a.clone(), b.clone()]));
    assert!(!names_are_unique(&vec![a.clone(), b.clone(), a_again.clone()]));
    assert!(!names_are_unique(&vec![b, a, a_again]));
    assert!(names_are_unique(&Vec::new()));
}

#[test]
fn advance_bodies_moves_all_or_none() {
    let east = Heading::new(UNIT, 0).unwrap();
    let mut bodies = vec![
        Body::orbiting("First", 1, 228_000_000, RED, east).unwrap(),
        Body::orbiting("Edge", 1, 1_000_000_000_000, BLUE, east).unwrap(),
        Body::orbiting("Mars", 1, 228_000_000, RED, east).unwrap(),
    ];
    assert_eq!(advance_bodies(&mut bodies, 10), Ok(()));
    assert_eq!(bodies[0].position(), Wide { x: 228_000_000_000_000_000_000, y: 0 });
    assert_eq!(
        bodies[1].position(),
        Wide { x: 1_000_000_000_000_000_000_000_000, y: 3_643_604_000 }
    );
    assert_eq!(
        bodies[2].position(),
        Wide { x: 228_000_000_000_000_000_000, y: 241_303_569_900 }
    );
    // At 364 m/s the second body could go on for 10^14 ms; at 24_130 m/s the third cannot.
    assert_eq!(advance_bodies(&mut bodies, 100_000_000_000_000), Err(SimError::OutOfRange));
    assert_eq!(bodies[0].position(), Wide { x: 228_000_000_000_000_000_000, y: 0 });
    assert_eq!(
        bodies[1].position(),
        Wide { x: 1_000_000_000_000_000_000_000_000, y: 3_643_604_000 }
    );
    assert_eq!(
        bodies[2].position(),
        Wide { x: 228_000_000_000_000_000_000, y: 241_303_569_900 }
    );
    assert_eq!(advance_bodies(&mut bodies, 0), Ok(()));
    assert_eq!(
        bodies[1].position(),
        Wide { x: 1_000_000_000_000_000_000_000_000, y: 3_643_604_000 }
    );
    let mut none: Vec<Body> = Vec::new();
    assert_eq!(advance_bodies(&mut none, u64::MAX), Ok(()));
    // A body on its own is the first, and stays.
    let mut one = vec![Body::orbiting("Edge", 1, 1_000_000_000_000, BLUE, east).unwrap()];
    assert_eq!(advance_bodies(&mut one, u64::MAX), Ok(()));
    assert_eq!(one[0].position(), Wide { x: 1_000_000_000_000_000_000_000_000, y: 0 });
}

#[test]
fn the_first_frame_moves_nothing() {
    let mut app = App::with_bodies(roster(), None).unwrap();
    let before = positions(&app);
    assert_eq!(app.update(5_000), Ok(()));
    assert_eq!(positions(&app), before);
    assert_eq!(app.last_update(), Some(5_000));
}

#[test]
fn a_frame_moves_every_body_but_the_first() {
    let mut app = App::with_bodies(roster(), None).unwrap();
    assert_eq!(app.update(1_000), Ok(()));
    assert_eq!(app.update(1_016), Ok(()));
    assert_eq!(app.last_update(), Some(1_016));
    // 16 ms are 8_409_600 simulated milliseconds.
    assert_eq!(
        positions(&app),
        vec![
            Wide { x: 0, y: 0 },
            Wide {
                x: 114_906_666_450_000_000_000 - 19_122_868_473 * 8_409_600,
                y: 96_418_141_500_000_000_000 + 22_789_747_188 * 8_409_600,
            },
            Wide { x: 228_000_000_000_000_000_000, y: 24_130_356_990 * 8_409_600 },
        ]
    );
    assert_eq!(app.bodies()[1].velocity(), Vec2 { x: -19_122_868_473, y: 22_789_747_188 });
    assert_eq!(app.bodies()[2].velocity(), Vec2 { x: 0, y: 24_130_356_990 });
}

#[test]
fn the_first_body_stays_even_if_it_has_a_velocity() {
    let east = Heading::new(UNIT, 0).unwrap();
    let bodies = vec![
        Body::orbiting("First", 1, 228_000_000, RED, east).unwrap(),
        Body::orbiting("Second", 1, 228_000_000, RED, east).unwrap(),
    ];
    let mut app = App::with_bodies(bodies, None).unwrap();
    assert_eq!(app.update(1_000), Ok(()));
    assert_eq!(app.update(2_000), Ok(()));
    assert_eq!(
        positions(&app),
        vec![
            Wide { x: 228_000_000_000_000_000_000, y: 0 },
            Wide { x: 228_000_000_000_000_000_000, y: 24_130_356_990 * 525_600_000 },
        ]
    );
}

#[test]
fn a_frame_after_one_at_time_zero_moves_nothing() {
    let mut app = App::with_bodies(roster(), None).unwrap();
    let before = positions(&app);
    assert_eq!(app.update(0), Ok(()));
    assert_eq!(app.last_update(), Some(0));
    assert_eq!(app.update(16), Ok(()));
    assert_eq!(positions(&app), before);
    assert_eq!(app.last_update(), Some(16));
    assert_eq!(app.update(32), Ok(()));
    assert_eq!(
        positions(&app)[2],
        Wide { x: 228_000_000_000_000_000_000, y: 24_130_356_990 * 8_409_600 }
    );
}

#[test]
fn a_frame_at_the_same_time_or_an_earlier_one_moves_nothing() {
    let mut app = App::with_bodies(roster(), None).unwrap();
    assert_eq!(app.update(1_000), Ok(()));
    let before = positions(&app);
    assert_eq!(app.update(1_000), Ok(()));
    assert_eq!(positions(&app), before);
    assert_eq!(app.update(400), Ok(()));
    assert_eq!(positions(&app), before);
    assert_eq!(app.last_update(), Some(400));
    assert_eq!(app.update(1_400), Ok(()));
    assert_eq!(
        positions(&app)[2],
        Wide { x: 228_000_000_000_000_000_000, y: 12_682_915_633_944_000_000 }
    );
}

#[test]
fn a_frame_that_cannot_be_held_changes_nothing() {
    let east = Heading::new(UNIT, 0).unwrap();
    let bodies = vec![
        Body::orbiting("Sun", 1, 0, GOLD, east).unwrap(),
        Body::orbiting("Mars", 1, 228_000_000, RED, east).unwrap(),
        Body::orbiting("Edge", 1, 1_000_000_000_000, BLUE, east).unwrap(),
    ];
    let mut app = App::with_bodies(bodies, None).unwrap();
    assert_eq!(app.update(1), Ok(()));
    let before = positions(&app);
    // Mars moves at 24_130_356_990 nm a millisecond and may go 1e24 nm: for
    // 41_441_575_042_359 ms, which 78_846_223 ms of real time stay within.
    assert_eq!(app.update(78_846_225), Err(SimError::OutOfRange));
    assert_eq!(positions(&app), before);
    assert_eq!(app.last_update(), Some(1));
    // So long a frame that the simulated seconds leave 64 bits.
    assert_eq!(app.update(u64::MAX), Err(SimError::OutOfRange));
    assert_eq!(positions(&app), before);
    assert_eq!(app.last_update(), Some(1));
    assert_eq!(app.update(78_846_224), Ok(()));
    assert_eq!(app.last_update(), Some(78_846_224));
    assert_eq!(positions(&app)[0], Wide { x: 0, y: 0 });
    assert_eq!(
        positions(&app)[1],
        Wide { x: 228_000_000_000_000_000_000, y: 999_999_994_364_134_993_512_000 }
    );
}

#[test]
fn a_press_on_a_body_selects_it() {
    let mut app = App::with_bodies(roster(), None).unwrap();
    let centers = vec![Vec2 { x: 64, y: 582 }, Vec2 { x: 736, y: 18 }, Vec2 { x: 900, y: 582 }];
    app.click(&centers, Some(Vec2 { x: 730, y: 20 }), 10, 5);
    assert_eq!(app.selection(), Selection::Selected(1));
    assert_eq!(app.selected(), Some(1));
    app.click(&centers, Some(Vec2 { x: 64, y: 582 }), 10, 0);
    assert_eq!(app.selected(), Some(0));
    assert_eq!(app.bodies().len(), 3);
    assert_eq!(app.last_update(), None);
}

#[test]
fn a_press_on_nothing_clears_the_selection() {
    let mut app = App::with_bodies(roster(), None).unwrap();
    let centers = vec![Vec2 { x: 64, y: 582 }, Vec2 { x: 736, y: 18 }, Vec2 { x: 900, y: 582 }];
    app.click(&centers, Some(Vec2 { x: 736, y: 18 }), 10, 5);
    assert_eq!(app.selected(), Some(1));
    app.click(&centers, Some(Vec2 { x: 400, y: 300 }), 10, 5);
    assert_eq!(app.selection(), Selection::Unselected);
    assert_eq!(app.selected(), None);
    assert_eq!(app.stats(), None);
}

#[test]
fn a_frame_without_a_press_keeps_what_is_selected() {
    let mut app = App::with_bodies(roster(), None).unwrap();
    let centers = vec![Vec2 { x: 64, y: 582 }, Vec2 { x: 736, y: 18 }, Vec2 { x: 900, y: 582 }];
    app.click(&centers, Some(Vec2 { x: 736, y: 18 }), 10, 5);
    app.click(&centers, None, 10, 5);
    assert_eq!(app.selected(), Some(1));
    app.click(&Vec::new(), None, 0, 0);
    assert_eq!(app.selected(), Some(1));
}

#[test]
fn a_press_in_the_fitted_view() {
    let mut app = App::with_bodies(roster()[..2].to_vec(), None).unwrap();
    let view = app.view_or_fit(800, 600, 10, 8);
    let c = Vec2 { x: 400, y: 300 };
    app.click_in_view(&view, c, Some(Vec2 { x: 736, y: 18 }), 10, 5);
    assert_eq!(app.selected(), Some(1));
    app.click_in_view(&view, c, None, 10, 5);
    assert_eq!(app.selected(), Some(1));
    app.click_in_view(&view, c, Some(Vec2 { x: 70, y: 590 }), 10, 5);
    assert_eq!(app.selected(), Some(0));
    app.click_in_view(&view, c, Some(Vec2 { x: 400, y: 300 }), 10, 5);
    assert_eq!(app.selected(), None);
}

#[test]
fn the_fitted_view_is_kept_until_it_is_cleared() {
    let mut app = App::with_bodies(roster()[..2].to_vec(), None).unwrap();
    assert!(app.cached_view().is_none());
    let v = app.view_or_fit(800, 600, 10, 8);
    assert_eq!(parts(&v), FITTED);
    let cached = app.cached_view().unwrap();
    assert_eq!(parts(&cached), FITTED);
    // Another viewport does not change the view that is there.
    let v = app.view_or_fit(400, 300, 1, 1);
    assert_eq!(parts(&v), FITTED);
    app.clear_view();
    assert!(app.cached_view().is_none());
    // 296 / 96_418_141_500_000 is less than 396 / 114_906_666_450_000.
    let v = app.view_or_fit(400, 300, 1, 1);
    assert_eq!(
        parts(&v),
        (296, 96_418_141_500_000, 34_012_373_269_200_000, 28_539_769_884_000_000)
    );
}

#[test]
fn the_selected_body_shows_its_figures() {
    let mut app = App::with_bodies(roster(), None).unwrap();
    let centers = vec![Vec2 { x: 64, y: 582 }, Vec2 { x: 736, y: 18 }, Vec2 { x: 900, y: 582 }];
    app.click(&centers, Some(Vec2 { x: 736, y: 18 }), 10, 5);
    let stats = app.stats().unwrap();
    assert_eq!(stats, Stats { earth_mass_tenths: 10, speed_tenths: 297 });
    assert_eq!(stats.mass_label(), "1.0 x Earth");
    assert_eq!(stats.velocity_label(), "29.7 km/s");
    app.click(&centers, Some(Vec2 { x: 64, y: 582 }), 10, 5);
    assert_eq!(app.stats().unwrap().mass_label(), "333060.4 x Earth");
}

#[test]
fn what_is_saved_comes_back() {
    let mut app = App::with_bodies(roster(), None).unwrap();
    let centers = vec![Vec2 { x: 64, y: 582 }, Vec2 { x: 736, y: 18 }, Vec2 { x: 900, y: 582 }];
    app.click(&centers, Some(Vec2 { x: 900, y: 582 }), 10, 5);
    app.view_or_fit(800, 600, 10, 8);
    assert_eq!(app.update(1_000), Ok(()));
    let saved = app.save();
    assert_eq!(saved.selected, Selection::Selected(2));

    let again = App::with_bodies(roster(), Some(saved)).unwrap();
    assert_eq!(again.selected(), Some(2));
    assert_eq!(again.last_update(), None);
    let v = again.cached_view().unwrap();
    let w = app.cached_view().unwrap();
    assert_eq!(parts(&v), parts(&w));
}

#[test]
fn a_saved_selection_of_a_body_that_is_gone_is_dropped() {
    let saved = SavedState { view: None, selected: Selection::Selected(2) };
    let app = App::with_bodies(roster()[..2].to_vec(), Some(saved)).unwrap();
    assert_eq!(app.selection(), Selection::Unselected);
    assert_eq!(app.selected(), None);
    assert!(app.cached_view().is_none());

    let view = SimulationView::new(Wide { x: 1, y: 2 }, Scale::new(3, 4).unwrap()).unwrap();
    let saved = SavedState { view: Some(view), selected: Selection::Selected(1) };
    let app = App::with_bodies(roster()[..2].to_vec(), Some(saved)).unwrap();
    assert_eq!(app.selection(), Selection::Selected(1));
    let v = app.cached_view().unwrap();
    assert_eq!(parts(&v), (3, 4, 1, 2));

    let saved = SavedState { view: None, selected: Selection::Selected(0) };
    let app = App::with_bodies(Vec::new(), Some(saved)).unwrap();
    assert_eq!(app.selection(), Selection::Unselected);
}

#[test]
fn a_press_beyond_the_bodies_selects_nothing_that_is_there() {
    let mut app = App::with_bodies(roster()[..2].to_vec(), None).unwrap();
    let centers = vec![Vec2 { x: 64, y: 582 }, Vec2 { x: 736, y: 18 }, Vec2 { x: 900, y: 582 }];
    app.click(&centers, Some(Vec2 { x: 900, y: 582 }), 10, 5);
    assert_eq!(app.selection(), Selection::Selected(2));
    assert_eq!(app.selected(), None);
    assert_eq!(app.stats(), None);
}

#[test]
fn a_frame_begins_by_moving_and_then_draws_the_moved_bodies() {
    let mut app = App::with_bodies(roster(), None).unwrap();
    let (moved, items) = app.begin_frame(1_000, 10, false);
    assert_eq!(moved, Ok(()));
    assert_eq!(items.len(), 3);
    assert_eq!(app.last_update(), Some(1_000));

    let (moved, items) = app.begin_frame(1_016, 10, true);
    assert_eq!(moved, Ok(()));
    assert_eq!(app.last_update(), Some(1_016));
    assert_eq!(
        positions(&app)[2],
        Wide { x: 228_000_000_000_000_000_000, y: 202_926_650_143_104_000 }
    );
    assert_eq!(items.len(), 6);
    assert_eq!(
        items[4],
        DrawCommand::Marker {
            position: Vec2 { x: 228_000_000_000_000, y: 202_926_650_143 },
            radius: 10,
            color: RED,
            name: "Mars".to_string(),
        }
    );
    // The ring goes through the body where it stands now.
    assert_eq!(
        items[5],
        DrawCommand::OrbitRing {
            radius_mm: 228_000_090_305_300,
            spacing: 4,
            width_tenths: 5,
            color: RED
        }
    );
}

#[test]
fn a_frame_that_cannot_begin_draws_the_bodies_where_they_are() {
    let mut app = App::with_bodies(roster(), None).unwrap();
    assert_eq!(app.update(1), Ok(()));
    let (moved, items) = app.begin_frame(u64::MAX, 10, false);
    assert_eq!(moved, Err(SimError::OutOfRange));
    assert_eq!(app.last_update(), Some(1));
    assert_eq!(
        items[1],
        DrawCommand::Marker {
            position: Vec2 { x: 114_906_666_450_000, y: 96_418_141_500_000 },
            radius: 10,
            color: BLUE,
            name: "Earth".to_string(),
        }
    );
}

#[test]
fn a_frame_ends_with_the_overlay_of_the_old_selection_and_the_panel_of_the_new() {
    let mut app = App::with_bodies(roster(), None).unwrap();
    let centers = vec![Vec2 { x: 64, y: 582 }, Vec2 { x: 736, y: 18 }, Vec2 { x: 900, y: 582 }];
    let white = Color { r: 255, g: 255, b: 255, a: 255 };
    let light_gray = Color { r: 220, g: 220, b: 220, a: 255 };
    let outline = |commands: &Vec<DrawCommand>, i: usize| match &commands[2 * i] {
        DrawCommand::Circle { color, .. } => *color,
        other => panic!("not a circle: {other:?}"),
    };

    // Nothing is selected when the frame begins; the press selects the Earth.
    let end = app.end_frame(&centers, Some(Vec2 { x: 736, y: 18 }), 10, 5);
    let overlay = end.overlay.unwrap();
    assert_eq!(overlay.len(), 6);
    assert_eq!(outline(&overlay, 1), light_gray);
    assert_eq!(end.panel.unwrap().title, "Earth");
    assert_eq!(app.selected(), Some(1));

    // The Earth is highlighted in the next frame, whose press selects Mars.
    let end = app.end_frame(&centers, Some(Vec2 { x: 900, y: 582 }), 10, 5);
    let overlay = end.overlay.unwrap();
    assert_eq!(outline(&overlay, 1), white);
    assert_eq!(outline(&overlay, 2), light_gray);
    assert_eq!(end.panel.unwrap().title, "Mars");

    // A frame without a press keeps Mars.
    let end = app.end_frame(&centers, None, 10, 5);
    assert_eq!(outline(&end.overlay.unwrap(), 2), white);
    assert_eq!(end.panel.unwrap().title, "Mars");

    // A press on nothing: Mars is still highlighted in this frame, and the panel is gone.
    let end = app.end_frame(&centers, Some(Vec2 { x: 400, y: 300 }), 10, 5);
    assert_eq!(outline(&end.overlay.unwrap(), 2), white);
    assert_eq!(end.panel, None);
    assert_eq!(app.selection(), Selection::Unselected);
}

#[test]
fn a_frame_whose_labels_cannot_be_placed_still_takes_the_press() {
    let mut app = App::with_bodies(roster(), None).unwrap();
    let centers = vec![Vec2 { x: 64, y: 582 }, Vec2 { x: i64::MAX, y: 18 }, Vec2 { x: 900, y: 582 }];
    let end = app.end_frame(&centers, Some(Vec2 { x: i64::MAX - 3, y: 20 }), 10, 5);
    assert_eq!(end.overlay, Err(SimError::OutOfRange));
    assert_eq!(end.panel.unwrap().title, "Earth");
    assert_eq!(app.selected(), Some(1));
}
