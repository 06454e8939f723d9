use orrery::body::{Body, Color};
use orrery::error::SimError;
use orrery::heading::{Heading, UNIT};
use orrery::roster::solar_system;
use orrery::vector::{Vec2, Wide};
use orrery::view::{fit_view, project, unproject, Scale, SimulationView, CENTER_LIMIT, MAX_DEN};

const GRAY: Color = Color { r: 160, g: 160, b: 160, a: 255 };

/// A body whose place, in millimetres, is a million times `radius_km` in the direction
/// given.
fn body_at(radius_km: i64, cos: i64, sin: i64) -> Body {
    Body::orbiting("Body", 1, radius_km, GRAY, Heading::new(cos, sin).unwrap()).unwrap()
}

fn sun_and_earth() -> Vec<Body> {
    vec![
        Body::orbiting("Sun", 1_989_100_000_000_000_000_000_000_000_000, 0, GRAY, Heading::from_degrees(0))
            .unwrap(),
        Body::orbiting(
            "Earth",
            5_972_190_000_000_000_000_000_000,
            150_000_000,
            GRAY,
            Heading::from_degrees(40),
        )
        .unwrap(),
    ]
}

fn view(center: (i128, i128), num: u32, den: u64) -> SimulationView {
    SimulationView::new(Wide { x: center.0, y: center.1 }, Scale::new(num, den).unwrap()).unwrap()
}

fn parts(v: &SimulationView) -> (u32, u64, i128, i128) {
    (v.scale().num(), v.scale().den(), v.center().x, v.center().y)
}

#[test]
fn scale_needs_two_positive_parts() {
    assert!(Scale::new(0, 1).is_none());
    assert!(Scale::new(1, 0).is_none());
    assert!(Scale::new(0, 0).is_none());
    let s = Scale::new(564, 96_418_141_500_000).unwrap();
    assert_eq!(s.num(), 564);
    assert_eq!(s.den(), 96_418_141_500_000);
    let s = Scale::new(u32::MAX, MAX_DEN).unwrap();
    assert_eq!(s.num(), u32::MAX);
    assert_eq!(s.den(), 2_305_843_009_213_693_952);
    assert!(Scale::new(1, MAX_DEN + 1).is_none());
    assert!(Scale::new(1, u64::MAX).is_none());
}

#[test]
fn identity_scale_is_one_to_one() {
    let s = Scale::identity();
    assert_eq!(s.num(), 1);
    assert_eq!(s.den(), 1);
}

#[test]
fn a_view_needs_its_centre_within_the_limit() {
    let s = Scale::identity();
    assert!(SimulationView::new(Wide { x: CENTER_LIMIT, y: -CENTER_LIMIT }, s).is_some());
    assert!(SimulationView::new(Wide { x: CENTER_LIMIT + 1, y: 0 }, s).is_none());
    assert!(SimulationView::new(Wide { x: 0, y: -CENTER_LIMIT - 1 }, s).is_none());
    assert!(SimulationView::new(Wide { x: i128::MAX, y: i128::MIN }, s).is_none());
    let v = view((12, -7), 3, 4);
    assert_eq!(parts(&v), (3, 4, 12, -7));
    assert_eq!(v.grid(), 8);
}

#[test]
fn fit_view_of_sun_and_earth() {
    let bodies = sun_and_earth();
    let v = fit_view(&bodies, 800, 600, 10, 8);
    // The box is 114_906_666_450_000 mm by 96_418_141_500_000 mm and the room 764 by 564:
    // 764 / 114_906_666_450_000 = 6.65e-12 and 564 / 96_418_141_500_000 = 5.85e-12.
    assert_eq!(v.scale().num(), 564);
    assert_eq!(v.scale().den(), 96_418_141_500_000);
    assert_eq!(v.grid(), 192_836_283_000_000);
    // Half the box at that scale, in steps of the grid: the sum of its ends times 564.
    assert_eq!(v.center(), Wide { x: 64_807_359_877_800_000, y: 54_379_831_806_000_000 });
    let grid = v.grid() as f64;
    assert!((v.center().x as f64 / grid - 336.0745).abs() < 1e-4);
    assert_eq!(v.center().y as f64 / grid, 282.0);
    // Per metre that is 5.8495e-9.
    let scale = 1e3 * v.scale().num() as f64 / v.scale().den() as f64;
    assert!((scale - 5.8495e-9).abs() < 1e-12);

    let viewport_center = Vec2 { x: 400, y: 300 };
    let earth = project(&v, viewport_center, bodies[1].place());
    assert_eq!(earth, Wide { x: 141_941_873_077_800_000, y: 3_471_053_094_000_000 });
    let (x, y) = (earth.x as f64 / grid, earth.y as f64 / grid);
    assert!((x - 736.0745).abs() < 1e-4);
    assert_eq!(y, 18.0);
    assert!(18.0 <= x && x <= 782.0 && 18.0 <= y && y <= 582.0);
    assert_eq!(v.whole(earth), Some(Vec2 { x: 736, y: 18 }));
    let sun = project(&v, viewport_center, bodies[0].place());
    assert_eq!(sun, Wide { x: 12_327_153_322_200_000, y: 112_230_716_706_000_000 });
    assert!((sun.x as f64 / grid - 63.9255).abs() < 1e-4);
    assert_eq!(sun.y as f64 / grid, 582.0);
    assert_eq!(v.whole(sun), Some(Vec2 { x: 63, y: 582 }));
}

#[test]
fn fit_view_of_sun_and_earth_due_east() {
    let bodies = vec![body_at(0, UNIT, 0), body_at(150_000_000, UNIT, 0)];
    let v = fit_view(&bodies, 800, 600, 10, 8);
    // The box is 1.5e14 mm wide and has no height: per metre, 764 / 1.5e11 = 5.09e-9.
    assert_eq!(parts(&v), (764, 150_000_000_000_000, 114_600_000_000_000_000, 0));
    let scale = 1e3 * v.scale().num() as f64 / v.scale().den() as f64;
    assert!((scale - 5.09e-9).abs() < 1e-11);
    assert!(1.5e11 * scale <= 764.0);
    let earth = project(&v, Vec2 { x: 400, y: 300 }, bodies[1].place());
    assert_eq!(earth, Wide { x: 234_600_000_000_000_000, y: 90_000_000_000_000_000 });
    assert_eq!(v.whole(earth), Some(Vec2 { x: 782, y: 300 }));
}

#[test]
fn fit_view_of_one_body_at_the_origin_is_the_identity() {
    let bodies = vec![body_at(0, UNIT, 0)];
    let v = fit_view(&bodies, 800, 600, 10, 8);
    assert_eq!(parts(&v), (1, 1, 0, 0));
}

#[test]
fn fit_view_of_one_body_elsewhere_is_centred_on_it() {
    let bodies = vec![body_at(7, 0, -UNIT)];
    let v = fit_view(&bodies, 800, 600, 10, 8);
    // The body stands at (0, -7_000_000); the grid has two steps to a unit.
    assert_eq!(parts(&v), (1, 1, 0, -14_000_000));
    assert_eq!(project(&v, Vec2 { x: 400, y: 300 }, bodies[0].place()), Wide { x: 800, y: 600 });
}

#[test]
fn fit_view_of_no_body_is_the_identity() {
    let bodies: Vec<Body> = Vec::new();
    let v = fit_view(&bodies, 800, 600, 10, 8);
    assert_eq!(parts(&v), (1, 1, 0, 0));
}

#[test]
fn fit_view_ignores_an_axis_without_extent() {
    let along_x = vec![body_at(0, UNIT, 0), body_at(1_000, UNIT, 0)];
    let v = fit_view(&along_x, 800, 600, 10, 8);
    assert_eq!(parts(&v), (764, 1_000_000_000, 764_000_000_000, 0));

    let along_y = vec![body_at(1_000, 0, -UNIT), body_at(3_000, 0, UNIT)];
    let v = fit_view(&along_y, 800, 600, 10, 8);
    // The ends are at y = -1e9 and 3e9: their sum times 564.
    assert_eq!(parts(&v), (564, 4_000_000_000, 0, 1_128_000_000_000));
}

#[test]
fn fit_view_takes_the_smaller_of_the_two_scales() {
    // A box of 4e9 by 1e9 in a room of 764 by 564: the width decides.
    let wide = vec![body_at(2_000, -UNIT, 0), body_at(2_000, UNIT, 0), body_at(1_000, 0, UNIT)];
    let v = fit_view(&wide, 800, 600, 10, 8);
    assert_eq!(parts(&v), (764, 4_000_000_000, 0, 764_000_000_000));
    // The middle of the box, (0, 5e8), is shown 95.5 units from the centre's zero.
    assert_eq!(v.center().y as f64 / v.grid() as f64, 95.5);
    // In a room of 764 by 64 the height decides.
    let v = fit_view(&wide, 800, 100, 10, 8);
    assert_eq!(parts(&v), (64, 1_000_000_000, 0, 64_000_000_000));
}

#[test]
fn fit_view_keeps_a_negative_centre_exactly() {
    let west = vec![body_at(0, UNIT, 0), body_at(3, -UNIT, 0)];
    let v = fit_view(&west, 43, 600, 10, 8);
    assert_eq!(parts(&v), (7, 3_000_000, -21_000_000, 0));
    assert_eq!(v.center().x as f64 / v.grid() as f64, -3.5);
}

#[test]
fn fit_view_without_room_keeps_a_scale_of_one() {
    let bodies = sun_and_earth();
    for (width, height) in [(0, 0), (0, 600), (800, 0), (36, 600), (800, 36), (20, 20)] {
        let v = fit_view(&bodies, width, height, 10, 8);
        assert_eq!(parts(&v), (1, 1, 114_906_666_450_000, 96_418_141_500_000));
    }
    let v = fit_view(&bodies, 37, 37, 10, 8);
    assert_eq!(parts(&v), (1, 114_906_666_450_000, 114_906_666_450_000, 96_418_141_500_000));
}

#[test]
fn fit_view_with_the_largest_insets() {
    let bodies = sun_and_earth();
    let v = fit_view(&bodies, u32::MAX, u32::MAX, u32::MAX, u32::MAX);
    assert_eq!(parts(&v), (1, 1, 114_906_666_450_000, 96_418_141_500_000));
    let v = fit_view(&bodies, u32::MAX, u32::MAX, 0, 0);
    assert_eq!(
        parts(&v),
        (
            u32::MAX,
            114_906_666_450_000,
            493_520_374_380_223_752_750_000,
            414_112_764_387_182_242_500_000
        )
    );
}

#[test]
fn fit_view_of_the_widest_extent() {
    // Two bodies at the greatest radius on either side: 2e18 mm apart, within 2^61.
    let apart = vec![body_at(1_000_000_000_000, UNIT, 0), body_at(1_000_000_000_000, -UNIT, 0)];
    let v = fit_view(&apart, 800, 600, 10, 8);
    assert_eq!(parts(&v), (764, 2_000_000_000_000_000_000, 0, 0));
    assert!(v.scale().den() <= MAX_DEN);
    let c = Vec2 { x: 400, y: 300 };
    assert_eq!(
        project(&v, c, apart[0].place()),
        Wide { x: 782 * 4_000_000_000_000_000_000, y: 300 * 4_000_000_000_000_000_000 }
    );
    assert_eq!(
        project(&v, c, apart[1].place()),
        Wide { x: 18 * 4_000_000_000_000_000_000, y: 300 * 4_000_000_000_000_000_000 }
    );
}

#[test]
fn project_scales_shifts_and_turns_the_vertical_axis() {
    // Half a unit per millimetre, the centre at (3, 4): four steps of the grid to a unit.
    let v = view((12, 16), 1, 2);
    let c = Vec2 { x: 400, y: 300 };
    // (10, -7) lands at 400 + (5 - 3) and 300 - (-3.5 - 4)
    assert_eq!(project(&v, c, Vec2 { x: 10, y: -7 }), Wide { x: 1_608, y: 1_230 });
    assert_eq!(project(&v, c, Vec2 { x: 0, y: 0 }), Wide { x: 1_588, y: 1_216 });
    assert_eq!(project(&v, c, Vec2 { x: -1, y: 1 }), Wide { x: 1_586, y: 1_214 });
    let v = view((0, 0), 3, 1);
    assert_eq!(project(&v, c, Vec2 { x: 10, y: 20 }), Wide { x: 860, y: 480 });
    assert_eq!(project(&v, Vec2 { x: 0, y: 0 }, Vec2 { x: -5, y: -5 }), Wide { x: -30, y: 30 });
}

#[test]
fn project_holds_every_point_of_every_view() {
    let v = view((CENTER_LIMIT, -CENTER_LIMIT), u32::MAX, MAX_DEN);
    assert_eq!(
        project(&v, Vec2 { x: i64::MAX, y: i64::MIN }, Vec2 { x: i64::MIN, y: i64::MAX }),
        Wide {
            x: -79_228_162_500_429_279_538_261_786_624,
            y: -85_070_591_809_462_778_361_661_245_369_186_516_994
        }
    );
    assert_eq!(
        project(&v, Vec2 { x: i64::MIN, y: i64::MAX }, Vec2 { x: i64::MAX, y: i64::MIN }),
        Wide {
            x: -85_070_591_651_006_453_370_026_058_346_697_588_734,
            y: 79_228_162_491_205_907_501_407_010_816
        }
    );
}

#[test]
fn whole_rounds_a_screen_position_down() {
    // Four steps to a unit.
    let v = view((0, 0), 1, 2);
    assert_eq!(v.whole(Wide { x: 1_608, y: 1_230 }), Some(Vec2 { x: 402, y: 307 }));
    assert_eq!(v.whole(Wide { x: -1, y: -4 }), Some(Vec2 { x: -1, y: -1 }));
    assert_eq!(v.whole(Wide { x: -5, y: 3 }), Some(Vec2 { x: -2, y: 0 }));
    // Two steps to a unit.
    let v = view((0, 0), 1, 1);
    assert_eq!(v.whole(Wide { x: i128::MAX, y: 0 }), None);
    assert_eq!(
        v.whole(Wide { x: 2 * i64::MAX as i128 + 1, y: 2 * i64::MIN as i128 }),
        Some(Vec2 { x: i64::MAX, y: i64::MIN })
    );
    assert_eq!(v.whole(Wide { x: 2 * i64::MAX as i128 + 2, y: 0 }), None);
}

#[test]
fn a_whole_unit_on_the_grid() {
    let v = view((0, 0), 1, 2);
    assert_eq!(v.on_grid(Vec2 { x: 402, y: -307 }), Wide { x: 1_608, y: -1_228 });
    assert_eq!(v.whole(v.on_grid(Vec2 { x: 402, y: -307 })), Some(Vec2 { x: 402, y: -307 }));
    let v = view((0, 0), 1, MAX_DEN);
    let corner = Vec2 { x: i64::MIN, y: i64::MAX };
    assert_eq!(
        v.on_grid(corner),
        Wide {
            x: -42_535_295_865_117_307_932_921_825_928_971_026_432,
            y: 42_535_295_865_117_307_928_310_139_910_543_638_528
        }
    );
    assert_eq!(v.whole(v.on_grid(corner)), Some(corner));
    // The pointer at the centre of the viewport is over the centre of a view at zero.
    let v = view((0, 0), 3, 1);
    let c = Vec2 { x: 400, y: 300 };
    assert_eq!(unproject(&v, c, v.on_grid(c)), Ok(Vec2 { x: 0, y: 0 }));
    assert_eq!(unproject(&v, c, v.on_grid(Vec2 { x: 406, y: 297 })), Ok(Vec2 { x: 2, y: 1 }));
}

#[test]
fn unproject_undoes_the_projection() {
    let v = view((12, 16), 1, 2);
    let c = Vec2 { x: 400, y: 300 };
    assert_eq!(unproject(&v, c, Wide { x: 1_608, y: 1_230 }), Ok(Vec2 { x: 10, y: -7 }));
    assert_eq!(unproject(&v, c, Wide { x: 1_586, y: 1_214 }), Ok(Vec2 { x: -1, y: 1 }));
    let v = view((0, 0), 3, 1);
    assert_eq!(unproject(&v, c, Wide { x: 860, y: 480 }), Ok(Vec2 { x: 10, y: 20 }));
}

#[test]
fn unproject_rounds_other_screen_positions_down() {
    // Three units per millimetre, two steps to a unit.
    let v = view((0, 0), 3, 1);
    let c = Vec2 { x: 400, y: 300 };
    assert_eq!(unproject(&v, c, Wide { x: 861, y: 479 }), Ok(Vec2 { x: 10, y: 20 }));
    assert_eq!(unproject(&v, c, Wide { x: 862, y: 478 }), Ok(Vec2 { x: 10, y: 20 }));
    assert_eq!(unproject(&v, c, Wide { x: 798, y: 602 }), Ok(Vec2 { x: -1, y: -1 }));
}

#[test]
fn unproject_fails_where_the_physical_point_cannot_be_held() {
    let c = Vec2 { x: 0, y: 0 };
    let v = view((0, 0), 1, 1);
    assert_eq!(
        unproject(&v, c, Wide { x: 2 * i64::MAX as i128, y: 0 }),
        Ok(Vec2 { x: i64::MAX, y: 0 })
    );
    assert_eq!(
        unproject(&v, c, Wide { x: 2 * i64::MAX as i128 + 2, y: 0 }),
        Err(SimError::OutOfRange)
    );
    assert_eq!(unproject(&v, c, Wide { x: i128::MAX, y: 0 }), Err(SimError::OutOfRange));
    assert_eq!(unproject(&v, c, Wide { x: 0, y: i128::MIN }), Err(SimError::OutOfRange));
    let v = view((CENTER_LIMIT, CENTER_LIMIT), u32::MAX, MAX_DEN);
    assert_eq!(
        unproject(&v, Vec2 { x: i64::MIN, y: i64::MAX }, Wide { x: i128::MAX, y: i128::MIN }),
        Err(SimError::OutOfRange)
    );
}

#[test]
fn projecting_and_back_is_exact() {
    let bodies = solar_system();
    let v = fit_view(&bodies, 800, 600, 10, 8);
    let c = Vec2 { x: 400, y: 300 };
    for body in &bodies {
        let place = body.place();
        assert_eq!(unproject(&v, c, project(&v, c, place)), Ok(place));
    }
    let v = view((0, 0), 1, 1_000);
    for place in [
        Vec2 { x: 999, y: 0 },
        Vec2 { x: -1, y: 1 },
        Vec2 { x: i64::MAX, y: i64::MIN },
        Vec2 { x: 0, y: 0 },
    ] {
        assert_eq!(unproject(&v, c, project(&v, c, place)), Ok(place));
    }
    let v = view((-CENTER_LIMIT, CENTER_LIMIT), u32::MAX, MAX_DEN);
    let far = Vec2 { x: i64::MIN, y: i64::MAX };
    assert_eq!(unproject(&v, Vec2 { x: i64::MAX, y: i64::MIN }, project(&v, Vec2 { x: i64::MAX, y: i64::MIN }, far)), Ok(far));
}

#[test]
fn the_fitted_view_shows_every_body() {
    let bodies = solar_system();
    for (width, height, radius, margin) in
        [(800u32, 600u32, 10u32, 8u32), (600, 800, 10, 8), (37, 37, 10, 8), (1_920, 1_080, 0, 0), (100, 4_000, 3, 40)]
    {
        let inset = 2 * (radius + margin) as i128;
        let (usable_w, usable_h) = (width as i128 - inset, height as i128 - inset);
        let view = fit_view(&bodies, width, height, radius, margin);
        let grid = view.grid() as i128;
        let c = Vec2 { x: width as i64 / 2, y: height as i64 / 2 };
        for body in &bodies {
            let s = project(&view, c, body.place());
            assert!(2 * (s.x - c.x as i128 * grid).abs() <= usable_w * grid);
            assert!(2 * (s.y - c.y as i128 * grid).abs() <= usable_h * grid);
        }
    }
}

#[test]
fn the_fitted_view_of_the_solar_system() {
    let bodies = solar_system();
    // Uranus is highest and Mercury lowest; Neptune is furthest right, at
    // x = 4_341_836_587_870_000 mm, and Mercury furthest left, at x = -54_408_202_755_900.
    let v = fit_view(&bodies, 800, 600, 10, 8);
    assert_eq!(
        parts(&v),
        (764, 4_396_244_790_625_900, 3_275_595_286_227_172_400, 1_081_592_533_762_309_200)
    );
    let grid = v.grid() as f64;
    assert!((v.center().x as f64 / grid - 372.5447).abs() < 1e-4);
    assert!((v.center().y as f64 / grid - 123.0132).abs() < 1e-4);
}
