use orrery::body::{Body, Color};
use orrery::heading::{Heading, UNIT};
use orrery::stats::{Stats, EARTH_MASS_KG};
use orrery::text::format_tenths;

const GRAY: Color = Color { r: 160, g: 160, b: 160, a: 255 };

fn body(mass_kg: u128, radius_km: i64) -> Body {
    Body::orbiting("Body", mass_kg, radius_km, GRAY, Heading::new(UNIT, 0).unwrap()).unwrap()
}

#[test]
fn format_tenths_writes_one_decimal() {
    assert_eq!(format_tenths(0, ""), "0.0");
    assert_eq!(format_tenths(7, " m"), "0.7 m");
    assert_eq!(format_tenths(10, " x Earth"), "1.0 x Earth");
    assert_eq!(format_tenths(297, " km/s"), "29.7 km/s");
    assert_eq!(format_tenths(3_330_604, " x Earth"), "333060.4 x Earth");
    assert_eq!(format_tenths(1_000, ""), "100.0");
    assert_eq!(format_tenths(1_234_567_890, "!"), "123456789.0!");
    assert_eq!(
        format_tenths(u128::MAX, ""),
        "34028236692093846346337460743176821145.5"
    );
}

#[test]
fn stats_of_the_earth() {
    let earth =
        Body::orbiting("Earth", EARTH_MASS_KG, 150_000_000, GRAY, Heading::from_degrees(40))
            .unwrap();
    let stats = Stats::of(&earth);
    assert_eq!(stats, Stats { earth_mass_tenths: 10, speed_tenths: 297 });
    assert_eq!(stats.mass_label(), "1.0 x Earth");
    assert_eq!(stats.velocity_label(), "29.7 km/s");
}

#[test]
fn stats_of_the_sun() {
    let sun = body(1_989_100_000_000_000_000_000_000_000_000, 0);
    let stats = Stats::of(&sun);
    // 1.9891e30 / 5.97219e24 = 333_060.40
    assert_eq!(stats, Stats { earth_mass_tenths: 3_330_604, speed_tenths: 0 });
    assert_eq!(stats.mass_label(), "333060.4 x Earth");
    assert_eq!(stats.velocity_label(), "0.0 km/s");
}

#[test]
fn stats_of_lighter_and_heavier_planets() {
    // Mercury: 3.285e23 / 5.97219e24 = 0.055; its speed at 57.9e6 km is 47_884.16 m/s.
    let mercury = Stats::of(&body(328_500_000_000_000_000_000_000, 57_900_000));
    assert_eq!(mercury, Stats { earth_mass_tenths: 1, speed_tenths: 479 });
    assert_eq!(mercury.mass_label(), "0.1 x Earth");
    assert_eq!(mercury.velocity_label(), "47.9 km/s");
    // Jupiter: 1.899e27 / 5.97219e24 = 317.97; its speed at 778.5e6 km is 13_058.76 m/s.
    let jupiter = Stats::of(&body(1_899_000_000_000_000_000_000_000_000, 778_500_000));
    assert_eq!(jupiter, Stats { earth_mass_tenths: 3_180, speed_tenths: 131 });
    assert_eq!(jupiter.mass_label(), "318.0 x Earth");
    assert_eq!(jupiter.velocity_label(), "13.1 km/s");
}

#[test]
fn mass_rounds_to_the_nearest_tenth_and_a_half_to_even() {
    let twentieth = EARTH_MASS_KG / 20;
    assert_eq!(Stats::of(&body(twentieth, 0)).earth_mass_tenths, 0);
    assert_eq!(Stats::of(&body(twentieth + 1, 0)).earth_mass_tenths, 1);
    assert_eq!(Stats::of(&body(3 * twentieth - 1, 0)).earth_mass_tenths, 1);
    assert_eq!(Stats::of(&body(3 * twentieth, 0)).earth_mass_tenths, 2);
    assert_eq!(Stats::of(&body(5 * twentieth, 0)).earth_mass_tenths, 2);
    assert_eq!(Stats::of(&body(5 * twentieth + 1, 0)).earth_mass_tenths, 3);
    assert_eq!(Stats::of(&body(1, 0)).earth_mass_tenths, 0);
    // 2^128 / 5.97219e24 = 5.6978e13
    assert_eq!(Stats::of(&body(u128::MAX, 0)).earth_mass_tenths, 569_778_200_159_302);
}

#[test]
fn speed_rounds_to_the_nearest_tenth_and_a_half_to_even() {
    // Due east of the central body the velocity is the orbital speed, due north: the
    // floor of the root of 1.327585013e32 over the radius in metres, in micrometres a
    // second. A tenth of a kilometre a second is 100_000_000 of them.
    assert_eq!(Stats::of(&body(1, 1)).speed_tenths, 3_643_604);
    assert_eq!(Stats::of(&body(1, 1_000_000_000_000)).speed_tenths, 4);
    // 449_999_999 and 450_000_000; 550_000_000; 650_000_000
    assert_eq!(Stats::of(&body(1, 655_597_540_197)).speed_tenths, 4);
    assert_eq!(Stats::of(&body(1, 655_597_537_283)).speed_tenths, 4);
    assert_eq!(Stats::of(&body(1, 438_871_078_677)).speed_tenths, 6);
    assert_eq!(Stats::of(&body(1, 314_221_304_852)).speed_tenths, 6);
}

#[test]
fn speed_just_above_a_half_rounds_up() {
    let b = Body::orbiting("Body", 1, 655_597_534_370, GRAY, Heading::from_degrees(1)).unwrap();
    assert_eq!(b.velocity().x, -7_853_583);
    assert_eq!(b.velocity().y, 449_931_463);
    // 7_853_583^2 + 449_931_463^2 = 202_500_000_163_258_258, a little above 450_000_000^2:
    // an exact 4.5 would go to the even 4.
    assert_eq!(Stats::of(&b).speed_tenths, 5);
    assert_eq!(Stats::of(&b).velocity_label(), "0.5 km/s");
}
