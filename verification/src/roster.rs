//! The Sun and its eight planets, as the simulation starts with them.

use vstd::prelude::*;
use crate::body::{models, placed, unique_names, Body, BodyModel, Color};
use crate::heading::{heading_of_degrees, Heading};

verus! {

/// The roster. Each body has its name, its mass in kilograms, the radius of its orbit in
/// kilometres, its colour, and the angle at which it starts, in degrees.
pub open spec fn solar_system_models() -> Seq<BodyModel> {
    seq![
        placed(
            "Sun"@,
            1_989_100_000_000_000_000_000_000_000_000,
            0,
            Color { r: 255, g: 215, b: 0, a: 255 },
            heading_of_degrees(0),
        ),
        placed(
            "Mercury"@,
            328_500_000_000_000_000_000_000,
            57_900_000,
            Color { r: 160, g: 160, b: 160, a: 255 },
            heading_of_degrees(200),
        ),
        placed(
            "Venus"@,
            4_867_000_000_000_000_000_000_000,
            108_200_000,
            Color { r: 0, g: 255, b: 0, a: 255 },
            heading_of_degrees(110),
        ),
        placed(
            "Earth"@,
            5_972_190_000_000_000_000_000_000,
            150_000_000,
            Color { r: 0, g: 0, b: 255, a: 255 },
            heading_of_degrees(40),
        ),
        placed(
            "Mars"@,
            639_000_000_000_000_000_000_000,
            228_000_000,
            Color { r: 255, g: 0, b: 0, a: 255 },
            heading_of_degrees(40),
        ),
        placed(
            "Jupiter"@,
            1_899_000_000_000_000_000_000_000_000,
            778_500_000,
            Color { r: 165, g: 42, b: 42, a: 255 },
            heading_of_degrees(75),
        ),
        placed(
            "Saturn"@,
            568_300_000_000_000_000_000_000_000,
            1_434_000_000,
            Color { r: 255, g: 255, b: 0, a: 255 },
            heading_of_degrees(60),
        ),
        placed(
            "Uranus"@,
            86_810_000_000_000_000_000_000_000,
            2_871_000_000,
            Color { r: 173, g: 216, b: 230, a: 255 },
            heading_of_degrees(30),
        ),
        placed(
            "Neptune"@,
            102_400_000_000_000_000_000_000_000,
            4_495_000_000,
            Color { r: 0, g: 0, b: 255, a: 255 },
            heading_of_degrees(15),
        ),
    ]
}

/// One body of the roster.
fn entry(name: &str, mass_kg: u128, orbital_radius_km: i64, color: Color, degrees: i64) -> (b:
    Body)
    requires
        mass_kg > 0,
        0 <= orbital_radius_km <= 9_000_000_000,
    ensures
        b@ == placed(
            name@,
            mass_kg as nat,
            orbital_radius_km as int,
            color,
            heading_of_degrees(degrees as int),
        ),
{
    Body::orbiting(name, mass_kg, orbital_radius_km, color, Heading::from_degrees(degrees)).unwrap()
}

/// The names of the roster are all different.
proof fn lemma_roster_names_differ()
    ensures
        unique_names(solar_system_models()),
{
    reveal_strlit("Sun");
    reveal_strlit("Mercury");
    reveal_strlit("Venus");
    reveal_strlit("Earth");
    reveal_strlit("Mars");
    reveal_strlit("Jupiter");
    reveal_strlit("Saturn");
    reveal_strlit("Uranus");
    reveal_strlit("Neptune");
    assert("Venus"@[0] != "Earth"@[0]);
    assert("Saturn"@[0] != "Uranus"@[0]);
    assert("Mercury"@[0] != "Jupiter"@[0]);
    assert("Mercury"@[0] != "Neptune"@[0]);
    assert("Jupiter"@[0] != "Neptune"@[0]);
    let all = solar_system_models();
    assert(all.len() == 9);
    assert(all[0].name == "Sun"@ && all[1].name == "Mercury"@ && all[2].name == "Venus"@);
    assert(all[3].name == "Earth"@ && all[4].name == "Mars"@ && all[5].name == "Jupiter"@);
    assert(all[6].name == "Saturn"@ && all[7].name == "Uranus"@ && all[8].name == "Neptune"@);
    assert forall|i: int, j: int| 0 <= i < j < all.len() implies (#[trigger] all[i]).name != (
    #[trigger] all[j]).name by {
        assert(all[i].name.len() != all[j].name.len() || all[i].name[0] != all[j].name[0]);
    }
}

/// The Sun and its eight planets: see [`solar_system_models`].
pub fn solar_system() -> (bodies: Vec<Body>)
    ensures
        models(bodies@) == solar_system_models(),
        unique_names(models(bodies@)),
{
    let mut bodies: Vec<Body> = Vec::new();
    bodies.push(
        entry(
            "Sun",
            1_989_100_000_000_000_000_000_000_000_000,
            0,
            Color { r: 255, g: 215, b: 0, a: 255 },
            0,
        ),
    );
    bodies.push(
        entry(
            "Mercury",
            328_500_000_000_000_000_000_000,
            57_900_000,
            Color { r: 160, g: 160, b: 160, a: 255 },
            200,
        ),
    );
    bodies.push(
        entry(
            "Venus",
            4_867_000_000_000_000_000_000_000,
            108_200_000,
            Color { r: 0, g: 255, b: 0, a: 255 },
            110,
        ),
    );
    bodies.push(
        entry(
            "Earth",
            5_972_190_000_000_000_000_000_000,
            150_000_000,
            Color { r: 0, g: 0, b: 255, a: 255 },
            40,
        ),
    );
    bodies.push(
        entry(
            "Mars",
            639_000_000_000_000_000_000_000,
            228_000_000,
            Color { r: 255, g: 0, b: 0, a: 255 },
            40,
        ),
    );
    bodies.push(
        entry(
            "Jupiter",
            1_899_000_000_000_000_000_000_000_000,
            778_500_000,
            Color { r: 165, g: 42, b: 42, a: 255 },
            75,
        ),
    );
    bodies.push(
        entry(
            "Saturn",
            568_300_000_000_000_000_000_000_000,
            1_434_000_000,
            Color { r: 255, g: 255, b: 0, a: 255 },
            60,
        ),
    );
    bodies.push(
        entry(
            "Uranus",
            86_810_000_000_000_000_000_000_000,
            2_871_000_000,
            Color { r: 173, g: 216, b: 230, a: 255 },
            30,
        ),
    );
    bodies.push(
        entry(
            "Neptune",
            102_400_000_000_000_000_000_000_000,
            4_495_000_000,
            Color { r: 0, g: 0, b: 255, a: 255 },
            15,
        ),
    );
    proof {
        assert(models(bodies@) =~= solar_system_models());
        lemma_roster_names_differ();
    }
    bodies
}

} // verus!
