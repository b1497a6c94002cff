//! The five planet shaders as a closed set, and the choice of the one that
//! is active. The shading itself is floating-point work and no part of this
//! crate: each shader here is the tag under which it is carried out.

use vstd::prelude::*;

use crate::color::Color;

verus! {

/// The number of planet shaders.
pub const PLANET_COUNT: usize = 5;

/// The five planets, in the order of their number keys.
#[derive(Debug, Clone, Copy, PartialEq, Eq, Structural)]
pub enum PlanetType {
    Rocky,
    GasGiant,
    Crystal,
    Nebula,
    Saturn,
}

/// The shader of the rocky planet: terrain displaced by layered noise.
#[derive(Debug, Clone, Copy, PartialEq, Eq, Structural)]
pub struct RockyPlanetShader;

/// The shader of the gas giant: turbulent horizontal bands.
#[derive(Debug, Clone, Copy, PartialEq, Eq, Structural)]
pub struct GasGiantShader;

/// The shader of the crystalline planet: circuits and energy veins.
#[derive(Debug, Clone, Copy, PartialEq, Eq, Structural)]
pub struct CrystalPlanetShader;

/// The shader of the nebula planet: drifting cosmic gas.
#[derive(Debug, Clone, Copy, PartialEq, Eq, Structural)]
pub struct LavaPlanetShader;

/// The shader of the metallic planet: a surface of spikes.
#[derive(Debug, Clone, Copy, PartialEq, Eq, Structural)]
pub struct SaturnShader;

impl PlanetType {
    /// The place of this planet among the five, from zero.
    pub open spec fn spec_index(self) -> usize {
        match self {
            PlanetType::Rocky => 0,
            PlanetType::GasGiant => 1,
            PlanetType::Crystal => 2,
            PlanetType::Nebula => 3,
            PlanetType::Saturn => 4,
        }
    }

    /// The place of this planet among the five, from zero.
    #[verifier::when_used_as_spec(spec_index)]
    pub fn index(self) -> (i: usize)
        ensures
            i == self.spec_index(),
            i < PLANET_COUNT,
    {
        match self {
            PlanetType::Rocky => 0,
            PlanetType::GasGiant => 1,
            PlanetType::Crystal => 2,
            PlanetType::Nebula => 3,
            PlanetType::Saturn => 4,
        }
    }

    /// The planet at place `index`, where there is one.
    pub fn from_index(index: usize) -> (p: Option<PlanetType>)
        ensures
            index < PLANET_COUNT <==> p is Some,
            p matches Some(planet) ==> planet.spec_index() == index,
    {
        if index == 0 {
            Some(PlanetType::Rocky)
        } else if index == 1 {
            Some(PlanetType::GasGiant)
        } else if index == 2 {
            Some(PlanetType::Crystal)
        } else if index == 3 {
            Some(PlanetType::Nebula)
        } else if index == 4 {
            Some(PlanetType::Saturn)
        } else {
            None
        }
    }
}

impl RockyPlanetShader {
    /// The planet that this shader draws.
    pub fn planet(&self) -> (p: PlanetType)
        ensures
            p == PlanetType::Rocky,
    {
        PlanetType::Rocky
    }
}

impl GasGiantShader {
    /// The planet that this shader draws.
    pub fn planet(&self) -> (p: PlanetType)
        ensures
            p == PlanetType::GasGiant,
    {
        PlanetType::GasGiant
    }
}

/// The two colours of band `row` of the gas giant: the colours between which
/// the band is blended. The bands repeat every eight rows from row zero
/// upwards; below row zero only every eighth row has the colours of row
/// zero, and all the others those of row seven.
pub open spec fn band_pair(row: i32) -> (Color, Color) {
    let very_dark = Color { r: 60, g: 35, b: 15 };
    let dark_brown = Color { r: 110, g: 65, b: 25 };
    let rust_brown = Color { r: 150, g: 85, b: 35 };
    let orange = Color { r: 200, g: 120, b: 50 };
    let tan = Color { r: 210, g: 150, b: 90 };
    let beige = Color { r: 230, g: 190, b: 130 };
    let cream = Color { r: 245, g: 220, b: 170 };
    let white = Color { r: 255, g: 250, b: 230 };
    if row % 8 == 0 {
        (very_dark, dark_brown)
    } else if row < 0 {
        (white, cream)
    } else if row % 8 == 1 {
        (tan, beige)
    } else if row % 8 == 2 {
        (dark_brown, rust_brown)
    } else if row % 8 == 3 {
        (cream, white)
    } else if row % 8 == 4 {
        (rust_brown, orange)
    } else if row % 8 == 5 {
        (beige, cream)
    } else if row % 8 == 6 {
        (orange, tan)
    } else {
        (white, cream)
    }
}

impl GasGiantShader {
    /// The two colours of band `row`: `band_pair`. They do not depend on
    /// the time.
    pub fn band_colors(&self, row: i32) -> (pair: (Color, Color))
        ensures
            pair == band_pair(row),
    {
        let very_dark = Color { r: 60, g: 35, b: 15 };
        let dark_brown = Color { r: 110, g: 65, b: 25 };
        let rust_brown = Color { r: 150, g: 85, b: 35 };
        let orange = Color { r: 200, g: 120, b: 50 };
        let tan = Color { r: 210, g: 150, b: 90 };
        let beige = Color { r: 230, g: 190, b: 130 };
        let cream = Color { r: 245, g: 220, b: 170 };
        let white = Color { r: 255, g: 250, b: 230 };
        let band: i32 = row % 8;
        if band == 0 {
            (very_dark, dark_brown)
        } else if band == 1 {
            (tan, beige)
        } else if band == 2 {
            (dark_brown, rust_brown)
        } else if band == 3 {
            (cream, white)
        } else if band == 4 {
            (rust_brown, orange)
        } else if band == 5 {
            (beige, cream)
        } else if band == 6 {
            (orange, tan)
        } else {
            (white, cream)
        }
    }
}

impl CrystalPlanetShader {
    /// The planet that this shader draws.
    pub fn planet(&self) -> (p: PlanetType)
        ensures
            p == PlanetType::Crystal,
    {
        PlanetType::Crystal
    }
}

impl LavaPlanetShader {
    /// The planet that this shader draws.
    pub fn planet(&self) -> (p: PlanetType)
        ensures
            p == PlanetType::Nebula,
    {
        PlanetType::Nebula
    }
}

impl SaturnShader {
    /// The planet that this shader draws.
    pub fn planet(&self) -> (p: PlanetType)
        ensures
            p == PlanetType::Saturn,
    {
        PlanetType::Saturn
    }
}

/// The planet that is active after a frame in which the number keys in
/// `pressed` went down: that of the lowest such key, and `current` where
/// there is none.
pub open spec fn selected(current: PlanetType, pressed: Seq<bool>) -> PlanetType
    recommends
        pressed.len() == PLANET_COUNT,
{
    if pressed[0] {
        PlanetType::Rocky
    } else if pressed[1] {
        PlanetType::GasGiant
    } else if pressed[2] {
        PlanetType::Crystal
    } else if pressed[3] {
        PlanetType::Nebula
    } else if pressed[4] {
        PlanetType::Saturn
    } else {
        current
    }
}

/// Chooses the active planet for the next frame from the one that is active
/// and the number keys that went down, the key of the first planet at place
/// zero. The lowest key wins; with no key down the choice stays.
pub fn select_planet(current: PlanetType, pressed: &[bool; 5]) -> (next: PlanetType)
    ensures
        next == selected(current, pressed@),
        (forall|k: int| 0 <= k < 5 ==> !pressed@[k]) ==> next == current,
        (exists|k: int| 0 <= k < 5 && pressed@[k]) ==> pressed@[next.spec_index() as int],
        (exists|k: int| 0 <= k < 5 && pressed@[k]) ==> (forall|j: int|
            0 <= j < next.spec_index() ==> !pressed@[j]),
{
    if pressed[0] {
        PlanetType::Rocky
    } else if pressed[1] {
        PlanetType::GasGiant
    } else if pressed[2] {
        PlanetType::Crystal
    } else if pressed[3] {
        PlanetType::Nebula
    } else if pressed[4] {
        PlanetType::Saturn
    } else {
        current
    }
}

} // verus!
