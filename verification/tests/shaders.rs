use planet_renderer::color::Color;
use planet_renderer::framebuffer::Framebuffer;
use planet_renderer::mesh::Mesh;
use planet_renderer::scalar::Scalar;
use planet_renderer::shaders::{
    select_planet, CrystalPlanetShader, GasGiantShader, LavaPlanetShader, PlanetType,
    RockyPlanetShader, SaturnShader, PLANET_COUNT,
};

#[test]
fn planets_are_numbered_in_key_order() {
    let all = [
        PlanetType::Rocky,
        PlanetType::GasGiant,
        PlanetType::Crystal,
        PlanetType::Nebula,
        PlanetType::Saturn,
    ];
    assert_eq!(PLANET_COUNT, 5);
    for (i, p) in all.iter().enumerate() {
        assert_eq!(p.index(), i);
        assert_eq!(PlanetType::from_index(i), Some(*p));
    }
    assert_eq!(PlanetType::from_index(5), None);
    assert_eq!(PlanetType::from_index(usize::MAX), None);
}

#[test]
fn each_shader_draws_its_planet() {
    assert_eq!(RockyPlanetShader.planet(), PlanetType::Rocky);
    assert_eq!(GasGiantShader.planet(), PlanetType::GasGiant);
    assert_eq!(CrystalPlanetShader.planet(), PlanetType::Crystal);
    assert_eq!(LavaPlanetShader.planet(), PlanetType::Nebula);
    assert_eq!(SaturnShader.planet(), PlanetType::Saturn);
}

#[test]
fn no_key_keeps_the_planet() {
    for i in 0..5 {
        let p = PlanetType::from_index(i).unwrap();
        assert_eq!(select_planet(p, &[false; 5]), p);
    }
}

#[test]
fn a_key_selects_its_planet() {
    for i in 0..5 {
        let mut keys = [false; 5];
        keys[i] = true;
        for j in 0..5 {
            let current = PlanetType::from_index(j).unwrap();
            assert_eq!(select_planet(current, &keys).index(), i);
        }
    }
}

#[test]
fn the_lowest_key_wins() {
    assert_eq!(select_planet(PlanetType::Rocky, &[false, true, false, true, true]), PlanetType::GasGiant);
    assert_eq!(select_planet(PlanetType::Saturn, &[true; 5]), PlanetType::Rocky);
    assert_eq!(select_planet(PlanetType::Rocky, &[false, false, false, true, true]), PlanetType::Nebula);
}

#[test]
fn gas_giant_bands_repeat_every_eight_rows() {
    let very_dark = Color::new(60, 35, 15);
    let dark_brown = Color::new(110, 65, 25);
    let rust_brown = Color::new(150, 85, 35);
    let orange = Color::new(200, 120, 50);
    let tan = Color::new(210, 150, 90);
    let beige = Color::new(230, 190, 130);
    let cream = Color::new(245, 220, 170);
    let white = Color::new(255, 250, 230);
    let table = [
        (very_dark, dark_brown),
        (tan, beige),
        (dark_brown, rust_brown),
        (cream, white),
        (rust_brown, orange),
        (beige, cream),
        (orange, tan),
        (white, cream),
    ];
    for row in 0..40i32 {
        assert_eq!(GasGiantShader.band_colors(row), table[(row % 8) as usize], "row {}", row);
    }
    assert_eq!(GasGiantShader.band_colors(13), (beige, cream));
    assert_eq!(GasGiantShader.band_colors(14), (orange, tan));
    assert_eq!(GasGiantShader.band_colors(i32::MAX), table[7]);
}

#[test]
fn gas_giant_bands_below_row_zero() {
    let very_dark = Color::new(60, 35, 15);
    let dark_brown = Color::new(110, 65, 25);
    let cream = Color::new(245, 220, 170);
    let white = Color::new(255, 250, 230);
    for row in [-1i32, -2, -3, -7, -9, -15, i32::MIN + 1] {
        assert_eq!(GasGiantShader.band_colors(row), (white, cream), "row {}", row);
    }
    for row in [-8i32, -16, -800, i32::MIN] {
        assert_eq!(GasGiantShader.band_colors(row), (very_dark, dark_brown), "row {}", row);
    }
}

#[test]
fn switching_the_planet_touches_nothing_else() {
    let lines: Vec<String> =
        ["v 0 0 0", "v 1 0 0", "v 0 1 0", "f 1 2 3"].iter().map(|l| l.to_string()).collect();
    let mesh = Mesh::from_obj(&lines).unwrap();
    let mut fb = Framebuffer::new(4, 4);
    fb.point(1, 1, Color::new(9, 9, 9), Scalar::from_bits(1.0f32.to_bits()));
    let vertices = mesh.vertices().clone();
    let indices = mesh.indices().clone();
    let pixels = fb.buffer().clone();
    let depths = fb.zbuffer().clone();

    let mut current = PlanetType::Rocky;
    current = select_planet(current, &[false, false, true, false, false]);
    assert_eq!(current, PlanetType::Crystal);
    current = select_planet(current, &[false; 5]);
    assert_eq!(current, PlanetType::Crystal);

    assert_eq!(mesh.vertices(), &vertices);
    assert_eq!(mesh.indices(), &indices);
    assert_eq!(fb.buffer(), &pixels);
    assert_eq!(fb.zbuffer(), &depths);
}
