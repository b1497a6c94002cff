use planet_renderer::ui::{planet_info, render_ui, Draw, PlanetInfo, Rgba, Text, UIConfig};

fn rgba(r: u8, g: u8, b: u8, a: u8) -> Rgba {
    Rgba { r, g, b, a }
}

fn label(text: Text, x: i32, y: i32, size: i32, color: Rgba) -> Draw {
    Draw::Label { text, x, y, size, color }
}

// The overlay drawn step by step, the height running down the panel.
fn by_steps(current_planet: usize, fps: i32, width: i32, height: i32) -> Vec<Draw> {
    let config = UIConfig::default();
    let mut out = Vec::new();
    let panel_width = 380;
    let panel_height = 280;
    let panel_x = config.margin;
    let panel_y = config.margin;
    out.push(Draw::Rectangle { x: panel_x, y: panel_y, width: panel_width, height: panel_height, color: rgba(0, 0, 0, 180) });
    out.push(Draw::RectangleLines {
        x: panel_x,
        y: panel_y,
        width: panel_width,
        height: panel_height,
        color: rgba(100, 200, 255, 200),
    });
    let mut y_offset = panel_y + config.panel_padding;
    out.push(label(Text::Title, panel_x + config.panel_padding, y_offset, config.font_size_title, rgba(100, 200, 255, 255)));
    y_offset += config.font_size_title + 10;
    out.push(Draw::Line {
        start_x: panel_x + config.panel_padding,
        start_y: y_offset,
        end_x: panel_x + panel_width - config.panel_padding,
        end_y: y_offset,
        color: rgba(100, 200, 255, 100),
    });
    y_offset += 10;
    for i in 0..5 {
        let is_current = i == current_planet;
        let text_color = if is_current { rgba(255, 255, 100, 255) } else { rgba(200, 200, 200, 255) };
        if is_current {
            out.push(Draw::Rectangle {
                x: panel_x + config.panel_padding - 5,
                y: y_offset - 2,
                width: panel_width - config.panel_padding * 2 + 10,
                height: config.font_size_normal + 4,
                color: rgba(50, 50, 100, 150),
            });
        }
        out.push(label(Text::PlanetRow(i), panel_x + config.panel_padding, y_offset, config.font_size_normal, text_color));
        y_offset += config.font_size_normal + 5;
        if is_current {
            out.push(label(
                Text::Description(i),
                panel_x + config.panel_padding + 10,
                y_offset,
                config.font_size_small,
                rgba(150, 150, 200, 255),
            ));
            y_offset += config.font_size_small + 8;
        }
    }
    y_offset += 5;
    out.push(Draw::Line {
        start_x: panel_x + config.panel_padding,
        start_y: y_offset,
        end_x: panel_x + panel_width - config.panel_padding,
        end_y: y_offset,
        color: rgba(100, 200, 255, 100),
    });
    y_offset += 10;
    out.push(label(Text::Controls, panel_x + config.panel_padding, y_offset, config.font_size_small, rgba(180, 180, 180, 255)));
    let fps_color = if fps >= 55 {
        rgba(0, 255, 100, 255)
    } else if fps >= 30 {
        rgba(255, 200, 0, 255)
    } else {
        rgba(255, 50, 50, 255)
    };
    out.push(label(Text::Fps(fps), width - 100, 20, 20, fps_color));
    out.push(label(Text::PlanetName(current_planet), (width - 250) / 2, height - 50, 24, planet_info(current_planet).color));
    out
}

#[test]
fn default_measures() {
    let c = UIConfig::default();
    assert_eq!(
        c,
        UIConfig { margin: 20, panel_padding: 15, font_size_title: 20, font_size_normal: 16, font_size_small: 14 }
    );
}

#[test]
fn the_five_planets_of_the_overlay() {
    assert_eq!(
        planet_info(0),
        PlanetInfo {
            name: "Planeta Rocoso",
            key: "1",
            description: "Terreno deformado con cráteres",
            icon: "🪨",
            color: rgba(160, 160, 160, 255),
        }
    );
    assert_eq!(
        planet_info(1),
        PlanetInfo {
            name: "Gigante Gaseoso",
            key: "2",
            description: "Bandas atmosféricas como Júpiter",
            icon: "🌍",
            color: rgba(200, 120, 50, 255),
        }
    );
    assert_eq!(
        planet_info(2),
        PlanetInfo {
            name: "Planeta Sci-Fi",
            key: "3",
            description: "Circuitos y energía tecnológica",
            icon: "⚡",
            color: rgba(0, 255, 255, 255),
        }
    );
    assert_eq!(
        planet_info(3),
        PlanetInfo {
            name: "Planeta Nebulosa",
            key: "4",
            description: "Gas cósmico etéreo",
            icon: "🌌",
            color: rgba(200, 0, 150, 255),
        }
    );
    assert_eq!(
        planet_info(4),
        PlanetInfo {
            name: "Planeta Metálico",
            key: "5",
            description: "Superficie con picos metálicos",
            icon: "⚙️",
            color: rgba(200, 210, 220, 255),
        }
    );
}

#[test]
fn overlay_with_the_second_planet_on_show() {
    let frame = rgba(100, 200, 255, 100);
    let plain = rgba(200, 200, 200, 255);
    let expected = vec![
        Draw::Rectangle { x: 20, y: 20, width: 380, height: 280, color: rgba(0, 0, 0, 180) },
        Draw::RectangleLines { x: 20, y: 20, width: 380, height: 280, color: rgba(100, 200, 255, 200) },
        label(Text::Title, 35, 35, 20, rgba(100, 200, 255, 255)),
        Draw::Line { start_x: 35, start_y: 65, end_x: 385, end_y: 65, color: frame },
        label(Text::PlanetRow(0), 35, 75, 16, plain),
        Draw::Rectangle { x: 30, y: 94, width: 360, height: 20, color: rgba(50, 50, 100, 150) },
        label(Text::PlanetRow(1), 35, 96, 16, rgba(255, 255, 100, 255)),
        label(Text::Description(1), 45, 117, 14, rgba(150, 150, 200, 255)),
        label(Text::PlanetRow(2), 35, 139, 16, plain),
        label(Text::PlanetRow(3), 35, 160, 16, plain),
        label(Text::PlanetRow(4), 35, 181, 16, plain),
        Draw::Line { start_x: 35, start_y: 207, end_x: 385, end_y: 207, color: frame },
        label(Text::Controls, 35, 217, 14, rgba(180, 180, 180, 255)),
        label(Text::Fps(42), 924, 20, 20, rgba(255, 200, 0, 255)),
        label(Text::PlanetName(1), 387, 718, 24, rgba(200, 120, 50, 255)),
    ];
    assert_eq!(render_ui(1, 42, 1024, 768), expected);
}

#[test]
fn overlay_is_what_drawing_step_by_step_gives() {
    for current in 0..5 {
        for fps in [-1, 0, 29, 30, 54, 55, 60, i32::MAX, i32::MIN] {
            for (width, height) in [(1024, 768), (0, 0), (249, 49), (251, 51), (-1, -1), (i32::MAX, i32::MAX), (i32::MIN + 250, i32::MIN + 50)] {
                assert_eq!(
                    render_ui(current, fps, width, height),
                    by_steps(current, fps, width, height),
                    "{} {} {} {}",
                    current,
                    fps,
                    width,
                    height
                );
            }
        }
    }
}

#[test]
fn frame_rate_colours() {
    let colour = |fps: i32| match render_ui(0, fps, 800, 600)[13] {
        Draw::Label { text: Text::Fps(n), color, .. } => {
            assert_eq!(n, fps);
            color
        }
        other => panic!("the frame rate is not where it is looked for: {:?}", other),
    };
    assert_eq!(colour(60), rgba(0, 255, 100, 255));
    assert_eq!(colour(55), rgba(0, 255, 100, 255));
    assert_eq!(colour(54), rgba(255, 200, 0, 255));
    assert_eq!(colour(30), rgba(255, 200, 0, 255));
    assert_eq!(colour(29), rgba(255, 50, 50, 255));
    assert_eq!(colour(0), rgba(255, 50, 50, 255));
}

#[test]
fn name_is_centred_rounding_towards_zero() {
    let name_x = |width: i32| match render_ui(4, 60, width, 100)[14] {
        Draw::Label { text: Text::PlanetName(4), x, y, size, color } => {
            assert_eq!(y, 50);
            assert_eq!(size, 24);
            assert_eq!(color, rgba(200, 210, 220, 255));
            x
        }
        other => panic!("the name is not where it is looked for: {:?}", other),
    };
    assert_eq!(name_x(1024), 387);
    assert_eq!(name_x(251), 0);
    assert_eq!(name_x(250), 0);
    assert_eq!(name_x(249), 0);
    assert_eq!(name_x(247), -1);
    assert_eq!(name_x(0), -125);
}
