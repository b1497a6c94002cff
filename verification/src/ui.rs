//! The overlay as a list of drawing commands: the panel with the five
//! planets, the frame rate, and the name of the planet on show. What is
//! drawn where is decided here; the drawing itself is the caller's.

use vstd::prelude::*;

use crate::shaders::PLANET_COUNT;

verus! {

/// The measures of the overlay, in pixels.
#[derive(Debug, Clone, Copy, PartialEq, Eq, Structural)]
pub struct UIConfig {
    pub margin: i32,
    pub panel_padding: i32,
    pub font_size_title: i32,
    pub font_size_normal: i32,
    pub font_size_small: i32,
}

impl Default for UIConfig {
    /// The measures that the overlay is drawn with.
    fn default() -> (config: UIConfig)
        ensures
            config == (UIConfig {
                margin: 20,
                panel_padding: 15,
                font_size_title: 20,
                font_size_normal: 16,
                font_size_small: 14,
            }),
    {
        UIConfig {
            margin: 20,
            panel_padding: 15,
            font_size_title: 20,
            font_size_normal: 16,
            font_size_small: 14,
        }
    }
}

/// A colour with its opacity.
#[derive(Debug, Clone, Copy, PartialEq, Eq, Structural)]
pub struct Rgba {
    pub r: u8,
    pub g: u8,
    pub b: u8,
    pub a: u8,
}

/// What the overlay says of one planet.
#[derive(Debug, Clone, Copy, PartialEq, Eq)]
pub struct PlanetInfo {
    pub name: &'static str,
    pub key: &'static str,
    pub description: &'static str,
    pub icon: &'static str,
    pub color: Rgba,
}

/// What the overlay says of the planet at place `index`.
pub open spec fn planet_info_of(index: int) -> PlanetInfo {
    if index == 0 {
        PlanetInfo {
            name: "Planeta Rocoso",
            key: "1",
            description: "Terreno deformado con cr\u{e1}teres",
            icon: "\u{1faa8}",
            color: Rgba { r: 160, g: 160, b: 160, a: 255 },
        }
    } else if index == 1 {
        PlanetInfo {
            name: "Gigante Gaseoso",
            key: "2",
            description: "Bandas atmosf\u{e9}ricas como J\u{fa}piter",
            icon: "\u{1f30d}",
            color: Rgba { r: 200, g: 120, b: 50, a: 255 },
        }
    } else if index == 2 {
        PlanetInfo {
            name: "Planeta Sci-Fi",
            key: "3",
            description: "Circuitos y energ\u{ed}a tecnol\u{f3}gica",
            icon: "\u{26a1}",
            color: Rgba { r: 0, g: 255, b: 255, a: 255 },
        }
    } else if index == 3 {
        PlanetInfo {
            name: "Planeta Nebulosa",
            key: "4",
            description: "Gas c\u{f3}smico et\u{e9}reo",
            icon: "\u{1f30c}",
            color: Rgba { r: 200, g: 0, b: 150, a: 255 },
        }
    } else {
        PlanetInfo {
            name: "Planeta Met\u{e1}lico",
            key: "5",
            description: "Superficie con picos met\u{e1}licos",
            icon: "\u{2699}\u{fe0f}",
            color: Rgba { r: 200, g: 210, b: 220, a: 255 },
        }
    }
}

/// What the overlay says of the planet at place `index`.
pub fn planet_info(index: usize) -> (info: PlanetInfo)
    requires
        index < PLANET_COUNT,
    ensures
        info == planet_info_of(index as int),
{
    if index == 0 {
        PlanetInfo {
            name: "Planeta Rocoso",
            key: "1",
            description: "Terreno deformado con cr\u{e1}teres",
            icon: "\u{1faa8}",
            color: Rgba { r: 160, g: 160, b: 160, a: 255 },
        }
    } else if index == 1 {
        PlanetInfo {
            name: "Gigante Gaseoso",
            key: "2",
            description: "Bandas atmosf\u{e9}ricas como J\u{fa}piter",
            icon: "\u{1f30d}",
            color: Rgba { r: 200, g: 120, b: 50, a: 255 },
        }
    } else if index == 2 {
        PlanetInfo {
            name: "Planeta Sci-Fi",
            key: "3",
            description: "Circuitos y energ\u{ed}a tecnol\u{f3}gica",
            icon: "\u{26a1}",
            color: Rgba { r: 0, g: 255, b: 255, a: 255 },
        }
    } else if index == 3 {
        PlanetInfo {
            name: "Planeta Nebulosa",
            key: "4",
            description: "Gas c\u{f3}smico et\u{e9}reo",
            icon: "\u{1f30c}",
            color: Rgba { r: 200, g: 0, b: 150, a: 255 },
        }
    } else {
        PlanetInfo {
            name: "Planeta Met\u{e1}lico",
            key: "5",
            description: "Superficie con picos met\u{e1}licos",
            icon: "\u{2699}\u{fe0f}",
            color: Rgba { r: 200, g: 210, b: 220, a: 255 },
        }
    }
}

/// A text of the overlay. The caller spells it out: the fixed texts are
/// its own, and the others are made of what `planet_info` says and of the
/// number carried here.
#[derive(Debug, Clone, Copy, PartialEq, Eq, Structural)]
pub enum Text {
    /// The heading of the panel.
    Title,
    /// The key, the icon and the name of the planet at the place given.
    PlanetRow(usize),
    /// The description of the planet at the place given.
    Description(usize),
    /// The hint on the mouse controls.
    Controls,
    /// The frame rate given.
    Fps(i32),
    /// The name of the planet at the place given.
    PlanetName(usize),
}

/// One drawing command, in pixels from the top left of the window.
#[derive(Debug, Clone, Copy, PartialEq, Eq, Structural)]
pub enum Draw {
    /// A filled rectangle.
    Rectangle { x: i32, y: i32, width: i32, height: i32, color: Rgba },
    /// The outline of a rectangle.
    RectangleLines { x: i32, y: i32, width: i32, height: i32, color: Rgba },
    /// A line between two points.
    Line { start_x: i32, start_y: i32, end_x: i32, end_y: i32, color: Rgba },
    /// A text with its top left corner and its size.
    Label { text: Text, x: i32, y: i32, size: i32, color: Rgba },
}

/// The colour of the frame of the panel and of its heading, at the
/// opacity given.
pub open spec fn frame_color(a: u8) -> Rgba {
    Rgba { r: 100, g: 200, b: 255, a }
}

/// The top of the row of the planet at place `i`, where the planet at place
/// `current` is on show: the rows follow each other 21 pixels apart from
/// 75 on, and the row on show is followed by its description, 22 pixels
/// high.
pub open spec fn row_top(i: int, current: int) -> int {
    75 + 21 * i + if i > current {
        22int
    } else {
        0int
    }
}

/// The commands of the row of the planet at place `i`: its text, and for
/// the planet on show a highlight behind the text and the description
/// below it.
pub open spec fn row(i: int, current: int) -> Seq<Draw> {
    let top = row_top(i, current) as i32;
    if i == current {
        seq![
            Draw::Rectangle {
                x: 30,
                y: (top - 2) as i32,
                width: 360,
                height: 20,
                color: Rgba { r: 50, g: 50, b: 100, a: 150 },
            },
            Draw::Label {
                text: Text::PlanetRow(i as usize),
                x: 35,
                y: top,
                size: 16,
                color: Rgba { r: 255, g: 255, b: 100, a: 255 },
            },
            Draw::Label {
                text: Text::Description(i as usize),
                x: 45,
                y: (top + 21) as i32,
                size: 14,
                color: Rgba { r: 150, g: 150, b: 200, a: 255 },
            },
        ]
    } else {
        seq![
            Draw::Label {
                text: Text::PlanetRow(i as usize),
                x: 35,
                y: top,
                size: 16,
                color: Rgba { r: 200, g: 200, b: 200, a: 255 },
            },
        ]
    }
}

/// The commands of the rows of the first `count` planets, in order.
pub open spec fn rows(count: int, current: int) -> Seq<Draw>
    decreases count,
{
    if count <= 0 {
        Seq::empty()
    } else {
        rows(count - 1, current) + row(count - 1, current)
    }
}

/// The commands before the rows: the panel, its outline, its heading and
/// the rule below the heading.
pub open spec fn header() -> Seq<Draw> {
    seq![
        Draw::Rectangle { x: 20, y: 20, width: 380, height: 280, color: Rgba { r: 0, g: 0, b: 0, a: 180 } },
        Draw::RectangleLines { x: 20, y: 20, width: 380, height: 280, color: frame_color(200) },
        Draw::Label { text: Text::Title, x: 35, y: 35, size: 20, color: frame_color(255) },
        Draw::Line { start_x: 35, start_y: 65, end_x: 385, end_y: 65, color: frame_color(100) },
    ]
}

/// The colour of the frame rate: green from 55 frames a second, amber from
/// 30, red below.
pub open spec fn fps_color(fps: i32) -> Rgba {
    if fps >= 55 {
        Rgba { r: 0, g: 255, b: 100, a: 255 }
    } else if fps >= 30 {
        Rgba { r: 255, g: 200, b: 0, a: 255 }
    } else {
        Rgba { r: 255, g: 50, b: 50, a: 255 }
    }
}

/// Half of `v`, rounded towards zero.
pub open spec fn half(v: int) -> int {
    if v >= 0 {
        v / 2
    } else {
        -((-v) / 2)
    }
}

/// The commands after the rows: the rule below them, the hint on the
/// controls, the frame rate in the top right corner of the window, and the
/// name of the planet on show at the bottom, in the colour of the planet.
pub open spec fn footer(current: int, fps: i32, width: i32, height: i32) -> Seq<Draw> {
    seq![
        Draw::Line { start_x: 35, start_y: 207, end_x: 385, end_y: 207, color: frame_color(100) },
        Draw::Label {
            text: Text::Controls,
            x: 35,
            y: 217,
            size: 14,
            color: Rgba { r: 180, g: 180, b: 180, a: 255 },
        },
        Draw::Label {
            text: Text::Fps(fps),
            x: (width - 100) as i32,
            y: 20,
            size: 20,
            color: fps_color(fps),
        },
        Draw::Label {
            text: Text::PlanetName(current as usize),
            x: half(width - 250) as i32,
            y: (height - 50) as i32,
            size: 24,
            color: planet_info_of(current).color,
        },
    ]
}

/// The commands of the overlay, in the order in which they are drawn.
pub open spec fn overlay(current: int, fps: i32, width: i32, height: i32) -> Seq<Draw> {
    header() + rows(PLANET_COUNT as int, current) + footer(current, fps, width, height)
}

/// The commands that draw the overlay in a window of the size given, with
/// the planet at place `current_planet` on show and the frame rate `fps`.
///
/// The window must be no smaller than a number can tell: its width no less
/// than the least `i32` plus 250, its height no less than the least plus
/// 50.
pub fn render_ui(current_planet: usize, fps: i32, width: i32, height: i32) -> (commands: Vec<Draw>)
    requires
        current_planet < PLANET_COUNT,
        width >= i32::MIN + 250,
        height >= i32::MIN + 50,
    ensures
        commands@ == overlay(current_planet as int, fps, width, height),
{
    let config = UIConfig::default();
    let panel_width: i32 = 380;
    let panel_height: i32 = 280;
    let panel_x: i32 = config.margin;
    let panel_y: i32 = config.margin;
    let mut commands: Vec<Draw> = Vec::new();

    commands.push(
        Draw::Rectangle {
            x: panel_x,
            y: panel_y,
            width: panel_width,
            height: panel_height,
            color: Rgba { r: 0, g: 0, b: 0, a: 180 },
        },
    );
    commands.push(
        Draw::RectangleLines {
            x: panel_x,
            y: panel_y,
            width: panel_width,
            height: panel_height,
            color: Rgba { r: 100, g: 200, b: 255, a: 200 },
        },
    );

    let mut y_offset: i32 = panel_y + config.panel_padding;

    commands.push(
        Draw::Label {
            text: Text::Title,
            x: panel_x + config.panel_padding,
            y: y_offset,
            size: config.font_size_title,
            color: Rgba { r: 100, g: 200, b: 255, a: 255 },
        },
    );
    y_offset = y_offset + config.font_size_title + 10;

    commands.push(
        Draw::Line {
            start_x: panel_x + config.panel_padding,
            start_y: y_offset,
            end_x: panel_x + panel_width - config.panel_padding,
            end_y: y_offset,
            color: Rgba { r: 100, g: 200, b: 255, a: 100 },
        },
    );
    y_offset = y_offset + 10;
    assert(commands@ =~= header());

    let mut i: usize = 0;
    while i < PLANET_COUNT
        invariant
            i <= PLANET_COUNT,
            current_planet < PLANET_COUNT,
            config == (UIConfig {
                margin: 20,
                panel_padding: 15,
                font_size_title: 20,
                font_size_normal: 16,
                font_size_small: 14,
            }),
            panel_x == 20,
            panel_width == 380,
            y_offset == row_top(i as int, current_planet as int),
            commands@ == header() + rows(i as int, current_planet as int),
        decreases PLANET_COUNT - i,
    {
        let ghost before = commands@;
        let is_current = i == current_planet;
        let text_color = if is_current {
            Rgba { r: 255, g: 255, b: 100, a: 255 }
        } else {
            Rgba { r: 200, g: 200, b: 200, a: 255 }
        };
        if is_current {
            commands.push(
                Draw::Rectangle {
                    x: panel_x + config.panel_padding - 5,
                    y: y_offset - 2,
                    width: panel_width - config.panel_padding * 2 + 10,
                    height: config.font_size_normal + 4,
                    color: Rgba { r: 50, g: 50, b: 100, a: 150 },
                },
            );
        }
        commands.push(
            Draw::Label {
                text: Text::PlanetRow(i),
                x: panel_x + config.panel_padding,
                y: y_offset,
                size: config.font_size_normal,
                color: text_color,
            },
        );
        y_offset = y_offset + config.font_size_normal + 5;
        if is_current {
            commands.push(
                Draw::Label {
                    text: Text::Description(i),
                    x: panel_x + config.panel_padding + 10,
                    y: y_offset,
                    size: config.font_size_small,
                    color: Rgba { r: 150, g: 150, b: 200, a: 255 },
                },
            );
            y_offset = y_offset + config.font_size_small + 8;
        }
        assert(commands@ =~= before + row(i as int, current_planet as int));
        assert(before + row(i as int, current_planet as int) =~= header() + rows(
            i + 1,
            current_planet as int,
        ));
        i += 1;
    }

    y_offset = y_offset + 5;
    commands.push(
        Draw::Line {
            start_x: panel_x + config.panel_padding,
            start_y: y_offset,
            end_x: panel_x + panel_width - config.panel_padding,
            end_y: y_offset,
            color: Rgba { r: 100, g: 200, b: 255, a: 100 },
        },
    );
    y_offset = y_offset + 10;

    commands.push(
        Draw::Label {
            text: Text::Controls,
            x: panel_x + config.panel_padding,
            y: y_offset,
            size: config.font_size_small,
            color: Rgba { r: 180, g: 180, b: 180, a: 255 },
        },
    );

    let fps_color = if fps >= 55 {
        Rgba { r: 0, g: 255, b: 100, a: 255 }
    } else if fps >= 30 {
        Rgba { r: 255, g: 200, b: 0, a: 255 }
    } else {
        Rgba { r: 255, g: 50, b: 50, a: 255 }
    };
    commands.push(
        Draw::Label { text: Text::Fps(fps), x: width - 100, y: 20, size: 20, color: fps_color },
    );

    commands.push(
        Draw::Label {
            text: Text::PlanetName(current_planet),
            x: (width - 250) / 2,
            y: height - 50,
            size: 24,
            color: planet_info(current_planet).color,
        },
    );
    assert(commands@ =~= overlay(current_planet as int, fps, width, height));
    commands
}

} // verus!
