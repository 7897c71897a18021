use vstd::prelude::*;

verus! {

/// An RGBA color stored as 8 bits per channel (sRGB convention).
#[derive(Clone, Copy, Debug, PartialEq, Eq, Structural)]
pub struct Color {
    pub r: u8,
    pub g: u8,
    pub b: u8,
    pub a: u8,
}

impl Color {
    /// A color from its four channels.
    pub fn new(r: u8, g: u8, b: u8, a: u8) -> (c: Self)
        ensures
            c == (Color { r, g, b, a }),
    {
        Color { r, g, b, a }
    }
}

/// Number of colors in the classification-tag palette.
pub const TAG_PALETTE_LEN: usize = 10;

/// The classification-tag palette, in the order colors are handed out:
/// light gray, sky blue, green, orange, pink, purple, gold, red, beige, blue.
/// The first entry belongs to the built-in `"static"` tag.
pub open spec fn tag_palette(i: int) -> Color {
    if i == 0 { Color { r: 200, g: 200, b: 200, a: 255 } }
    else if i == 1 { Color { r: 102, g: 191, b: 255, a: 255 } }
    else if i == 2 { Color { r: 0, g: 228, b: 48, a: 255 } }
    else if i == 3 { Color { r: 255, g: 161, b: 0, a: 255 } }
    else if i == 4 { Color { r: 255, g: 109, b: 194, a: 255 } }
    else if i == 5 { Color { r: 200, g: 122, b: 255, a: 255 } }
    else if i == 6 { Color { r: 255, g: 203, b: 0, a: 255 } }
    else if i == 7 { Color { r: 230, g: 41, b: 55, a: 255 } }
    else if i == 8 { Color { r: 211, g: 176, b: 131, a: 255 } }
    else { Color { r: 0, g: 121, b: 241, a: 255 } }
}

/// Entry `i` of the classification-tag palette.
pub fn tag_palette_color(i: usize) -> (c: Color)
    requires
        i < TAG_PALETTE_LEN,
    ensures
        c == tag_palette(i as int),
{
    match i {
        0 => Color::new(200, 200, 200, 255),
        1 => Color::new(102, 191, 255, 255),
        2 => Color::new(0, 228, 48, 255),
        3 => Color::new(255, 161, 0, 255),
        4 => Color::new(255, 109, 194, 255),
        5 => Color::new(200, 122, 255, 255),
        6 => Color::new(255, 203, 0, 255),
        7 => Color::new(230, 41, 55, 255),
        8 => Color::new(211, 176, 131, 255),
        _ => Color::new(0, 121, 241, 255),
    }
}

} // verus!
