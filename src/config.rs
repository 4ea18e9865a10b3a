use vstd::prelude::*;

use crate::canvas::Rgba;
use crate::position::Position;

verus! {

/// Colour of the watermark text, with its own alpha.
#[derive(Clone, Copy, Debug, PartialEq, Eq, Structural)]
pub struct ColorConfig {
    pub r: u8,
    pub g: u8,
    pub b: u8,
    pub a: u8,
}

impl ColorConfig {
    pub open spec fn pixel_spec(self) -> Rgba {
        Rgba { r: self.r, g: self.g, b: self.b, a: self.a }
    }

    /// The colour as a pixel value.
    pub fn pixel(&self) -> (r: Rgba)
        ensures
            r == self.pixel_spec(),
    {
        Rgba { r: self.r, g: self.g, b: self.b, a: self.a }
    }
}

/// The watermark settings that the placement and compositing read. The font
/// size, a real number, is held by the caller beside it.
#[derive(Clone, Debug)]
pub struct CopyrightConfig {
    pub text: String,
    pub font_path: String,
    pub position: Position,
    pub color: ColorConfig,
}

/// Text stamped when the configuration names none.
pub fn default_text() -> (r: String)
    ensures
        r@ == "\u{a9} Copyright"@,
{
    "\u{a9} Copyright".to_owned()
}

/// Font path used when the configuration names none; a placeholder meant to be overridden.
pub fn default_font_path() -> (r: String)
    ensures
        r@ == "/path/to/default/font.ttf"@,
{
    "/path/to/default/font.ttf".to_owned()
}

pub fn default_position() -> (r: Position)
    ensures
        r == Position::BottomRight,
{
    Position::BottomRight
}

/// Value of a red, green or blue component left out of the configuration.
pub fn default_color_component() -> (r: u8)
    ensures
        r == 255,
{
    255
}

/// Alpha left out of the configuration: about half transparent.
pub fn default_alpha() -> (r: u8)
    ensures
        r == 128,
{
    128
}

/// Half-transparent white: each colour component and the alpha at their defaults.
pub fn default_color() -> (r: ColorConfig)
    ensures
        r == (ColorConfig { r: 255, g: 255, b: 255, a: 128 }),
{
    ColorConfig {
        r: default_color_component(),
        g: default_color_component(),
        b: default_color_component(),
        a: default_alpha(),
    }
}

impl Default for CopyrightConfig {
    fn default() -> (r: CopyrightConfig)
        ensures
            r.text@ == "\u{a9} Copyright"@,
            r.font_path@ == "/path/to/default/font.ttf"@,
            r.position == Position::BottomRight,
            r.color == (ColorConfig { r: 255, g: 255, b: 255, a: 128 }),
    {
        CopyrightConfig {
            text: default_text(),
            font_path: default_font_path(),
            position: default_position(),
            color: default_color(),
        }
    }
}

} // verus!
