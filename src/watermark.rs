use vstd::prelude::*;

use crate::canvas::{composite, Canvas, GlyphPixel};
use crate::config::ColorConfig;
use crate::position::{calculate_text_position, text_origin, Position};

verus! {

/// Stamps rasterised text onto the canvas: the text box of `text_width` x
/// `text_height` is placed by the anchor, then each glyph pixel is laid over
/// the canvas in the colour, clipped to the canvas.
pub fn add_copyright_text(
    canvas: &mut Canvas,
    text_width: u32,
    text_height: u32,
    glyphs: &Vec<GlyphPixel>,
    position: Position,
    color: ColorConfig,
)
    requires
        old(canvas).wf(),
    ensures
        final(canvas).wf(),
        ({
            let (x, y) = text_origin(
                old(canvas)@.width as int,
                old(canvas)@.height as int,
                text_width as int,
                text_height as int,
                position,
            );
            final(canvas)@ == composite(old(canvas)@, glyphs@, x, y, color.pixel_spec())
        }),
{
    let (x, y) = calculate_text_position(
        canvas.width(),
        canvas.height(),
        text_width,
        text_height,
        position,
    );
    canvas.draw_glyphs(glyphs, x, y, color.pixel());
}

} // verus!
