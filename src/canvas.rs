use vstd::prelude::*;

verus! {

/// One pixel, as red, green, blue and alpha bytes.
#[derive(Clone, Copy, Debug, PartialEq, Eq, Structural)]
pub struct Rgba {
    pub r: u8,
    pub g: u8,
    pub b: u8,
    pub a: u8,
}

/// A rasterised glyph pixel: its offset from the text origin and its
/// anti-aliasing coverage, 0 (untouched) to 255 (fully covered).
#[derive(Clone, Copy, Debug, PartialEq, Eq, Structural)]
pub struct GlyphPixel {
    pub dx: i32,
    pub dy: i32,
    pub coverage: u8,
}

/// Weight of a fully covered pixel under a fully opaque colour: 255 * 255.
pub const FULL_WEIGHT: u32 = 65025;

/// Source-over mix of one channel: `d * (1 - w) + s * w` with `w` given in
/// units of `1 / FULL_WEIGHT`, rounded to the nearest integer.
pub open spec fn mix(d: int, s: int, w: int) -> int {
    (d * (FULL_WEIGHT as int - w) + s * w + FULL_WEIGHT as int / 2) / FULL_WEIGHT as int
}

/// The effective weight of a colour over a glyph pixel: coverage times the colour's alpha.
pub open spec fn weight(color: Rgba, coverage: u8) -> int {
    coverage as int * color.a as int
}

/// The pixel that results from laying `color` over `dst` at the given coverage.
/// Colour channels mix toward the colour; alpha mixes toward opaque, so no
/// transparency is introduced.
pub open spec fn blend(dst: Rgba, color: Rgba, coverage: u8) -> Rgba {
    let w = weight(color, coverage);
    Rgba {
        r: mix(dst.r as int, color.r as int, w) as u8,
        g: mix(dst.g as int, color.g as int, w) as u8,
        b: mix(dst.b as int, color.b as int, w) as u8,
        a: mix(dst.a as int, 255, w) as u8,
    }
}

proof fn lemma_mix_in_range(d: int, s: int, w: int)
    requires
        0 <= d <= 255,
        0 <= s <= 255,
        0 <= w <= FULL_WEIGHT as int,
    ensures
        0 <= mix(d, s, w) <= 255,
        mix(d, s, w) == (d * (65025 - w) + s * w + 32512) / 65025,
{
    assert(0 <= d * (65025 - w) + s * w <= 255 * 65025) by (nonlinear_arith)
        requires
            0 <= d <= 255,
            0 <= s <= 255,
            0 <= w <= 65025,
    ;
}

proof fn lemma_mix_ends(d: int, s: int)
    requires
        0 <= d <= 255,
        0 <= s <= 255,
    ensures
        mix(d, s, 0) == d,
        mix(d, s, FULL_WEIGHT as int) == s,
{
    assert((d * 65025 + 32512) / 65025 == d) by (nonlinear_arith)
        requires
            0 <= d <= 255,
    ;
    assert((s * 65025 + 32512) / 65025 == s) by (nonlinear_arith)
        requires
            0 <= s <= 255,
    ;
}

fn mix_channel(d: u8, s: u8, w: u32) -> (r: u8)
    requires
        w <= FULL_WEIGHT,
    ensures
        r as int == mix(d as int, s as int, w as int),
{
    proof {
        lemma_mix_in_range(d as int, s as int, w as int);
        assert(d as int * (65025 - w as int) <= 255 * 65025) by (nonlinear_arith)
            requires
                d <= 255,
                w <= 65025,
        ;
        assert(s as int * w as int <= 255 * 65025) by (nonlinear_arith)
            requires
                s <= 255,
                w <= 65025,
        ;
    }
    let n: u32 = d as u32 * (FULL_WEIGHT - w) + s as u32 * w + FULL_WEIGHT / 2;
    (n / FULL_WEIGHT) as u8
}

/// Lays `color` over `dst` at the given glyph coverage.
pub fn blend_pixel(dst: Rgba, color: Rgba, coverage: u8) -> (r: Rgba)
    ensures
        r == blend(dst, color, coverage),
{
    proof {
        assert(coverage as int * color.a as int <= 65025) by (nonlinear_arith)
            requires
                coverage <= 255,
                color.a <= 255,
        ;
        lemma_mix_in_range(dst.r as int, color.r as int, weight(color, coverage));
        lemma_mix_in_range(dst.g as int, color.g as int, weight(color, coverage));
        lemma_mix_in_range(dst.b as int, color.b as int, weight(color, coverage));
        lemma_mix_in_range(dst.a as int, 255, weight(color, coverage));
    }
    let w: u32 = coverage as u32 * color.a as u32;
    Rgba {
        r: mix_channel(dst.r, color.r, w),
        g: mix_channel(dst.g, color.g, w),
        b: mix_channel(dst.b, color.b, w),
        a: mix_channel(dst.a, 255, w),
    }
}

/// A fully opaque colour over a fully covered pixel replaces its colour
/// channels exactly and leaves it opaque.
pub proof fn lemma_opaque_full_coverage_replaces(dst: Rgba, color: Rgba)
    requires
        color.a == 255,
    ensures
        blend(dst, color, 255).r == color.r,
        blend(dst, color, 255).g == color.g,
        blend(dst, color, 255).b == color.b,
        blend(dst, color, 255).a == 255,
{
    lemma_mix_ends(dst.r as int, color.r as int);
    lemma_mix_ends(dst.g as int, color.g as int);
    lemma_mix_ends(dst.b as int, color.b as int);
    lemma_mix_ends(dst.a as int, 255);
}

/// A fully transparent colour, or a glyph pixel with no coverage, leaves the
/// destination pixel unchanged.
pub proof fn lemma_invisible_leaves_pixel(dst: Rgba, color: Rgba, coverage: u8)
    requires
        color.a == 0 || coverage == 0,
    ensures
        blend(dst, color, coverage) == dst,
{
    assert(weight(color, coverage) == 0) by (nonlinear_arith)
        requires
            color.a == 0 || coverage == 0,
    ;
    lemma_mix_ends(dst.r as int, color.r as int);
    lemma_mix_ends(dst.g as int, color.g as int);
    lemma_mix_ends(dst.b as int, color.b as int);
    lemma_mix_ends(dst.a as int, 255);
}

/// What a canvas holds: its size and its pixels, row by row.
pub struct CanvasView {
    pub width: nat,
    pub height: nat,
    pub pixels: Seq<Rgba>,
}

/// An RGBA pixel grid, stored row by row.
pub struct Canvas {
    width: u32,
    height: u32,
    pixels: Vec<Rgba>,
}

impl View for Canvas {
    type V = CanvasView;

    closed spec fn view(&self) -> CanvasView {
        CanvasView { width: self.width as nat, height: self.height as nat, pixels: self.pixels@ }
    }
}

/// The pixel that four bytes starting at `4 * i` describe.
pub open spec fn pixel_from_bytes(bytes: Seq<u8>, i: int) -> Rgba {
    Rgba { r: bytes[4 * i], g: bytes[4 * i + 1], b: bytes[4 * i + 2], a: bytes[4 * i + 3] }
}

/// Index of pixel `(x, y)` in a row-by-row grid of the given width.
pub open spec fn pixel_index(width: int, x: int, y: int) -> int {
    y * width + x
}

/// Lays one glyph pixel over the canvas at the text origin `(x, y)`; a glyph
/// pixel that falls outside the canvas is skipped.
pub open spec fn stamp(c: CanvasView, g: GlyphPixel, x: int, y: int, color: Rgba) -> CanvasView {
    let tx = x + g.dx;
    let ty = y + g.dy;
    if 0 <= tx < c.width && 0 <= ty < c.height {
        let i = pixel_index(c.width as int, tx, ty);
        CanvasView { pixels: c.pixels.update(i, blend(c.pixels[i], color, g.coverage)), ..c }
    } else {
        c
    }
}

/// Lays the glyph pixels over the canvas one after another, in order.
pub open spec fn composite(
    c: CanvasView,
    glyphs: Seq<GlyphPixel>,
    x: int,
    y: int,
    color: Rgba,
) -> CanvasView
    decreases glyphs.len(),
{
    if glyphs.len() == 0 {
        c
    } else {
        stamp(composite(c, glyphs.drop_last(), x, y, color), glyphs.last(), x, y, color)
    }
}

proof fn lemma_index_in_grid(width: int, height: int, x: int, y: int)
    requires
        0 <= x < width,
        0 <= y < height,
    ensures
        0 <= pixel_index(width, x, y) < width * height,
{
    assert(0 <= y * width + x < width * height) by (nonlinear_arith)
        requires
            0 <= x < width,
            0 <= y < height,
    ;
}

impl Canvas {
    /// The pixel count matches the size.
    pub open spec fn wf(&self) -> bool {
        self@.pixels.len() == self@.width * self@.height
    }

    /// A canvas of the given size from its RGBA bytes, four per pixel, row by
    /// row; `None` when the byte count is not four per pixel of that size.
    pub fn from_raw(width: u32, height: u32, bytes: Vec<u8>) -> (r: Option<Canvas>)
        ensures
            r.is_some() <==> bytes@.len() == 4 * (width as int * height as int),
            r matches Some(c) ==> {
                &&& c.wf()
                &&& c@.width == width
                &&& c@.height == height
                &&& forall|i: int|
                    0 <= i < c@.pixels.len() ==> #[trigger] c@.pixels[i] == pixel_from_bytes(
                        bytes@,
                        i,
                    )
            },
    {
        let n: usize = bytes.len();
        if n % 4 != 0 {
            return None;
        }
        let count: usize = n / 4;
        proof {
            assert(width as int * height as int <= 0xffff_ffff * 0xffff_ffff) by (nonlinear_arith)
                requires
                    width <= 0xffff_ffff,
                    height <= 0xffff_ffff,
            ;
        }
        if count as u64 != width as u64 * height as u64 {
            return None;
        }
        let mut pixels: Vec<Rgba> = Vec::with_capacity(count);
        let mut i: usize = 0;
        while i < count
            invariant
                count == n / 4,
                n == bytes@.len(),
                n % 4 == 0,
                i <= count,
                pixels@.len() == i,
                forall|k: int| 0 <= k < i ==> #[trigger] pixels@[k] == pixel_from_bytes(bytes@, k),
            decreases count - i,
        {
            let p = Rgba {
                r: bytes[4 * i],
                g: bytes[4 * i + 1],
                b: bytes[4 * i + 2],
                a: bytes[4 * i + 3],
            };
            pixels.push(p);
            i = i + 1;
        }
        Some(Canvas { width, height, pixels })
    }

    /// The canvas's RGBA bytes, four per pixel, row by row.
    pub fn into_raw(self) -> (r: Vec<u8>)
        requires
            self.wf(),
        ensures
            r@.len() == 4 * self@.pixels.len(),
            forall|i: int|
                0 <= i < self@.pixels.len() ==> #[trigger] self@.pixels[i] == pixel_from_bytes(
                    r@,
                    i,
                ),
    {
        let n: usize = self.pixels.len();
        let mut bytes: Vec<u8> = Vec::new();
        let mut i: usize = 0;
        while i < n
            invariant
                n == self@.pixels.len(),
                i <= n,
                bytes@.len() == 4 * i,
                forall|k: int|
                    0 <= k < i ==> #[trigger] self@.pixels[k] == pixel_from_bytes(bytes@, k),
            decreases n - i,
        {
            let p = self.pixels[i];
            let ghost before = bytes@;
            bytes.push(p.r);
            bytes.push(p.g);
            bytes.push(p.b);
            bytes.push(p.a);
            assert forall|k: int| 0 <= k < i + 1 implies #[trigger] self@.pixels[k]
                == pixel_from_bytes(bytes@, k) by {
                if k < i {
                    assert(pixel_from_bytes(before, k) == pixel_from_bytes(bytes@, k));
                }
            }
            i = i + 1;
        }
        bytes
    }

    pub fn width(&self) -> (r: u32)
        ensures
            r == self@.width,
    {
        self.width
    }

    pub fn height(&self) -> (r: u32)
        ensures
            r == self@.height,
    {
        self.height
    }

    /// The pixel at column `x`, row `y`.
    pub fn get_pixel(&self, x: u32, y: u32) -> (r: Rgba)
        requires
            self.wf(),
            x < self@.width,
            y < self@.height,
        ensures
            r == self@.pixels[pixel_index(self@.width as int, x as int, y as int)],
    {
        let len: usize = self.pixels.len();
        proof {
            lemma_index_in_grid(self.width as int, self.height as int, x as int, y as int);
            assert(y * self.width <= pixel_index(self.width as int, x as int, y as int));
        }
        self.pixels[y as usize * self.width as usize + x as usize]
    }

    /// Lays each glyph pixel, in order, over the canvas with its top-left text
    /// origin at `(x, y)`, skipping those that fall outside the canvas.
    pub fn draw_glyphs(&mut self, glyphs: &Vec<GlyphPixel>, x: i64, y: i64, color: Rgba)
        requires
            old(self).wf(),
        ensures
            final(self).wf(),
            final(self)@ == composite(old(self)@, glyphs@, x as int, y as int, color),
    {
        let n: usize = glyphs.len();
        let mut i: usize = 0;
        while i < n
            invariant
                n == glyphs@.len(),
                i <= n,
                self.wf(),
                self@ == composite(old(self)@, glyphs@.take(i as int), x as int, y as int, color),
            decreases n - i,
        {
            let g = glyphs[i];
            let tx: i128 = x as i128 + g.dx as i128;
            let ty: i128 = y as i128 + g.dy as i128;
            proof {
                assert(glyphs@.take(i as int + 1).drop_last() =~= glyphs@.take(i as int));
            }
            if 0 <= tx && tx < self.width as i128 && 0 <= ty && ty < self.height as i128 {
                let len: usize = self.pixels.len();
                proof {
                    lemma_index_in_grid(self.width as int, self.height as int, tx as int, ty as int);
                    assert(ty * self.width <= pixel_index(self.width as int, tx as int, ty as int));
                }
                let k: usize = ty as usize * self.width as usize + tx as usize;
                let blended = blend_pixel(self.pixels[k], color, g.coverage);
                self.pixels.set(k, blended);
            }
            i = i + 1;
        }
        proof {
            assert(glyphs@.take(n as int) =~= glyphs@);
        }
    }
}

} // verus!
