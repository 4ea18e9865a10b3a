use vstd::prelude::*;

verus! {

/// Inset, in pixels, kept between the text and each image edge.
pub const MARGIN: u32 = 10;

/// Where the watermark text is anchored on the image.
#[derive(Clone, Copy, Debug, PartialEq, Eq, Structural)]
pub enum Position {
    TopLeft,
    TopCenter,
    TopRight,
    MiddleLeft,
    MiddleCenter,
    MiddleRight,
    BottomLeft,
    BottomCenter,
    BottomRight,
}

/// The horizontal half of an anchor.
#[derive(Clone, Copy, Debug, PartialEq, Eq, Structural)]
pub enum Horizontal {
    Left,
    Center,
    Right,
}

/// The vertical half of an anchor.
#[derive(Clone, Copy, Debug, PartialEq, Eq, Structural)]
pub enum Vertical {
    Top,
    Middle,
    Bottom,
}

impl Position {
    pub open spec fn horizontal_spec(self) -> Horizontal {
        match self {
            Position::TopLeft | Position::MiddleLeft | Position::BottomLeft => Horizontal::Left,
            Position::TopCenter | Position::MiddleCenter | Position::BottomCenter => Horizontal::Center,
            Position::TopRight | Position::MiddleRight | Position::BottomRight => Horizontal::Right,
        }
    }

    pub open spec fn vertical_spec(self) -> Vertical {
        match self {
            Position::TopLeft | Position::TopCenter | Position::TopRight => Vertical::Top,
            Position::MiddleLeft | Position::MiddleCenter | Position::MiddleRight => Vertical::Middle,
            Position::BottomLeft | Position::BottomCenter | Position::BottomRight => Vertical::Bottom,
        }
    }

    /// The horizontal component of this anchor.
    pub fn horizontal(&self) -> (r: Horizontal)
        ensures
            r == self.horizontal_spec(),
    {
        match self {
            Position::TopLeft | Position::MiddleLeft | Position::BottomLeft => Horizontal::Left,
            Position::TopCenter | Position::MiddleCenter | Position::BottomCenter => Horizontal::Center,
            Position::TopRight | Position::MiddleRight | Position::BottomRight => Horizontal::Right,
        }
    }

    /// The vertical component of this anchor.
    pub fn vertical(&self) -> (r: Vertical)
        ensures
            r == self.vertical_spec(),
    {
        match self {
            Position::TopLeft | Position::TopCenter | Position::TopRight => Vertical::Top,
            Position::MiddleLeft | Position::MiddleCenter | Position::MiddleRight => Vertical::Middle,
            Position::BottomLeft | Position::BottomCenter | Position::BottomRight => Vertical::Bottom,
        }
    }
}

/// Integer halving that truncates toward zero, as signed machine division does.
pub open spec fn half_toward_zero(d: int) -> int {
    if d >= 0 {
        d / 2
    } else {
        -((-d) / 2)
    }
}

/// Offset of the text along one axis: at the near margin, centred, or at the far margin.
/// `near` and `far` select the rule (neither: centred); `extent - text` may be negative.
pub open spec fn axis_offset(extent: int, text: int, near: bool, far: bool) -> int {
    if near {
        MARGIN as int
    } else if far {
        extent - text - MARGIN as int
    } else {
        half_toward_zero(extent - text)
    }
}

pub open spec fn x_offset(image_width: int, text_width: int, h: Horizontal) -> int {
    axis_offset(image_width, text_width, h == Horizontal::Left, h == Horizontal::Right)
}

pub open spec fn y_offset(image_height: int, text_height: int, v: Vertical) -> int {
    axis_offset(image_height, text_height, v == Vertical::Top, v == Vertical::Bottom)
}

/// The top-left corner at which text of the given size is drawn for an anchor.
pub open spec fn text_origin(
    image_width: int,
    image_height: int,
    text_width: int,
    text_height: int,
    position: Position,
) -> (int, int) {
    (
        x_offset(image_width, text_width, position.horizontal_spec()),
        y_offset(image_height, text_height, position.vertical_spec()),
    )
}

fn axis_offset_exec(extent: u32, text: u32, near: bool, far: bool) -> (r: i64)
    ensures
        r as int == axis_offset(extent as int, text as int, near, far),
{
    if near {
        MARGIN as i64
    } else if far {
        extent as i64 - text as i64 - MARGIN as i64
    } else {
        let d: i64 = extent as i64 - text as i64;
        if d >= 0 {
            d / 2
        } else {
            -((-d) / 2)
        }
    }
}

/// Top-left pixel of the text box for an image of `image_width` x `image_height`
/// and text measuring `text_width` x `text_height`. The two axes are resolved
/// independently; nothing is clamped, so text larger than the image gives a
/// negative coordinate.
pub fn calculate_text_position(
    image_width: u32,
    image_height: u32,
    text_width: u32,
    text_height: u32,
    position: Position,
) -> (r: (i64, i64))
    ensures
        (r.0 as int, r.1 as int) == text_origin(
            image_width as int,
            image_height as int,
            text_width as int,
            text_height as int,
            position,
        ),
{
    let h = position.horizontal();
    let v = position.vertical();
    let x = axis_offset_exec(
        image_width,
        text_width,
        h == Horizontal::Left,
        h == Horizontal::Right,
    );
    let y = axis_offset_exec(image_height, text_height, v == Vertical::Top, v == Vertical::Bottom);
    (x, y)
}

/// When the image leaves room for the text plus a margin on each side, every
/// anchor keeps the whole text box inside the image, at least `MARGIN` pixels
/// from each edge.
pub proof fn lemma_text_stays_inside_margins(
    image_width: u32,
    image_height: u32,
    text_width: u32,
    text_height: u32,
    position: Position,
)
    requires
        image_width as int >= text_width as int + 2 * MARGIN as int,
        image_height as int >= text_height as int + 2 * MARGIN as int,
    ensures
        ({
            let (x, y) = text_origin(
                image_width as int,
                image_height as int,
                text_width as int,
                text_height as int,
                position,
            );
            &&& x >= MARGIN as int
            &&& y >= MARGIN as int
            &&& x + text_width as int <= image_width as int - MARGIN as int
            &&& y + text_height as int <= image_height as int - MARGIN as int
        }),
{
}

/// A centred axis is placed at exactly half the leftover space, truncated
/// toward zero, whatever the other axis is.
pub proof fn lemma_center_is_half_of_leftover(
    image_width: u32,
    image_height: u32,
    text_width: u32,
    text_height: u32,
    position: Position,
)
    ensures
        position.horizontal_spec() == Horizontal::Center ==> text_origin(
            image_width as int,
            image_height as int,
            text_width as int,
            text_height as int,
            position,
        ).0 == half_toward_zero(image_width as int - text_width as int),
        position.vertical_spec() == Vertical::Middle ==> text_origin(
            image_width as int,
            image_height as int,
            text_width as int,
            text_height as int,
            position,
        ).1 == half_toward_zero(image_height as int - text_height as int),
        position == Position::MiddleCenter ==> text_origin(
            image_width as int,
            image_height as int,
            text_width as int,
            text_height as int,
            position,
        ) == (
            half_toward_zero(image_width as int - text_width as int),
            half_toward_zero(image_height as int - text_height as int),
        ),
{
}

} // verus!
