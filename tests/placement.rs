use copyright_watermark::position::{
    calculate_text_position, Horizontal, Position, Vertical, MARGIN,
};

const ALL: [Position; 9] = [
    Position::TopLeft,
    Position::TopCenter,
    Position::TopRight,
    Position::MiddleLeft,
    Position::MiddleCenter,
    Position::MiddleRight,
    Position::BottomLeft,
    Position::BottomCenter,
    Position::BottomRight,
];

#[test]
fn bottom_right_example() {
    assert_eq!(calculate_text_position(100, 50, 30, 10, Position::BottomRight), (60, 30));
}

#[test]
fn every_anchor_keeps_text_inside_margins() {
    let (w, h, tw, th) = (200u32, 120u32, 57u32, 13u32);
    for p in ALL {
        let (x, y) = calculate_text_position(w, h, tw, th, p);
        let m = MARGIN as i64;
        assert!(x >= m && y >= m, "{:?}", p);
        assert!(x + tw as i64 <= w as i64 - m, "{:?}", p);
        assert!(y + th as i64 <= h as i64 - m, "{:?}", p);
    }
}

#[test]
fn each_anchor_exact_origin() {
    let expect = [
        (10, 10),
        (35, 10),
        (60, 10),
        (10, 20),
        (35, 20),
        (60, 20),
        (10, 30),
        (35, 30),
        (60, 30),
    ];
    for (p, e) in ALL.iter().zip(expect.iter()) {
        assert_eq!(calculate_text_position(100, 50, 30, 10, *p), *e, "{:?}", p);
    }
}

#[test]
fn center_truncates_odd_leftover() {
    assert_eq!(calculate_text_position(101, 51, 30, 10, Position::MiddleCenter), (35, 20));
    assert_eq!(calculate_text_position(101, 51, 30, 10, Position::TopCenter).0, 35);
    assert_eq!(calculate_text_position(101, 51, 30, 10, Position::MiddleLeft).1, 20);
}

#[test]
fn text_larger_than_image_gives_negative_origin() {
    assert_eq!(calculate_text_position(20, 8, 30, 10, Position::BottomRight), (-20, -12));
    // truncation toward zero: -5 / 2 == -2, -3 / 2 == -1
    assert_eq!(calculate_text_position(25, 7, 30, 10, Position::MiddleCenter), (-2, -1));
}

#[test]
fn largest_sizes_do_not_wrap() {
    assert_eq!(
        calculate_text_position(u32::MAX, u32::MAX, 0, 0, Position::BottomRight),
        (u32::MAX as i64 - 10, u32::MAX as i64 - 10)
    );
    assert_eq!(
        calculate_text_position(0, 0, u32::MAX, u32::MAX, Position::BottomRight),
        (-(u32::MAX as i64) - 10, -(u32::MAX as i64) - 10)
    );
}

#[test]
fn anchor_axes() {
    assert_eq!(Position::BottomCenter.horizontal(), Horizontal::Center);
    assert_eq!(Position::BottomCenter.vertical(), Vertical::Bottom);
    assert_eq!(Position::MiddleLeft.horizontal(), Horizontal::Left);
    assert_eq!(Position::TopRight.vertical(), Vertical::Top);
}
