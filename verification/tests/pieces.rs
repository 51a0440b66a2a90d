use falling_blocks::color::{dim, Color, Rgbw, BRIGHTNESS};
use falling_blocks::tetromino::{Kind, Tetromino};

const KINDS: [Kind; 7] = [Kind::I, Kind::O, Kind::T, Kind::L, Kind::J, Kind::S, Kind::Z];

#[test]
fn brightness_is_five() {
    assert_eq!(BRIGHTNESS, 5);
}

#[test]
fn dim_scales_a_channel_to_the_brightness() {
    assert_eq!(dim(0), 0);
    assert_eq!(dim(255), 5);
    assert_eq!(dim(128), 2);
    assert_eq!(dim(165), 3);
    assert_eq!(dim(50), 0);
    assert_eq!(dim(51), 1);
}

#[test]
fn each_color_has_its_dimmed_pixel() {
    assert_eq!(Color::Cyan.rgbw(), Rgbw { r: 0, g: 5, b: 5, w: 0 });
    assert_eq!(Color::Yellow.rgbw(), Rgbw { r: 5, g: 5, b: 0, w: 0 });
    assert_eq!(Color::Purple.rgbw(), Rgbw { r: 2, g: 0, b: 2, w: 0 });
    assert_eq!(Color::Orange.rgbw(), Rgbw { r: 5, g: 3, b: 0, w: 0 });
    assert_eq!(Color::Blue.rgbw(), Rgbw { r: 0, g: 0, b: 5, w: 0 });
    assert_eq!(Color::Green.rgbw(), Rgbw { r: 0, g: 5, b: 0, w: 0 });
    assert_eq!(Color::Red.rgbw(), Rgbw { r: 5, g: 0, b: 0, w: 0 });
}

#[test]
fn pixels_of_different_colors_differ_and_are_lit() {
    let colors = [
        Color::Cyan,
        Color::Yellow,
        Color::Purple,
        Color::Orange,
        Color::Blue,
        Color::Green,
        Color::Red,
    ];
    for (i, a) in colors.iter().enumerate() {
        let p = a.rgbw();
        assert!(p.r > 0 || p.g > 0 || p.b > 0);
        assert_eq!(p.w, 0);
        for b in colors.iter().skip(i + 1) {
            assert_ne!(p, b.rgbw());
        }
    }
}

#[test]
fn draw_selects_the_kind_modulo_seven() {
    for (i, kind) in KINDS.iter().enumerate() {
        assert_eq!(Kind::from_draw(i as u32), *kind);
        assert_eq!(Kind::from_draw(i as u32 + 7), *kind);
        assert_eq!(Kind::from_draw(i as u32 + 700), *kind);
    }
    assert_eq!(Kind::from_draw(u32::MAX), Kind::L);
}

#[test]
fn each_kind_has_its_color() {
    assert_eq!(Kind::I.color(), Color::Cyan);
    assert_eq!(Kind::O.color(), Color::Yellow);
    assert_eq!(Kind::T.color(), Color::Purple);
    assert_eq!(Kind::L.color(), Color::Orange);
    assert_eq!(Kind::J.color(), Color::Blue);
    assert_eq!(Kind::S.color(), Color::Green);
    assert_eq!(Kind::Z.color(), Color::Red);
}

#[test]
fn canonical_shapes() {
    assert_eq!(Tetromino::canonical(Kind::I).offsets(), [(0, 1), (1, 1), (2, 1), (3, 1)]);
    assert_eq!(Tetromino::canonical(Kind::O).offsets(), [(1, 0), (2, 0), (1, 1), (2, 1)]);
    assert_eq!(Tetromino::canonical(Kind::T).offsets(), [(1, 0), (0, 1), (1, 1), (2, 1)]);
    assert_eq!(Tetromino::canonical(Kind::L).offsets(), [(2, 0), (0, 1), (1, 1), (2, 1)]);
    assert_eq!(Tetromino::canonical(Kind::J).offsets(), [(0, 0), (0, 1), (1, 1), (2, 1)]);
    assert_eq!(Tetromino::canonical(Kind::S).offsets(), [(1, 0), (2, 0), (0, 1), (1, 1)]);
    assert_eq!(Tetromino::canonical(Kind::Z).offsets(), [(0, 0), (1, 0), (1, 1), (2, 1)]);
    for kind in KINDS {
        assert_eq!(Tetromino::canonical(kind).color(), kind.color());
    }
}

#[test]
fn offset_reads_one_cell() {
    let t = Tetromino::canonical(Kind::L);
    assert_eq!(t.offset(0), (2, 0));
    assert_eq!(t.offset(3), (2, 1));
}

#[test]
fn a_quarter_turn_maps_x_y_to_y_and_three_minus_x() {
    let i = Tetromino::canonical(Kind::I).rotated();
    assert_eq!(i.offsets(), [(1, 3), (1, 2), (1, 1), (1, 0)]);
    assert_eq!(i.color(), Color::Cyan);
    let j = Tetromino::canonical(Kind::J).rotated();
    assert_eq!(j.offsets(), [(0, 3), (1, 3), (1, 2), (1, 1)]);
}

#[test]
fn four_quarter_turns_restore_every_shape() {
    for kind in KINDS {
        let start = Tetromino::canonical(kind);
        let once = start.rotated();
        let twice = once.rotated();
        let thrice = twice.rotated();
        assert_eq!(thrice.rotated(), start);
        assert_eq!(thrice.rotated().offsets(), start.offsets());
    }
}

#[test]
fn turned_shapes_stay_in_the_box() {
    for kind in KINDS {
        let mut t = Tetromino::canonical(kind);
        for _ in 0..4 {
            t = t.rotated();
            for (dx, dy) in t.offsets() {
                assert!((0..4).contains(&dx) && (0..4).contains(&dy));
            }
        }
    }
}
