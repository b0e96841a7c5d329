use crusty_core::diag::{strip_frame, wheel_color, MatrixState, MATRIX_COLUMNS, STRIP_PIXELS};

#[test]
fn wheel_color_at_the_three_corners() {
    assert_eq!(wheel_color(0), (255, 0, 0));
    assert_eq!(wheel_color(85), (0, 255, 0));
    assert_eq!(wheel_color(170), (0, 0, 255));
    assert_eq!(wheel_color(255), (255, 0, 0));
}

#[test]
fn wheel_color_total_intensity_is_constant() {
    for pos in 0..=255u8 {
        let (r, g, b) = wheel_color(pos);
        assert_eq!(r as u16 + g as u16 + b as u16, 255);
    }
}

#[test]
fn strip_frame_advances_the_pattern() {
    let frame = strip_frame(0, STRIP_PIXELS);
    assert_eq!(frame.len(), STRIP_PIXELS);
    for (i, pixel) in frame.iter().enumerate() {
        assert_eq!(*pixel, wheel_color(i as u8));
    }
    // The next tick shifts every pixel by one wheel position.
    let next = strip_frame(1, STRIP_PIXELS);
    for i in 0..STRIP_PIXELS - 1 {
        assert_eq!(next[i], frame[i + 1]);
    }
}

#[test]
fn strip_frame_wraps_around_the_wheel() {
    let frame = strip_frame(250, 8);
    assert_eq!(frame[5], wheel_color(255));
    assert_eq!(frame[6], wheel_color(0));
    assert_eq!(frame[7], wheel_color(1));
}

#[test]
fn matrix_cycles_through_every_column() {
    let mut m = MatrixState::new();
    assert_eq!(m.column, 0);
    for expected in 1..MATRIX_COLUMNS {
        m.advance();
        assert_eq!(m.column, expected);
    }
    m.advance();
    assert_eq!(m.column, 0);
}
