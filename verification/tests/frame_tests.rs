use badge::frame::{frame, Color, Frame};
use badge::mode::Mode;

fn both(red: u16, green: u16) -> Frame {
    Frame { left: Color { red, green }, right: Color { red, green } }
}

#[test]
fn steady_modes() {
    assert_eq!(frame(Mode::Red, 123, 1_000), both(1_000, 0));
    assert_eq!(frame(Mode::Green, 123, 1_000), both(0, 1_000));
    assert_eq!(frame(Mode::Yellow, 123, 1_000), both(1_000, 1_000));
}

#[test]
fn blink_first_half_left_red_right_green() {
    let f = frame(Mode::Blink, 250, 1_000);
    assert_eq!(f.left, Color { red: 1_000, green: 0 });
    assert_eq!(f.right, Color { red: 0, green: 1_000 });
}

#[test]
fn blink_second_half_left_green_right_red() {
    let f = frame(Mode::Blink, 750, 1_000);
    assert_eq!(f.left, Color { red: 0, green: 1_000 });
    assert_eq!(f.right, Color { red: 1_000, green: 0 });
}

#[test]
fn blink_repeats_after_a_second() {
    assert_eq!(frame(Mode::Blink, 1_000, 1_000), frame(Mode::Blink, 0, 1_000));
    let mut now: u64 = 0;
    while now < 3_000 {
        assert_eq!(frame(Mode::Blink, now + 1_000, 512), frame(Mode::Blink, now, 512));
        now += 1;
    }
}

#[test]
fn blink_swaps_at_half_a_second() {
    assert_eq!(frame(Mode::Blink, 499, 9).left, Color { red: 9, green: 0 });
    assert_eq!(frame(Mode::Blink, 500, 9).left, Color { red: 0, green: 9 });
    assert_eq!(frame(Mode::Blink, 999, 9).left, Color { red: 0, green: 9 });
}

#[test]
fn fade_starts_green() {
    assert_eq!(frame(Mode::Fade, 0, 1_000), both(0, 1_000));
    assert_eq!(frame(Mode::Fade, 0, 4_095), both(0, 4_095));
}

#[test]
fn fade_half_way_up() {
    assert_eq!(frame(Mode::Fade, 1_000, 1_000), both(500, 500));
}

#[test]
fn fade_second_ramp_starts_red() {
    assert_eq!(frame(Mode::Fade, 2_000, 1_000), both(1_000, 0));
}

#[test]
fn fade_second_ramp() {
    assert_eq!(frame(Mode::Fade, 2_500, 1_000), both(750, 250));
    assert_eq!(frame(Mode::Fade, 3_000, 1_000), both(500, 500));
    assert_eq!(frame(Mode::Fade, 3_999, 1_000), both(1, 999));
}

#[test]
fn fade_rounds_down() {
    assert_eq!(frame(Mode::Fade, 1, 1_000), both(0, 1_000));
    assert_eq!(frame(Mode::Fade, 3, 1_000), both(1, 999));
    assert_eq!(frame(Mode::Fade, 1_999, 1_000), both(999, 1));
    assert_eq!(frame(Mode::Fade, 1_001, 4_095), both(2_049, 2_046));
}

#[test]
fn fade_repeats_after_four_seconds() {
    assert_eq!(frame(Mode::Fade, 4_000, 1_000), frame(Mode::Fade, 0, 1_000));
    let mut now: u64 = 0;
    while now < 4_000 {
        assert_eq!(frame(Mode::Fade, now + 4_000, 777), frame(Mode::Fade, now, 777));
        now += 1;
    }
}

#[test]
fn fade_has_no_jump() {
    let max: u16 = 1_000;
    let mut now: u64 = 0;
    while now < 8_000 {
        let a = frame(Mode::Fade, now, max).left;
        let b = frame(Mode::Fade, now + 1, max).left;
        assert!(a.red.abs_diff(b.red) <= 1);
        assert!(a.green.abs_diff(b.green) <= 1);
        assert_eq!(a.red + a.green, max);
        now += 1;
    }
}

#[test]
fn frames_at_the_largest_inputs() {
    let f = frame(Mode::Fade, u64::MAX, u16::MAX);
    // u64::MAX % 4000 == 3615, a step of 1615 on the second ramp
    assert_eq!(f.left, Color { red: 65_535 - 52_919, green: 52_919 });
    assert_eq!(f.left, f.right);
    // u64::MAX % 1000 == 615: second half
    assert_eq!(frame(Mode::Blink, u64::MAX, u16::MAX).left, Color { red: 0, green: u16::MAX });
}

#[test]
fn frames_on_an_eye_without_range() {
    assert_eq!(frame(Mode::Fade, 1_234, 0), both(0, 0));
    assert_eq!(frame(Mode::Yellow, 1_234, 0), both(0, 0));
}
