use badge::eye::Eye;

#[test]
fn new_eye_is_off() {
    let eye = Eye::new(1_000);
    assert_eq!(eye.max_value(), 1_000);
    assert_eq!(eye.red_duty(), 1_000);
    assert_eq!(eye.green_duty(), 1_000);
}

#[test]
fn set_value_inverts_green_and_compresses_red() {
    let mut eye = Eye::new(1_000);
    eye.set_value(1_000, 400);
    assert_eq!(eye.green_duty(), 600);
    assert_eq!(eye.red_duty(), 875);
    assert_eq!(eye.max_value(), 1_000);
}

#[test]
fn set_value_follows_the_formulas_for_every_input() {
    let max: u16 = 300;
    let mut eye = Eye::new(max);
    let mut red: u16 = 0;
    while red <= max {
        let mut green: u16 = 0;
        while green <= max {
            eye.set_value(red, green);
            assert_eq!(eye.green_duty(), max - green);
            assert_eq!(eye.red_duty(), max - (red >> 3));
            green += 17;
        }
        red += 1;
    }
}

#[test]
fn red_below_eight_leaves_the_red_led_off() {
    let mut eye = Eye::new(1_000);
    eye.set_value(7, 0);
    assert_eq!(eye.red_duty(), 1_000);
    eye.set_value(8, 0);
    assert_eq!(eye.red_duty(), 999);
}

#[test]
fn set_off_puts_both_channels_at_max() {
    let mut eye = Eye::new(4_095);
    eye.set_value(4_095, 4_095);
    eye.set_off();
    assert_eq!((eye.red_duty(), eye.green_duty()), (4_095, 4_095));
}

#[test]
fn set_red_is_full_red_without_green() {
    let mut eye = Eye::new(1_000);
    eye.set_red();
    assert_eq!(eye.red_duty(), 875);
    assert_eq!(eye.green_duty(), 1_000);
}

#[test]
fn set_green_is_full_green_without_red() {
    let mut eye = Eye::new(1_000);
    eye.set_green();
    assert_eq!(eye.red_duty(), 1_000);
    assert_eq!(eye.green_duty(), 0);
}

#[test]
fn eye_with_max_zero_stays_at_zero() {
    let mut eye = Eye::new(0);
    eye.set_value(0, 0);
    assert_eq!((eye.red_duty(), eye.green_duty()), (0, 0));
    eye.set_red();
    eye.set_green();
    eye.set_off();
    assert_eq!((eye.red_duty(), eye.green_duty()), (0, 0));
}

#[test]
fn eye_with_largest_max() {
    let mut eye = Eye::new(u16::MAX);
    eye.set_value(u16::MAX, u16::MAX);
    assert_eq!(eye.green_duty(), 0);
    assert_eq!(eye.red_duty(), u16::MAX - 8_191);
}
