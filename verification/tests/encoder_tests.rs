use pico_macropad_rs::encoder::{turn_increment, Direction};
use pico_macropad_rs::rotary_encoder::RotaryEncoder;

#[test]
fn clockwise_counts_down_and_counter_clockwise_up() {
    assert_eq!(turn_increment(Some(Direction::Clockwise)), -1);
    assert_eq!(turn_increment(Some(Direction::CounterClockwise)), 1);
    assert_eq!(turn_increment(Some(Direction::Stationary)), 0);
    assert_eq!(turn_increment(None), 0);
}

#[test]
fn fresh_decoder_counts_up_when_pins_differ() {
    let mut r = RotaryEncoder::new(false);
    assert_eq!(r.update(true, false), 1);
    assert_eq!(r.update(false, true), 2);
    assert_eq!(r.update(true, true), 1);
    assert_eq!(r.update(false, false), 0);
    assert_eq!(r.value, 0);
    assert!(!r.invert_direction);
}

#[test]
fn decoder_counts_down_on_equal_pins() {
    let mut r = RotaryEncoder::new(true);
    assert_eq!(r.update(false, false), -1);
    assert_eq!(r.update(true, true), -2);
    assert!(r.invert_direction);
}

#[test]
fn decoder_counts_at_the_ends_of_its_range() {
    let mut r = RotaryEncoder::new(false);
    r.value = isize::MAX;
    assert_eq!(r.update(false, false), isize::MAX - 1);
    r.value = isize::MIN;
    assert_eq!(r.update(true, false), isize::MIN + 1);
}
