use pico_macropad_rs::containers::{Encoder, Encoders, MacroPadButton, MacroPadButtons};

fn encoder(value: usize, value_changed: bool, delta: isize, button: bool) -> Encoder {
    Encoder { value, value_changed, delta, button }
}

#[test]
fn read_delta_returns_turns_and_clears_them() {
    let mut e = encoder(4, true, -3, true);
    assert_eq!(e.read_delta(), -3);
    assert_eq!(e.delta, 0);
    assert_eq!(e.value, 4);
    assert!(e.value_changed);
    assert!(e.button);
}

#[test]
fn read_delta_twice_yields_nothing_the_second_time() {
    let mut e = encoder(0, false, 7, false);
    assert_eq!(e.read_delta(), 7);
    assert_eq!(e.read_delta(), 0);
}

#[test]
fn default_encoders_are_at_rest() {
    let e = Encoders::default();
    for x in [&e.menu_encoder, &e.encoder1, &e.encoder2] {
        assert_eq!(x.value, 0);
        assert_eq!(x.delta, 0);
        assert!(!x.value_changed);
        assert!(!x.button);
    }
}

#[test]
fn button_update_flags_a_change() {
    let mut b = MacroPadButton::default();
    b.update(true);
    assert!(b.pressed);
    assert!(b.pressed_changed);
    b.update(false);
    assert!(!b.pressed);
    assert!(b.pressed_changed);
}

#[test]
fn button_sampled_twice_alike_reports_no_change() {
    let mut b = MacroPadButton::default();
    b.update(true);
    b.update(true);
    assert!(b.pressed);
    assert!(!b.pressed_changed);
}

#[test]
fn any_button_changed_sees_each_pad() {
    let mut buttons = MacroPadButtons::default();
    assert!(!buttons.any_button_changed());
    for i in 0..10 {
        let mut bs = MacroPadButtons::default();
        bs.pads[i].update(true);
        assert!(bs.any_button_changed());
    }
    buttons.pads[9].update(false);
    assert!(!buttons.any_button_changed());
}

#[test]
fn sample_moves_position_and_accumulates_turns() {
    let mut e = encoder(5, false, 2, false);
    e.apply_sample(1, false);
    assert_eq!(e.value, 6);
    assert_eq!(e.delta, 3);
    assert!(!e.value_changed);
    e.apply_sample(-1, true);
    assert_eq!(e.value, 5);
    assert_eq!(e.delta, 2);
    assert!(e.value_changed);
    assert!(e.button);
}

#[test]
fn sample_stops_position_at_zero() {
    let mut e = encoder(0, false, 0, true);
    e.apply_sample(-1, true);
    assert_eq!(e.value, 0);
    assert_eq!(e.delta, -1);
    assert!(!e.value_changed);
}

#[test]
fn sample_reads_huge_positions_as_negative() {
    let mut e = encoder(usize::MAX, false, 0, false);
    e.apply_sample(1, false);
    assert_eq!(e.value, 0);
    let mut e = encoder(isize::MAX as usize + 1, false, 0, false);
    e.apply_sample(0, false);
    assert_eq!(e.value, 0);
    let mut e = encoder(isize::MAX as usize, false, 0, false);
    e.apply_sample(-1, false);
    assert_eq!(e.value, isize::MAX as usize - 1);
}
