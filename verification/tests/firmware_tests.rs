use pico_macropad_rs::containers::{Encoder, Encoders, MacroPadButtons};
use pico_macropad_rs::encoder::Direction;
use pico_macropad_rs::example_config::get_example_config;
use pico_macropad_rs::firmware::{
    apply_loaded_config, display_step, keyboard_report, keyboard_tick_step, led_colors, process_inputs, DisplayAction,
    InputSample, KEYBOARD_KEY_CHECK_INTERVAL,
};
use pico_macropad_rs::model::{KeyboardCode, MacroConfig};
use pico_macropad_rs::read_config::reverse_keystrokes;
use pico_macropad_rs::test_config::TestConfig;

fn quiet_sample() -> InputSample {
    InputSample {
        menu_turn: Some(Direction::Stationary),
        menu_switch: false,
        encoder1_turn: Some(Direction::Stationary),
        encoder1_switch: false,
        encoder2_turn: None,
        encoder2_switch: false,
        pads: [false; 10],
    }
}

#[test]
fn quiet_sample_needs_no_settling() {
    let mut encoders = Encoders::default();
    let mut buttons = MacroPadButtons::default();
    let d = process_inputs(&mut encoders, &mut buttons, &quiet_sample());
    assert!(!d.switch_settle);
    assert!(!d.turn_settle);
}

#[test]
fn pressed_pad_and_turned_encoder_settle() {
    let mut encoders = Encoders::default();
    let mut buttons = MacroPadButtons::default();
    let mut sample = quiet_sample();
    sample.pads[3] = true;
    sample.encoder1_turn = Some(Direction::CounterClockwise);
    let d = process_inputs(&mut encoders, &mut buttons, &sample);
    assert!(d.switch_settle);
    assert!(d.turn_settle);
    assert!(buttons.pads[3].pressed && buttons.pads[3].pressed_changed);
    assert_eq!(encoders.encoder1.value, 1);
    assert_eq!(encoders.encoder1.delta, 1);
    // the pad is still held, the turn is still unread
    let d = process_inputs(&mut encoders, &mut buttons, &quiet_sample());
    assert!(d.switch_settle);
    let mut sample = quiet_sample();
    sample.pads[3] = true;
    let d = process_inputs(&mut encoders, &mut buttons, &sample);
    assert!(d.switch_settle);
    let d = process_inputs(&mut encoders, &mut buttons, &sample);
    assert!(!d.switch_settle);
    assert!(d.turn_settle);
}

#[test]
fn switch_press_is_flagged_once() {
    let mut encoders = Encoders::default();
    let mut buttons = MacroPadButtons::default();
    let mut sample = quiet_sample();
    sample.menu_switch = true;
    sample.menu_turn = Some(Direction::Clockwise);
    let d = process_inputs(&mut encoders, &mut buttons, &sample);
    assert!(d.switch_settle);
    assert!(encoders.menu_encoder.value_changed);
    assert!(encoders.menu_encoder.button);
    assert_eq!(encoders.menu_encoder.value, 0);
    assert_eq!(encoders.menu_encoder.delta, -1);
    sample.menu_turn = None;
    let d = process_inputs(&mut encoders, &mut buttons, &sample);
    assert!(!d.switch_settle);
    assert!(!encoders.menu_encoder.value_changed);
}

fn clicked(value: usize) -> Encoder {
    Encoder { value, value_changed: true, delta: 0, button: true }
}

#[test]
fn click_outside_menu_requests_menu_mode() {
    let mut e = clicked(3);
    let step = display_step(false, &mut e, 0);
    assert!(step.enter_menu);
    assert!(matches!(step.action, DisplayAction::Leds));
    assert_eq!(e.value, 3);
}

#[test]
fn menu_clamps_position_and_opens_on_click() {
    let mut e = clicked(7);
    let step = display_step(true, &mut e, 3);
    assert!(!step.enter_menu);
    match step.action {
        DisplayAction::Menu { position, open_selected } => {
            assert_eq!(position, 2);
            assert!(open_selected);
        },
        DisplayAction::Leds => panic!("expected the menu"),
    }
    assert_eq!(e.value, 2);
    let mut e = Encoder { value: 1, value_changed: false, delta: 4, button: true };
    match display_step(true, &mut e, 3).action {
        DisplayAction::Menu { position, open_selected } => {
            assert_eq!(position, 1);
            assert!(!open_selected);
        },
        DisplayAction::Leds => panic!("expected the menu"),
    }
    assert_eq!(e.delta, 4);
}

#[test]
fn led_pattern_fades_from_blue_to_red() {
    let colors = led_colors();
    let expected = [
        (30, 225),
        (60, 195),
        (90, 165),
        (120, 135),
        (150, 105),
        (180, 75),
        (210, 45),
        (240, 15),
    ];
    for (i, c) in colors.iter().enumerate() {
        assert_eq!((c.r, c.g, c.b), (expected[i].0, 0, expected[i].1));
    }
}

#[test]
fn reports_go_out_after_the_interval() {
    let mut ticks = 0;
    let mut sent = 0;
    let mut first = None;
    for tick in 0..200 {
        let (send, next) = keyboard_tick_step(ticks);
        if send {
            sent += 1;
            first.get_or_insert(tick);
        }
        ticks = next;
    }
    assert_eq!(first, Some(KEYBOARD_KEY_CHECK_INTERVAL + 1));
    assert_eq!(keyboard_tick_step(51), (true, 1));
    assert_eq!(keyboard_tick_step(50), (false, 51));
    assert_eq!(sent, 3);
}

#[test]
fn menu_mode_reports_no_event_and_keeps_turns() {
    let config = MacroConfig::get_test_config();
    let buttons = MacroPadButtons::default();
    let mut encoders = Encoders::default();
    encoders.encoder2.delta = 3;
    let keys = keyboard_report(true, &buttons, &mut encoders, &config);
    assert_eq!(keys, vec![KeyboardCode::NoEventIndicated]);
    assert_eq!(encoders.encoder2.delta, 3);
}

#[test]
fn report_lists_held_buttons_then_encoders() {
    let mut config = get_example_config();
    reverse_keystrokes(&mut config);
    let mut buttons = MacroPadButtons::default();
    buttons.pads[9].update(true);
    buttons.pads[1].update(true);
    let mut encoders = Encoders::default();
    encoders.menu_encoder.delta = 2;
    encoders.encoder1.delta = -1;
    encoders.encoder1.button = true;
    encoders.encoder2.button = false;
    encoders.menu_encoder.button = true;
    let keys = keyboard_report(false, &buttons, &mut encoders, &config);
    assert_eq!(
        keys,
        vec![
            KeyboardCode::B,
            KeyboardCode::J,
            KeyboardCode::VolumeUp,
            KeyboardCode::LeftControl,
            KeyboardCode::C,
            KeyboardCode::LeftControl,
            KeyboardCode::V,
        ]
    );
    assert_eq!(encoders.menu_encoder.delta, 0);
    assert_eq!(encoders.encoder1.delta, 0);
    let keys = keyboard_report(false, &MacroPadButtons::default(), &mut encoders, &config);
    assert_eq!(keys, vec![KeyboardCode::LeftControl, KeyboardCode::V]);
}

#[test]
fn loaded_config_replaces_the_current_one_and_leaves_the_menu() {
    let mut config = MacroConfig::default();
    let mut menu_mode = true;
    assert!(!apply_loaded_config(&mut config, &mut menu_mode, None));
    assert!(menu_mode);
    assert_eq!(config.name, "");
    assert!(apply_loaded_config(&mut config, &mut menu_mode, Some(get_example_config())));
    assert!(!menu_mode);
    assert_eq!(config.name, "example");
}
