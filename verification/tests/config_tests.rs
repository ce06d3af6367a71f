use pico_macropad_rs::example_config::{example_icon, get_example_config};
use pico_macropad_rs::model::{KeyboardCode, MacroConfig, NUM_BUTTONS, NUM_ENCODERS, NUM_LEDS};
use pico_macropad_rs::read_config::{
    config_file_names, decode_last_config, initial_config_name, is_config_file, reverse_keystrokes,
    ConfigError, FILE_READ_BUFFER_SIZE, LAST_CONFIG_FILE_NAME,
};
use pico_macropad_rs::test_config::TestConfig;

#[test]
fn example_config_holds_the_documented_bindings() {
    let c = get_example_config();
    assert_eq!(c.name, "example");
    assert_eq!(c.buttons.len(), NUM_BUTTONS);
    assert_eq!(c.buttons[0].display_text, "A Macro Pad");
    assert_eq!(c.buttons[0].keystroke, vec![vec![KeyboardCode::A]; 4]);
    assert_eq!(c.buttons[1].keystroke, vec![vec![KeyboardCode::B]; 3]);
    assert_eq!(c.buttons[4].display_text, "E Macro Paaaad");
    assert_eq!(c.buttons[9].keystroke.len(), 10);
    assert_eq!(c.buttons[9].keystroke[0], vec![KeyboardCode::J]);
    assert_eq!(c.buttons[9].keystroke[9], vec![KeyboardCode::S]);
    assert_eq!(c.menu_encoder.display_text, "Volume");
    assert_eq!(c.menu_encoder.keystroke_left, vec![vec![KeyboardCode::VolumeDown]]);
    assert_eq!(c.menu_encoder.keystroke_right, vec![vec![KeyboardCode::VolumeUp]]);
    assert_eq!(c.encoders.len(), NUM_ENCODERS);
    for e in &c.encoders {
        assert_eq!(e.display_text, "Copy/Paste");
        assert_eq!(e.keystroke_left, vec![vec![KeyboardCode::LeftControl, KeyboardCode::C]]);
        assert_eq!(e.keystroke_push, vec![vec![KeyboardCode::LeftControl, KeyboardCode::V]]);
        assert_eq!(e.display_icon, Some(example_icon()));
    }
    assert_eq!(c.leds.len(), NUM_LEDS);
    assert_eq!((c.leds[0].r, c.leds[0].g, c.leds[0].b), (255, 0, 0));
    assert_eq!((c.leds[7].r, c.leds[7].g, c.leds[7].b), (128, 128, 128));
}

#[test]
fn example_icon_is_a_21_pixel_square_bmp() {
    let icon = example_icon();
    assert_eq!(icon.len(), 146);
    assert_eq!(&icon[0..2], b"BM");
    assert_eq!(icon[18], 21);
    assert_eq!(icon[22], 21);
}

#[test]
fn test_config_types_a_everywhere() {
    let c = MacroConfig::get_test_config();
    for b in &c.buttons {
        assert_eq!(b.display_text, "A");
        assert_eq!(b.keystroke, vec![vec![KeyboardCode::A]]);
        assert_eq!(b.display_icon, None);
    }
    assert_eq!(c.menu_encoder.keystroke_right, vec![vec![KeyboardCode::A]]);
    assert_eq!(c.encoders[1].keystroke_push, vec![vec![KeyboardCode::A]]);
    assert_eq!(c.name, "");
}

#[test]
fn default_config_is_empty() {
    let c = MacroConfig::default();
    assert_eq!(c.name, "");
    assert!(c.buttons.iter().all(|b| b.display_text.is_empty() && b.keystroke.is_empty()));
    assert!(c.leds.iter().all(|l| l.r == 0 && l.g == 0 && l.b == 0));
    assert!(c.menu_encoder.display_icon.is_none());
}

#[test]
fn reversing_keystrokes_puts_first_chord_last() {
    let mut c = get_example_config();
    reverse_keystrokes(&mut c);
    assert_eq!(c.buttons[9].keystroke[0], vec![KeyboardCode::S]);
    assert_eq!(c.buttons[9].keystroke[9], vec![KeyboardCode::J]);
    assert_eq!(c.buttons[9].display_text, "J Maaaacro Pad");
    assert_eq!(c.name, "example");
}

#[test]
fn reversing_keystrokes_twice_restores_them() {
    let mut c = get_example_config();
    reverse_keystrokes(&mut c);
    reverse_keystrokes(&mut c);
    let original = get_example_config();
    for i in 0..10 {
        assert_eq!(c.buttons[i].keystroke, original.buttons[i].keystroke);
    }
    assert_eq!(c.encoders[0].keystroke_left, original.encoders[0].keystroke_left);
}

#[test]
fn last_config_name_is_decoded_from_the_buffer() {
    let mut buffer = [0u8; 16];
    buffer[..8].copy_from_slice(b"GOOD.CFG");
    assert_eq!(decode_last_config(&buffer, 8), Ok(String::from("GOOD.CFG")));
    assert_eq!(decode_last_config(&buffer, 0), Ok(String::new()));
    let bad = [0x47u8, 0xFF, 0x46];
    match decode_last_config(&bad, 3) {
        Err(ConfigError::InvalidText(e)) => {
            assert_eq!(e.to_string(), "invalid utf-8 sequence of 1 bytes from index 1");
            assert_eq!(ConfigError::InvalidText(e).message(), None);
        }
        other => panic!("expected invalid text, got {:?}", other),
    }
    assert_eq!(decode_last_config(&bad, 1), Ok(String::from("G")));
    let umlaut = "Zü".as_bytes();
    assert_eq!(decode_last_config(umlaut, 3), Ok(String::from("Zü")));
    match decode_last_config(umlaut, 2) {
        Err(ConfigError::InvalidText(e)) => {
            assert_eq!(e.to_string(), "incomplete utf-8 byte sequence from index 1");
        }
        other => panic!("expected invalid text, got {:?}", other),
    }
}

#[test]
fn only_cfg_files_make_the_menu() {
    assert!(is_config_file("good.cfg"));
    assert!(is_config_file(".cfg"));
    assert!(!is_config_file("cfg"));
    assert!(!is_config_file("GOOD.CFG"));
    assert!(!is_config_file("notes.txt"));
    let names = vec![
        String::from("good.cfg"),
        String::from("lastcfg"),
        String::from("b.cfg"),
        String::from("image.bmp"),
    ];
    assert_eq!(config_file_names(&names), vec![String::from("good.cfg"), String::from("b.cfg")]);
}

#[test]
fn start_up_config_prefers_the_last_one() {
    let files = vec![String::from("a.cfg"), String::from("b.cfg")];
    assert_eq!(initial_config_name(Some(String::from("b.cfg")), &files), "b.cfg");
    assert_eq!(initial_config_name(None, &files), "a.cfg");
    assert_eq!(initial_config_name(None, &Vec::new()), "No config found");
}

#[test]
fn errors_describe_themselves() {
    assert_eq!(ConfigError::ShortFileName.message(), Some("Failed to create short file name"));
    assert_eq!(ConfigError::OpenFile.message(), Some("Failed to open file"));
    assert_eq!(ConfigError::ReadFile.message(), Some("Failed to read file"));
    assert_eq!(ConfigError::Parse.message(), Some("Failed to parse config"));
    assert_eq!(LAST_CONFIG_FILE_NAME, "lastcfg");
    assert_eq!(FILE_READ_BUFFER_SIZE, 8196);
}
