use vstd::prelude::*;

use crate::model::{
    chords_view, ButtonConfig, ButtonModel, EncoderConfig, EncoderModel, KeyboardCode, LedConfig,
    MacroConfig, MacroConfigModel, MenuEncoderConfig, MenuEncoderModel,
};

verus! {

/// A 21 by 21 pixel monochrome BMP: a white frame on black.
pub open spec fn example_icon_bytes() -> Seq<u8> {
    seq![
        0x42, 0x4D, 0x92, 0x00, 0x00, 0x00, 0x00, 0x00, 0x00, 0x00, 0x3E, 0x00,
        0x00, 0x00, 0x28, 0x00, 0x00, 0x00, 0x15, 0x00, 0x00, 0x00, 0x15, 0x00,
        0x00, 0x00, 0x01, 0x00, 0x01, 0x00, 0x00, 0x00, 0x00, 0x00, 0x54, 0x00,
        0x00, 0x00, 0x13, 0x0B, 0x00, 0x00, 0x13, 0x0B, 0x00, 0x00, 0x02, 0x00,
        0x00, 0x00, 0x02, 0x00, 0x00, 0x00, 0x00, 0x00, 0x00, 0x00, 0xFF, 0xFF,
        0xFF, 0x00, 0xFF, 0xFF, 0xF8, 0x00, 0x80, 0x00, 0x08, 0x00, 0x80, 0x00,
        0x08, 0x00, 0x80, 0x00, 0x08, 0x00, 0x80, 0x00, 0x08, 0x00, 0x80, 0x00,
        0x08, 0x00, 0x80, 0x00, 0x08, 0x00, 0x80, 0x00, 0x08, 0x00, 0x80, 0x00,
        0x08, 0x00, 0x80, 0x00, 0x08, 0x00, 0x80, 0x00, 0x08, 0x00, 0x80, 0x00,
        0x08, 0x00, 0x80, 0x00, 0x08, 0x00, 0x80, 0x00, 0x08, 0x00, 0x80, 0x00,
        0x08, 0x00, 0x80, 0x00, 0x08, 0x00, 0x80, 0x00, 0x08, 0x00, 0x80, 0x00,
        0x08, 0x00, 0x80, 0x00, 0x08, 0x00, 0x80, 0x00, 0x08, 0x00, 0xFF, 0xFF,
        0xF8, 0x00,
    ]
}

/// The icon that every element of the example configuration shows.
pub fn example_icon() -> (icon: Vec<u8>)
    ensures
        icon@ == example_icon_bytes(),
{
    vec![
        0x42, 0x4D, 0x92, 0x00, 0x00, 0x00, 0x00, 0x00, 0x00, 0x00, 0x3E, 0x00,
        0x00, 0x00, 0x28, 0x00, 0x00, 0x00, 0x15, 0x00, 0x00, 0x00, 0x15, 0x00,
        0x00, 0x00, 0x01, 0x00, 0x01, 0x00, 0x00, 0x00, 0x00, 0x00, 0x54, 0x00,
        0x00, 0x00, 0x13, 0x0B, 0x00, 0x00, 0x13, 0x0B, 0x00, 0x00, 0x02, 0x00,
        0x00, 0x00, 0x02, 0x00, 0x00, 0x00, 0x00, 0x00, 0x00, 0x00, 0xFF, 0xFF,
        0xFF, 0x00, 0xFF, 0xFF, 0xF8, 0x00, 0x80, 0x00, 0x08, 0x00, 0x80, 0x00,
        0x08, 0x00, 0x80, 0x00, 0x08, 0x00, 0x80, 0x00, 0x08, 0x00, 0x80, 0x00,
        0x08, 0x00, 0x80, 0x00, 0x08, 0x00, 0x80, 0x00, 0x08, 0x00, 0x80, 0x00,
        0x08, 0x00, 0x80, 0x00, 0x08, 0x00, 0x80, 0x00, 0x08, 0x00, 0x80, 0x00,
        0x08, 0x00, 0x80, 0x00, 0x08, 0x00, 0x80, 0x00, 0x08, 0x00, 0x80, 0x00,
        0x08, 0x00, 0x80, 0x00, 0x08, 0x00, 0x80, 0x00, 0x08, 0x00, 0x80, 0x00,
        0x08, 0x00, 0x80, 0x00, 0x08, 0x00, 0x80, 0x00, 0x08, 0x00, 0xFF, 0xFF,
        0xF8, 0x00,
    ]
}

/// Chords of one key each, typed one after the other.
pub open spec fn one_key_chords(keys: Seq<KeyboardCode>) -> Seq<Seq<KeyboardCode>> {
    keys.map_values(|k: KeyboardCode| seq![k])
}

fn one_key_chords_of(keys: &Vec<KeyboardCode>) -> (chords: Vec<Vec<KeyboardCode>>)
    ensures
        chords_view(chords@) == one_key_chords(keys@),
{
    let mut chords: Vec<Vec<KeyboardCode>> = Vec::new();
    let mut i: usize = 0;
    while i < keys.len()
        invariant
            0 <= i <= keys@.len(),
            chords@.len() == i,
            chords_view(chords@) == one_key_chords(keys@.subrange(0, i as int)),
        decreases keys@.len() - i,
    {
        let ghost before = chords@;
        let mut chord: Vec<KeyboardCode> = Vec::new();
        chord.push(keys[i]);
        assert(chord@ =~= seq![keys@[i as int]]);
        chords.push(chord);
        assert(keys@.subrange(0, i + 1) =~= keys@.subrange(0, i as int).push(keys@[i as int]));
        assert forall|j: int| 0 <= j <= i implies #[trigger] chords_view(chords@)[j]
            == one_key_chords(keys@.subrange(0, i + 1))[j] by {
            if j < i {
                assert(chords@[j] == before[j]);
                assert(chords_view(before)[j] == one_key_chords(
                    keys@.subrange(0, i as int),
                )[j]);
            }
        }
        assert(chords_view(chords@) =~= one_key_chords(keys@.subrange(0, i + 1)));
        i = i + 1;
    }
    assert(keys@.subrange(0, keys@.len() as int) =~= keys@);
    chords
}

/// A button of the example configuration.
pub open spec fn example_button(text: Seq<char>, keys: Seq<KeyboardCode>) -> ButtonModel {
    ButtonModel { text, icon: Some(example_icon_bytes()), keystroke: one_key_chords(keys) }
}

fn example_button_config(text: &str, keys: Vec<KeyboardCode>) -> (button: ButtonConfig)
    ensures
        button@ == example_button(text@, keys@),
{
    let button = ButtonConfig {
        display_text: String::from_str(text),
        display_icon: Some(example_icon()),
        keystroke: one_key_chords_of(&keys),
    };
    assert(button@ =~= example_button(text@, keys@));
    button
}

/// The chord Ctrl+C.
pub open spec fn ctrl_c() -> Seq<KeyboardCode> {
    seq![KeyboardCode::LeftControl, KeyboardCode::C]
}

/// The chord Ctrl+V.
pub open spec fn ctrl_v() -> Seq<KeyboardCode> {
    seq![KeyboardCode::LeftControl, KeyboardCode::V]
}

/// An encoder of the example configuration: copy to the left, paste to the
/// right and on push.
pub open spec fn copy_paste_encoder() -> EncoderModel {
    EncoderModel {
        text: "Copy/Paste"@,
        icon: Some(example_icon_bytes()),
        left: seq![ctrl_c()],
        right: seq![ctrl_v()],
        push: seq![ctrl_v()],
    }
}

fn copy_paste_encoder_config() -> (encoder: EncoderConfig)
    ensures
        encoder@ == copy_paste_encoder(),
{
    let encoder = EncoderConfig {
        display_text: String::from_str("Copy/Paste"),
        keystroke_left: vec![vec![KeyboardCode::LeftControl, KeyboardCode::C]],
        keystroke_right: vec![vec![KeyboardCode::LeftControl, KeyboardCode::V]],
        keystroke_push: vec![vec![KeyboardCode::LeftControl, KeyboardCode::V]],
        display_icon: Some(example_icon()),
    };
    assert(encoder@.left =~= copy_paste_encoder().left);
    assert(encoder@.right =~= copy_paste_encoder().right);
    assert(encoder@.push =~= copy_paste_encoder().push);
    assert(encoder@ =~= copy_paste_encoder());
    encoder
}

/// The menu encoder of the example configuration: volume down and up.
pub open spec fn volume_menu_encoder() -> MenuEncoderModel {
    MenuEncoderModel {
        text: "Volume"@,
        icon: Some(example_icon_bytes()),
        left: seq![seq![KeyboardCode::VolumeDown]],
        right: seq![seq![KeyboardCode::VolumeUp]],
    }
}

/// The example configuration that the firmware writes to the card.
pub open spec fn example_config_model() -> MacroConfigModel {
    MacroConfigModel {
        name: "example"@,
        buttons: seq![
            example_button(
                "A Macro Pad"@,
                seq![KeyboardCode::A, KeyboardCode::A, KeyboardCode::A, KeyboardCode::A],
            ),
            example_button(
                "B Macro Pad"@,
                seq![KeyboardCode::B, KeyboardCode::B, KeyboardCode::B],
            ),
            example_button("C Macro Pad"@, seq![KeyboardCode::C, KeyboardCode::C]),
            example_button("D Macro Pad"@, seq![KeyboardCode::D]),
            example_button("E Macro Paaaad"@, seq![KeyboardCode::E]),
            example_button("F Macro Pad"@, seq![KeyboardCode::F]),
            example_button("G Macro Pad"@, seq![KeyboardCode::G]),
            example_button("H Macro Paaaaaaad"@, seq![KeyboardCode::H]),
            example_button("I Macro Pad"@, seq![KeyboardCode::I]),
            example_button(
                "J Maaaacro Pad"@,
                seq![
                    KeyboardCode::J,
                    KeyboardCode::K,
                    KeyboardCode::L,
                    KeyboardCode::M,
                    KeyboardCode::N,
                    KeyboardCode::O,
                    KeyboardCode::P,
                    KeyboardCode::Q,
                    KeyboardCode::R,
                    KeyboardCode::S,
                ],
            ),
        ],
        menu_encoder: volume_menu_encoder(),
        encoders: seq![copy_paste_encoder(), copy_paste_encoder()],
        leds: seq![
            LedConfig { r: 255, g: 0, b: 0 },
            LedConfig { r: 0, g: 255, b: 0 },
            LedConfig { r: 0, g: 0, b: 255 },
            LedConfig { r: 255, g: 255, b: 0 },
            LedConfig { r: 255, g: 0, b: 255 },
            LedConfig { r: 0, g: 255, b: 255 },
            LedConfig { r: 255, g: 255, b: 255 },
            LedConfig { r: 128, g: 128, b: 128 },
        ],
    }
}

/// Builds the example configuration.
pub fn get_example_config() -> (config: MacroConfig)
    ensures
        config@ == example_config_model(),
{
    let menu_encoder = MenuEncoderConfig {
        display_text: String::from_str("Volume"),
        display_icon: Some(example_icon()),
        keystroke_left: vec![vec![KeyboardCode::VolumeDown]],
        keystroke_right: vec![vec![KeyboardCode::VolumeUp]],
    };
    assert(menu_encoder.keystroke_left@[0]@ =~= seq![KeyboardCode::VolumeDown]);
    assert(menu_encoder.keystroke_right@[0]@ =~= seq![KeyboardCode::VolumeUp]);
    assert(menu_encoder@.left =~= volume_menu_encoder().left);
    assert(menu_encoder@.right =~= volume_menu_encoder().right);
    assert(menu_encoder@ =~= volume_menu_encoder());
    let b0 = example_button_config(
        "A Macro Pad",
        vec![KeyboardCode::A, KeyboardCode::A, KeyboardCode::A, KeyboardCode::A],
    );
    assert(b0@ == example_config_model().buttons[0]);
    let b1 = example_button_config(
        "B Macro Pad",
        vec![KeyboardCode::B, KeyboardCode::B, KeyboardCode::B],
    );
    assert(b1@ == example_config_model().buttons[1]);
    let b2 = example_button_config("C Macro Pad", vec![KeyboardCode::C, KeyboardCode::C]);
    assert(b2@ == example_config_model().buttons[2]);
    let b3 = example_button_config("D Macro Pad", vec![KeyboardCode::D]);
    assert(b3@ == example_config_model().buttons[3]);
    let b4 = example_button_config("E Macro Paaaad", vec![KeyboardCode::E]);
    assert(b4@ == example_config_model().buttons[4]);
    let b5 = example_button_config("F Macro Pad", vec![KeyboardCode::F]);
    assert(b5@ == example_config_model().buttons[5]);
    let b6 = example_button_config("G Macro Pad", vec![KeyboardCode::G]);
    assert(b6@ == example_config_model().buttons[6]);
    let b7 = example_button_config("H Macro Paaaaaaad", vec![KeyboardCode::H]);
    assert(b7@ == example_config_model().buttons[7]);
    let b8 = example_button_config("I Macro Pad", vec![KeyboardCode::I]);
    assert(b8@ == example_config_model().buttons[8]);
    let b9 = example_button_config(
        "J Maaaacro Pad",
        vec![
            KeyboardCode::J,
            KeyboardCode::K,
            KeyboardCode::L,
            KeyboardCode::M,
            KeyboardCode::N,
            KeyboardCode::O,
            KeyboardCode::P,
            KeyboardCode::Q,
            KeyboardCode::R,
            KeyboardCode::S,
        ],
    );
    assert(b9@ == example_config_model().buttons[9]);
    let config = MacroConfig {
        name: String::from_str("example"),
        buttons: [b0, b1, b2, b3, b4, b5, b6, b7, b8, b9],
        menu_encoder,
        encoders: [copy_paste_encoder_config(), copy_paste_encoder_config()],
        leds: [
            LedConfig { r: 255, g: 0, b: 0 },
            LedConfig { r: 0, g: 255, b: 0 },
            LedConfig { r: 0, g: 0, b: 255 },
            LedConfig { r: 255, g: 255, b: 0 },
            LedConfig { r: 255, g: 0, b: 255 },
            LedConfig { r: 0, g: 255, b: 255 },
            LedConfig { r: 255, g: 255, b: 255 },
            LedConfig { r: 128, g: 128, b: 128 },
        ],
    };
    assert(config@.buttons =~= example_config_model().buttons);
    assert(config@.encoders =~= example_config_model().encoders);
    assert(config@.leds =~= example_config_model().leds);
    assert(config@ =~= example_config_model());
    config
}

} // verus!
