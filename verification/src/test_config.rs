use vstd::prelude::*;

use crate::model::{
    chords_view, ButtonConfig, ButtonModel, EncoderConfig, EncoderModel, KeyboardCode, LedConfig,
    MacroConfig, MacroConfigModel, MenuEncoderConfig, MenuEncoderModel,
};

verus! {

/// A type that has a configuration for testing the pad.
pub trait TestConfig: Sized {
    fn get_test_config() -> Self;
}

/// The binding that types the single key `A`.
pub open spec fn key_a() -> Seq<Seq<KeyboardCode>> {
    seq![seq![KeyboardCode::A]]
}

pub open spec fn test_button() -> ButtonModel {
    ButtonModel { text: "A"@, icon: None, keystroke: key_a() }
}

pub open spec fn test_menu_encoder() -> MenuEncoderModel {
    MenuEncoderModel { text: "A"@, icon: None, left: key_a(), right: key_a() }
}

pub open spec fn test_encoder() -> EncoderModel {
    EncoderModel { text: "A"@, icon: None, left: key_a(), right: key_a(), push: key_a() }
}

/// The test configuration: every button and encoder shows `A` and types `A`;
/// no name, no icons, all LEDs dark.
pub open spec fn test_config_model() -> MacroConfigModel {
    MacroConfigModel {
        name: Seq::empty(),
        buttons: Seq::new(10, |i: int| test_button()),
        menu_encoder: test_menu_encoder(),
        encoders: Seq::new(2, |i: int| test_encoder()),
        leds: Seq::new(8, |i: int| LedConfig { r: 0, g: 0, b: 0 }),
    }
}

fn key_a_binding() -> (binding: Vec<Vec<KeyboardCode>>)
    ensures
        chords_view(binding@) == key_a(),
{
    let binding = vec![vec![KeyboardCode::A]];
    assert(binding@[0]@ =~= seq![KeyboardCode::A]);
    assert(chords_view(binding@) =~= key_a());
    binding
}

fn test_button_config() -> (button: ButtonConfig)
    ensures
        button@ == test_button(),
{
    let button = ButtonConfig {
        display_text: String::from_str("A"),
        display_icon: None,
        keystroke: key_a_binding(),
    };
    assert(button@ =~= test_button());
    button
}

fn test_encoder_config() -> (encoder: EncoderConfig)
    ensures
        encoder@ == test_encoder(),
{
    let encoder = EncoderConfig {
        display_text: String::from_str("A"),
        display_icon: None,
        keystroke_left: key_a_binding(),
        keystroke_right: key_a_binding(),
        keystroke_push: key_a_binding(),
    };
    assert(encoder@ =~= test_encoder());
    encoder
}

impl TestConfig for MacroConfig {
    fn get_test_config() -> (config: MacroConfig)
        ensures
            config@ == test_config_model(),
    {
        let menu_encoder = MenuEncoderConfig {
            display_text: String::from_str("A"),
            display_icon: None,
            keystroke_left: key_a_binding(),
            keystroke_right: key_a_binding(),
        };
        assert(menu_encoder@ =~= test_menu_encoder());
        let config = MacroConfig {
            name: String::new(),
            buttons: [
                test_button_config(),
                test_button_config(),
                test_button_config(),
                test_button_config(),
                test_button_config(),
                test_button_config(),
                test_button_config(),
                test_button_config(),
                test_button_config(),
                test_button_config(),
            ],
            menu_encoder,
            encoders: [test_encoder_config(), test_encoder_config()],
            leds: [LedConfig { r: 0, g: 0, b: 0 }; 8],
        };
        assert(config@.buttons =~= test_config_model().buttons);
        assert(config@.encoders =~= test_config_model().encoders);
        assert(config@.leds =~= test_config_model().leds);
        assert(config@ =~= test_config_model());
        config
    }
}

} // verus!
