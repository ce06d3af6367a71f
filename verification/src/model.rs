use vstd::prelude::*;

verus! {

/// Number of push buttons on the pad.
pub const NUM_BUTTONS: usize = 10;

/// Number of plain rotary encoders (the menu encoder not counted).
pub const NUM_ENCODERS: usize = 2;

/// Number of RGB LEDs under the keys.
pub const NUM_LEDS: usize = 8;

/// A key of the USB HID keyboard page, named as the configuration files name it.
#[derive(Clone, Copy, Debug, PartialEq, Eq, Structural)]
pub enum KeyboardCode {
    NoEventIndicated,
    A, B, C, D, E, F, G, H, I, J, K, L, M,
    N, O, P, Q, R, S, T, U, V, W, X, Y, Z,
    Keyboard1, Keyboard2, Keyboard3, Keyboard4, Keyboard5,
    Keyboard6, Keyboard7, Keyboard8, Keyboard9, Keyboard0,
    ReturnEnter, Escape, DeleteBackspace, Tab, Space,
    F1, F2, F3, F4, F5, F6, F7, F8, F9, F10, F11, F12,
    RightArrow, LeftArrow, DownArrow, UpArrow,
    LeftControl, LeftShift, LeftAlt, LeftGUI,
    RightControl, RightShift, RightAlt, RightGUI,
    Mute, VolumeUp, VolumeDown,
}

/// Colour of one LED.
#[derive(Clone, Copy, Debug, PartialEq, Eq, Structural)]
pub struct LedConfig {
    pub r: u8,
    pub g: u8,
    pub b: u8,
}

/// What a push button shows and types.
pub struct ButtonConfig {
    pub display_text: String,
    /// A BMP image shown in place of the text when it decodes.
    pub display_icon: Option<Vec<u8>>,
    /// Chords typed one after the other; the keys of a chord are held together.
    pub keystroke: Vec<Vec<KeyboardCode>>,
}

/// What the menu encoder shows and types when turned.
pub struct MenuEncoderConfig {
    pub display_text: String,
    pub display_icon: Option<Vec<u8>>,
    pub keystroke_left: Vec<Vec<KeyboardCode>>,
    pub keystroke_right: Vec<Vec<KeyboardCode>>,
}

/// What a plain encoder shows and types when turned or pushed.
pub struct EncoderConfig {
    pub display_text: String,
    pub display_icon: Option<Vec<u8>>,
    pub keystroke_left: Vec<Vec<KeyboardCode>>,
    pub keystroke_right: Vec<Vec<KeyboardCode>>,
    pub keystroke_push: Vec<Vec<KeyboardCode>>,
}

/// A complete configuration of the pad, as stored in a `.cfg` file.
pub struct MacroConfig {
    pub name: String,
    pub buttons: [ButtonConfig; 10],
    pub menu_encoder: MenuEncoderConfig,
    pub encoders: [EncoderConfig; 2],
    pub leds: [LedConfig; 8],
}

/// Abstract contents of an optional icon.
pub open spec fn icon_view(icon: Option<Vec<u8>>) -> Option<Seq<u8>> {
    match icon {
        Some(bytes) => Some(bytes@),
        None => None,
    }
}

/// Abstract contents of a chord sequence.
pub open spec fn chords_view(chords: Seq<Vec<KeyboardCode>>) -> Seq<Seq<KeyboardCode>> {
    chords.map_values(|chord: Vec<KeyboardCode>| chord@)
}

/// What a button is configured to show and type.
#[verifier::ext_equal]
pub struct ButtonModel {
    pub text: Seq<char>,
    pub icon: Option<Seq<u8>>,
    pub keystroke: Seq<Seq<KeyboardCode>>,
}

/// What the menu encoder is configured to show and type.
#[verifier::ext_equal]
pub struct MenuEncoderModel {
    pub text: Seq<char>,
    pub icon: Option<Seq<u8>>,
    pub left: Seq<Seq<KeyboardCode>>,
    pub right: Seq<Seq<KeyboardCode>>,
}

/// What a plain encoder is configured to show and type.
#[verifier::ext_equal]
pub struct EncoderModel {
    pub text: Seq<char>,
    pub icon: Option<Seq<u8>>,
    pub left: Seq<Seq<KeyboardCode>>,
    pub right: Seq<Seq<KeyboardCode>>,
    pub push: Seq<Seq<KeyboardCode>>,
}

/// The contents of a configuration.
#[verifier::ext_equal]
pub struct MacroConfigModel {
    pub name: Seq<char>,
    pub buttons: Seq<ButtonModel>,
    pub menu_encoder: MenuEncoderModel,
    pub encoders: Seq<EncoderModel>,
    pub leds: Seq<LedConfig>,
}

impl View for ButtonConfig {
    type V = ButtonModel;

    open spec fn view(&self) -> ButtonModel {
        ButtonModel {
            text: self.display_text@,
            icon: icon_view(self.display_icon),
            keystroke: chords_view(self.keystroke@),
        }
    }
}

impl View for MenuEncoderConfig {
    type V = MenuEncoderModel;

    open spec fn view(&self) -> MenuEncoderModel {
        MenuEncoderModel {
            text: self.display_text@,
            icon: icon_view(self.display_icon),
            left: chords_view(self.keystroke_left@),
            right: chords_view(self.keystroke_right@),
        }
    }
}

impl View for EncoderConfig {
    type V = EncoderModel;

    open spec fn view(&self) -> EncoderModel {
        EncoderModel {
            text: self.display_text@,
            icon: icon_view(self.display_icon),
            left: chords_view(self.keystroke_left@),
            right: chords_view(self.keystroke_right@),
            push: chords_view(self.keystroke_push@),
        }
    }
}

impl View for MacroConfig {
    type V = MacroConfigModel;

    open spec fn view(&self) -> MacroConfigModel {
        MacroConfigModel {
            name: self.name@,
            buttons: self.buttons@.map_values(|b: ButtonConfig| b@),
            menu_encoder: self.menu_encoder@,
            encoders: self.encoders@.map_values(|e: EncoderConfig| e@),
            leds: self.leds@,
        }
    }
}

/// The model of an unconfigured button: no text, no icon, nothing to type.
pub open spec fn empty_button() -> ButtonModel {
    ButtonModel { text: Seq::empty(), icon: None, keystroke: Seq::empty() }
}

/// The model of an unconfigured menu encoder.
pub open spec fn empty_menu_encoder() -> MenuEncoderModel {
    MenuEncoderModel { text: Seq::empty(), icon: None, left: Seq::empty(), right: Seq::empty() }
}

/// The model of an unconfigured encoder.
pub open spec fn empty_encoder() -> EncoderModel {
    EncoderModel {
        text: Seq::empty(),
        icon: None,
        left: Seq::empty(),
        right: Seq::empty(),
        push: Seq::empty(),
    }
}

/// The model of a configuration with nothing set: all texts empty, no icons,
/// no keystrokes and all LEDs dark.
pub open spec fn empty_config() -> MacroConfigModel {
    MacroConfigModel {
        name: Seq::empty(),
        buttons: Seq::new(10, |i: int| empty_button()),
        menu_encoder: empty_menu_encoder(),
        encoders: Seq::new(2, |i: int| empty_encoder()),
        leds: Seq::new(8, |i: int| LedConfig { r: 0, g: 0, b: 0 }),
    }
}

impl Default for ButtonConfig {
    fn default() -> (b: Self)
        ensures
            b@ == empty_button(),
    {
        let b = ButtonConfig { display_text: String::new(), display_icon: None, keystroke: Vec::new() };
        assert(b@ =~= empty_button());
        b
    }
}

impl Default for MenuEncoderConfig {
    fn default() -> (m: Self)
        ensures
            m@ == empty_menu_encoder(),
    {
        let m = MenuEncoderConfig {
            display_text: String::new(),
            display_icon: None,
            keystroke_left: Vec::new(),
            keystroke_right: Vec::new(),
        };
        assert(m@ =~= empty_menu_encoder());
        m
    }
}

impl Default for EncoderConfig {
    fn default() -> (e: Self)
        ensures
            e@ == empty_encoder(),
    {
        let e = EncoderConfig {
            display_text: String::new(),
            display_icon: None,
            keystroke_left: Vec::new(),
            keystroke_right: Vec::new(),
            keystroke_push: Vec::new(),
        };
        assert(e@ =~= empty_encoder());
        e
    }
}

impl Default for LedConfig {
    fn default() -> (l: Self)
        ensures
            l == (LedConfig { r: 0, g: 0, b: 0 }),
    {
        LedConfig { r: 0, g: 0, b: 0 }
    }
}

impl Default for MacroConfig {
    fn default() -> (c: Self)
        ensures
            c@ == empty_config(),
    {
        let c = MacroConfig {
            name: String::new(),
            buttons: [
                ButtonConfig::default(),
                ButtonConfig::default(),
                ButtonConfig::default(),
                ButtonConfig::default(),
                ButtonConfig::default(),
                ButtonConfig::default(),
                ButtonConfig::default(),
                ButtonConfig::default(),
                ButtonConfig::default(),
                ButtonConfig::default(),
            ],
            menu_encoder: MenuEncoderConfig::default(),
            encoders: [EncoderConfig::default(), EncoderConfig::default()],
            leds: [LedConfig::default(); 8],
        };
        assert(c@.buttons =~= empty_config().buttons);
        assert(c@.encoders =~= empty_config().encoders);
        assert(c@.leds =~= empty_config().leds);
        c
    }
}

} // verus!
