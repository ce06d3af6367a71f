use vstd::prelude::*;
use vstd::string::*;
use vstd::utf8::*;

use crate::model::{
    ButtonModel, EncoderModel, KeyboardCode, MacroConfig, MacroConfigModel, MenuEncoderModel,
    chords_view,
};

verus! {

broadcast use vstd::utf8::group_utf8_lib;

/// Name of the file on the card that holds the name of the last loaded configuration.
pub const LAST_CONFIG_FILE_NAME: &'static str = "lastcfg";

/// Size of the buffer that a file on the card is read into.
pub const FILE_READ_BUFFER_SIZE: usize = 8196;

/// The error that `core::str::from_utf8` reports for bytes that are not UTF-8.
#[verifier::external_type_specification]
#[verifier::external_body]
pub struct ExUtf8Error(core::str::Utf8Error);

/// Why reading or storing a configuration failed.
#[derive(Clone, Copy, Debug, PartialEq, Eq)]
pub enum ConfigError {
    /// The name is not a valid 8.3 file name.
    ShortFileName,
    /// The file could not be opened.
    OpenFile,
    /// The file could not be read.
    ReadFile,
    /// The file's contents are not UTF-8 text; the decoder's error tells where.
    InvalidText(core::str::Utf8Error),
    /// The file does not hold a configuration.
    Parse,
}

impl ConfigError {
    /// A sentence that describes the error; `None` for `InvalidText`, which the
    /// decoder's error describes.
    pub fn message(&self) -> (text: Option<&'static str>)
        ensures
            *self is ShortFileName ==> text == Some("Failed to create short file name"),
            *self is OpenFile ==> text == Some("Failed to open file"),
            *self is ReadFile ==> text == Some("Failed to read file"),
            *self is InvalidText ==> text is None,
            *self is Parse ==> text == Some("Failed to parse config"),
    {
        match self {
            ConfigError::ShortFileName => Some("Failed to create short file name"),
            ConfigError::OpenFile => Some("Failed to open file"),
            ConfigError::ReadFile => Some("Failed to read file"),
            ConfigError::InvalidText(_) => None,
            ConfigError::Parse => Some("Failed to parse config"),
        }
    }
}

/// Calls `core::str::from_utf8` and copies the text it accepts. Trusted: the
/// bytes are accepted exactly when they are valid UTF-8, and the text is their
/// decoding. Nothing is stated of the error's contents (where the invalid
/// sequence starts and how long it is).
#[verifier::external_body]
fn text_from_utf8(bytes: &[u8]) -> (text: Result<String, core::str::Utf8Error>)
    ensures
        text is Ok <==> valid_utf8(bytes@),
        text matches Ok(t) ==> t@ == decode_utf8(bytes@),
{
    match core::str::from_utf8(bytes) {
        Ok(text) => Ok(String::from(text)),
        Err(error) => Err(error),
    }
}

/// The name of the last configuration, from the first `bytes_read` bytes of the
/// buffer that the file `LAST_CONFIG_FILE_NAME` was read into.
pub fn decode_last_config(buffer: &[u8], bytes_read: usize) -> (name: Result<String, ConfigError>)
    requires
        bytes_read <= buffer@.len(),
    ensures
        name is Ok <==> valid_utf8(buffer@.subrange(0, bytes_read as int)),
        name matches Ok(n) ==> n@ == decode_utf8(buffer@.subrange(0, bytes_read as int)),
        name matches Err(e) ==> e is InvalidText,
{
    let read = &buffer[0..bytes_read];
    match text_from_utf8(read) {
        Ok(text) => Ok(text),
        Err(error) => Err(ConfigError::InvalidText(error)),
    }
}

/// Reverses a chord sequence in place.
fn reverse_chords(chords: &mut Vec<Vec<KeyboardCode>>)
    ensures
        final(chords)@ == old(chords)@.reverse(),
{
    let mut reversed: Vec<Vec<KeyboardCode>> = Vec::new();
    while chords.len() > 0
        invariant
            reversed@ + chords@.reverse() == old(chords)@.reverse(),
        decreases chords@.len(),
    {
        let ghost before = chords@;
        let chord = chords.pop().unwrap();
        reversed.push(chord);
        assert(reversed@ + chords@.reverse() =~= old(chords)@.reverse()) by {
            assert(before.reverse() =~= seq![chord] + chords@.reverse());
        }
    }
    assert(reversed@ =~= old(chords)@.reverse());
    *chords = reversed;
}

/// Chord sequences reversed.
pub open spec fn reversed_chords(chords: Seq<Seq<KeyboardCode>>) -> Seq<Seq<KeyboardCode>> {
    chords.reverse()
}

pub open spec fn button_reversed(b: ButtonModel) -> ButtonModel {
    ButtonModel { keystroke: reversed_chords(b.keystroke), ..b }
}

pub open spec fn menu_encoder_reversed(e: MenuEncoderModel) -> MenuEncoderModel {
    MenuEncoderModel { left: reversed_chords(e.left), right: reversed_chords(e.right), ..e }
}

pub open spec fn encoder_reversed(e: EncoderModel) -> EncoderModel {
    EncoderModel {
        left: reversed_chords(e.left),
        right: reversed_chords(e.right),
        push: reversed_chords(e.push),
        ..e
    }
}

/// The configuration with every chord sequence reversed and all else kept.
pub open spec fn config_reversed(m: MacroConfigModel) -> MacroConfigModel {
    MacroConfigModel {
        buttons: m.buttons.map_values(|b: ButtonModel| button_reversed(b)),
        menu_encoder: menu_encoder_reversed(m.menu_encoder),
        encoders: m.encoders.map_values(|e: EncoderModel| encoder_reversed(e)),
        ..m
    }
}

proof fn lemma_chords_view_reverse(chords: Seq<Vec<KeyboardCode>>)
    ensures
        chords_view(chords.reverse()) == chords_view(chords).reverse(),
{
    assert(chords_view(chords.reverse()) =~= chords_view(chords).reverse());
}

/// Reverses every chord sequence of a freshly read configuration, so that the
/// chord to type first can be popped off the end.
pub fn reverse_keystrokes(config: &mut MacroConfig)
    ensures
        final(config)@ == config_reversed(old(config)@),
{
    let ghost m = config@;
    assert(m.buttons.len() == 10 && m.encoders.len() == 2);
    assert(forall|j: int| 0 <= j < 10 ==> (#[trigger] config.buttons@[j])@ == m.buttons[j]);
    assert(forall|j: int| 0 <= j < 2 ==> (#[trigger] config.encoders@[j])@ == m.encoders[j]);
    let mut i: usize = 0;
    while i < 10
        invariant
            0 <= i <= 10,
            m.buttons.len() == 10,
            m.encoders.len() == 2,
            config@.name == m.name,
            config@.menu_encoder == m.menu_encoder,
            config@.encoders == m.encoders,
            config@.leds == m.leds,
            config.buttons@.len() == 10,
            forall|j: int| 0 <= j < i ==> (#[trigger] config.buttons@[j])@ == button_reversed(m.buttons[j]),
            forall|j: int| i <= j < 10 ==> (#[trigger] config.buttons@[j])@ == m.buttons[j],
        decreases 10 - i,
    {
        let ghost before = config.buttons@[i as int];
        assert(before@ == m.buttons[i as int]);
        proof {
            lemma_chords_view_reverse(before.keystroke@);
        }
        reverse_chords(&mut config.buttons[i].keystroke);
        assert(config.buttons@[i as int]@ =~= button_reversed(m.buttons[i as int]));
        i = i + 1;
    }
    proof {
        lemma_chords_view_reverse(config.menu_encoder.keystroke_left@);
        lemma_chords_view_reverse(config.menu_encoder.keystroke_right@);
    }
    reverse_chords(&mut config.menu_encoder.keystroke_left);
    reverse_chords(&mut config.menu_encoder.keystroke_right);
    let mut k: usize = 0;
    while k < 2
        invariant
            0 <= k <= 2,
            m.buttons.len() == 10,
            m.encoders.len() == 2,
            config@.name == m.name,
            config@.menu_encoder == menu_encoder_reversed(m.menu_encoder),
            config@.leds == m.leds,
            config.buttons@.len() == 10,
            config.encoders@.len() == 2,
            forall|j: int| 0 <= j < 10 ==> (#[trigger] config.buttons@[j])@ == button_reversed(m.buttons[j]),
            forall|j: int| 0 <= j < k ==> (#[trigger] config.encoders@[j])@ == encoder_reversed(m.encoders[j]),
            forall|j: int| k <= j < 2 ==> (#[trigger] config.encoders@[j])@ == m.encoders[j],
        decreases 2 - k,
    {
        let ghost before = config.encoders@[k as int];
        assert(before@ == m.encoders[k as int]);
        proof {
            lemma_chords_view_reverse(before.keystroke_left@);
            lemma_chords_view_reverse(before.keystroke_right@);
            lemma_chords_view_reverse(before.keystroke_push@);
        }
        reverse_chords(&mut config.encoders[k].keystroke_left);
        reverse_chords(&mut config.encoders[k].keystroke_right);
        reverse_chords(&mut config.encoders[k].keystroke_push);
        assert(config.encoders@[k as int]@ =~= encoder_reversed(m.encoders[k as int]));
        k = k + 1;
    }
    assert(config@.buttons =~= config_reversed(m).buttons);
    assert(config@.encoders =~= config_reversed(m).encoders);
    assert(config@ =~= config_reversed(m));
}


proof fn lemma_reverse_twice(chords: Seq<Seq<KeyboardCode>>)
    ensures
        chords.reverse().reverse() == chords,
{
    assert(chords.reverse().reverse() =~= chords);
}

/// Reversing the chord sequences of a configuration twice gives back the
/// configuration.
pub proof fn law_reverse_keystrokes_twice_restores(m: MacroConfigModel)
    ensures
        config_reversed(config_reversed(m)) == m,
{
    let twice = config_reversed(config_reversed(m));
    assert forall|j: int| 0 <= j < m.buttons.len() implies twice.buttons[j] == m.buttons[j] by {
        lemma_reverse_twice(m.buttons[j].keystroke);
        assert(twice.buttons[j] =~= m.buttons[j]);
    }
    assert forall|j: int| 0 <= j < m.encoders.len() implies twice.encoders[j] == m.encoders[j] by {
        lemma_reverse_twice(m.encoders[j].left);
        lemma_reverse_twice(m.encoders[j].right);
        lemma_reverse_twice(m.encoders[j].push);
        assert(twice.encoders[j] =~= m.encoders[j]);
    }
    lemma_reverse_twice(m.menu_encoder.left);
    lemma_reverse_twice(m.menu_encoder.right);
    assert(twice.menu_encoder =~= m.menu_encoder);
    assert(twice.buttons =~= m.buttons);
    assert(twice.encoders =~= m.encoders);
    assert(twice =~= m);
}

/// Loading reverses every binding of a configuration, field by field: each
/// button's keystroke, the menu encoder's left and right bindings, and each
/// plain encoder's left, right and push bindings; texts, icons, the name and
/// the LEDs stay as read. So the chord that a binding types next (its last) is
/// the first chord in the file.
pub proof fn law_loading_reverses_every_binding(m: MacroConfigModel)
    requires
        m.buttons.len() == 10,
        m.encoders.len() == 2,
    ensures
        config_reversed(m).name == m.name,
        config_reversed(m).leds == m.leds,
        config_reversed(m).buttons.len() == 10,
        config_reversed(m).encoders.len() == 2,
        forall|i: int|
            0 <= i < 10 ==> {
                &&& (#[trigger] config_reversed(m).buttons[i]).keystroke
                    == m.buttons[i].keystroke.reverse()
                &&& config_reversed(m).buttons[i].text == m.buttons[i].text
                &&& config_reversed(m).buttons[i].icon == m.buttons[i].icon
            },
        config_reversed(m).menu_encoder.left == m.menu_encoder.left.reverse(),
        config_reversed(m).menu_encoder.right == m.menu_encoder.right.reverse(),
        config_reversed(m).menu_encoder.text == m.menu_encoder.text,
        config_reversed(m).menu_encoder.icon == m.menu_encoder.icon,
        forall|k: int|
            0 <= k < 2 ==> {
                &&& (#[trigger] config_reversed(m).encoders[k]).left == m.encoders[k].left.reverse()
                &&& config_reversed(m).encoders[k].right == m.encoders[k].right.reverse()
                &&& config_reversed(m).encoders[k].push == m.encoders[k].push.reverse()
                &&& config_reversed(m).encoders[k].text == m.encoders[k].text
                &&& config_reversed(m).encoders[k].icon == m.encoders[k].icon
            },
        forall|k: int|
            0 <= k < 2 && m.encoders[k].push.len() > 0 ==> {
                let p = (#[trigger] config_reversed(m).encoders[k]).push;
                p[p.len() - 1] == m.encoders[k].push[0]
            },
        forall|i: int|
            0 <= i < 10 && m.buttons[i].keystroke.len() > 0 ==> {
                let ks = (#[trigger] config_reversed(m).buttons[i]).keystroke;
                ks[ks.len() - 1] == m.buttons[i].keystroke[0]
            },
{
}

/// The UTF-8 bytes of the extension `.cfg`.
pub open spec fn config_extension() -> Seq<u8> {
    seq![0x2Eu8, 0x63u8, 0x66u8, 0x67u8]
}

/// Whether a file name ends with the bytes `.cfg`.
pub open spec fn is_config_file_name(name: Seq<char>) -> bool {
    let bytes = encode_utf8(name);
    bytes.len() >= 4 && bytes.subrange(bytes.len() - 4, bytes.len() as int) == config_extension()
}

/// Whether a file on the card holds a configuration, judged by its name ending
/// with `.cfg`.
pub fn is_config_file(name: &str) -> (yes: bool)
    ensures
        yes == is_config_file_name(name@),
{
    let bytes = name.as_bytes();
    let n = bytes.len();
    if n < 4 {
        return false;
    }
    let yes = bytes[n - 4] == 0x2E && bytes[n - 3] == 0x63 && bytes[n - 2] == 0x66 && bytes[n - 1]
        == 0x67;
    proof {
        let tail = bytes@.subrange(n - 4, n as int);
        if yes {
            assert(tail =~= config_extension());
        } else {
            assert(tail != config_extension()) by {
                if tail == config_extension() {
                    assert(tail[0] == bytes@[n - 4]);
                    assert(tail[1] == bytes@[n - 3]);
                    assert(tail[2] == bytes@[n - 2]);
                    assert(tail[3] == bytes@[n - 1]);
                }
            }
        }
    }
    yes
}

/// The texts of a sequence of strings.
pub open spec fn string_views(strings: Seq<String>) -> Seq<Seq<char>> {
    strings.map_values(|s: String| s@)
}

/// The names among `names` that name configuration files, in their order.
pub open spec fn config_names(names: Seq<Seq<char>>) -> Seq<Seq<char>> {
    names.filter(|name: Seq<char>| is_config_file_name(name))
}

/// Whatever comes before it, a name ending in `.cfg` names a configuration
/// file, and one ending in the upper-case `.CFG` does not (the test is on bytes
/// and case-sensitive).
pub proof fn law_cfg_extension_decides(name: Seq<char>)
    ensures
        is_config_file_name(name + seq!['.', 'c', 'f', 'g']),
        !is_config_file_name(name + seq!['.', 'C', 'F', 'G']),
{
    let lower = seq!['.', 'c', 'f', 'g'];
    let upper = seq!['.', 'C', 'F', 'G'];
    crate::update_display::lemma_encode_utf8_concat(name, lower);
    crate::update_display::lemma_encode_utf8_concat(name, upper);
    assert(is_ascii_chars(lower));
    assert(is_ascii_chars(upper));
    is_ascii_chars_encode_utf8(lower);
    is_ascii_chars_encode_utf8(upper);
    let nb = encode_utf8(name);
    let lb = encode_utf8(name + lower);
    let ub = encode_utf8(name + upper);
    assert(lb.subrange(lb.len() - 4, lb.len() as int) =~= config_extension());
    assert(ub.subrange(ub.len() - 4, ub.len() as int)[1] == 0x43u8);
}

/// The file menu lists only configuration files, misses none of the names
/// given, and is no longer than the list of names.
pub proof fn law_menu_lists_exactly_the_config_files(names: Seq<Seq<char>>)
    ensures
        config_names(names).len() <= names.len(),
        forall|i: int|
            0 <= i < config_names(names).len() ==> is_config_file_name(
                #[trigger] config_names(names)[i],
            ),
        forall|i: int|
            0 <= i < names.len() && is_config_file_name(#[trigger] names[i]) ==> config_names(
                names,
            ).contains(names[i]),
{
    let pred = |name: Seq<char>| is_config_file_name(name);
    names.lemma_filter_len(pred);
    assert forall|i: int| 0 <= i < config_names(names).len() implies is_config_file_name(
        #[trigger] config_names(names)[i],
    ) by {
        names.lemma_filter_pred(pred, i);
    }
    assert forall|i: int| 0 <= i < names.len() && is_config_file_name(#[trigger] names[i]) implies config_names(
        names,
    ).contains(names[i]) by {
        names.lemma_filter_contains(pred, i);
    }
}

/// Picks the configuration files from the names of the files on the card,
/// keeping their order; these make up the file menu.
pub fn config_file_names(names: &Vec<String>) -> (files: Vec<String>)
    ensures
        string_views(files@) == config_names(string_views(names@)),
{
    let mut files: Vec<String> = Vec::new();
    let mut i: usize = 0;
    while i < names.len()
        invariant
            0 <= i <= names@.len(),
            string_views(files@) == config_names(string_views(names@).take(i as int)),
        decreases names@.len() - i,
    {
        let name = &names[i];
        let ghost all = string_views(names@);
        proof {
            reveal_with_fuel(Seq::filter, 1);
            assert(all.take(i + 1).drop_last() =~= all.take(i as int));
            assert(all.take(i + 1).last() == name@);
        }
        if is_config_file(name.as_str()) {
            let ghost before = files@;
            files.push(name.clone());
            assert(string_views(files@) =~= string_views(before).push(name@));
        }
        i = i + 1;
    }
    assert(string_views(names@).take(names@.len() as int) =~= string_views(names@));
    files
}

/// Text shown when the card holds no configuration file.
pub const NO_CONFIG_FOUND: &'static str = "No config found";

/// The configuration to load at start-up: the one named in `LAST_CONFIG_FILE_NAME`
/// if that could be read, else the first configuration file on the card, else
/// the text `NO_CONFIG_FOUND`.
pub fn initial_config_name(last: Option<String>, files: &Vec<String>) -> (name: String)
    ensures
        last matches Some(l) ==> name@ == l@,
        last is None && files@.len() > 0 ==> name@ == files@[0]@,
        last is None && files@.len() == 0 ==> name@ == NO_CONFIG_FOUND@,
{
    match last {
        Some(name) => name,
        None => {
            if files.len() > 0 {
                files[0].clone()
            } else {
                String::from_str(NO_CONFIG_FOUND)
            }
        },
    }
}

} // verus!
