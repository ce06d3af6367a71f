use vstd::prelude::*;

use crate::containers::{
    button_after_sample, encoder_after_read, encoder_after_sample, sample_fits,
    some_button_changed, Encoder, Encoders, MacroPadButton, MacroPadButtons,
};
use crate::encoder::{turn_increment, turn_step, Direction};
use crate::model::{
    chords_view, ButtonModel, KeyboardCode, LedConfig, MacroConfig, MacroConfigModel,
};
use crate::read_config::reversed_chords;

verus! {

/// Milliseconds the input handler waits after a switch or button changed.
pub const SWITCH_SETTLE_MS: u32 = 25;

/// Microseconds the input handler waits while an encoder has unread turns.
pub const TURN_SETTLE_US: u32 = 100;

/// Keyboard ticks between two keyboard reports.
pub const KEYBOARD_KEY_CHECK_INTERVAL: usize = 50;

/// One sample of all inputs of the pad, taken by the input interrupt.
pub struct InputSample {
    /// Movement of the menu encoder; `None` where its pins could not be read.
    pub menu_turn: Option<Direction>,
    /// Whether the menu encoder's switch is down.
    pub menu_switch: bool,
    pub encoder1_turn: Option<Direction>,
    pub encoder1_switch: bool,
    pub encoder2_turn: Option<Direction>,
    pub encoder2_switch: bool,
    /// Whether each push button is down.
    pub pads: [bool; 10],
}

/// The waits the input handler performs after recording a sample.
pub struct Debounce {
    /// Wait `SWITCH_SETTLE_MS` milliseconds.
    pub switch_settle: bool,
    /// Wait `TURN_SETTLE_US` microseconds.
    pub turn_settle: bool,
}

/// Whether a sample can be recorded without overflowing any counter.
pub open spec fn sample_recordable(encoders: Encoders, sample: InputSample) -> bool {
    &&& sample_fits(encoders.menu_encoder, turn_step(sample.menu_turn))
    &&& sample_fits(encoders.encoder1, turn_step(sample.encoder1_turn))
    &&& sample_fits(encoders.encoder2, turn_step(sample.encoder2_turn))
}

/// Records one sample of all inputs and decides how long to let them settle:
/// after any change of a switch or button for `SWITCH_SETTLE_MS`, and while
/// any encoder has unread turns for `TURN_SETTLE_US`.
pub fn process_inputs(
    encoders: &mut Encoders,
    buttons: &mut MacroPadButtons,
    sample: &InputSample,
) -> (debounce: Debounce)
    requires
        sample_recordable(*old(encoders), *sample),
    ensures
        final(encoders).menu_encoder == encoder_after_sample(
            old(encoders).menu_encoder,
            turn_step(sample.menu_turn),
            sample.menu_switch,
        ),
        final(encoders).encoder1 == encoder_after_sample(
            old(encoders).encoder1,
            turn_step(sample.encoder1_turn),
            sample.encoder1_switch,
        ),
        final(encoders).encoder2 == encoder_after_sample(
            old(encoders).encoder2,
            turn_step(sample.encoder2_turn),
            sample.encoder2_switch,
        ),
        forall|i: int|
            0 <= i < 10 ==> #[trigger] final(buttons).pads@[i] == button_after_sample(
                old(buttons).pads@[i],
                sample.pads@[i],
            ),
        debounce.switch_settle == (final(encoders).menu_encoder.value_changed
            || final(encoders).encoder1.value_changed || final(encoders).encoder2.value_changed
            || some_button_changed(final(buttons).pads@)),
        debounce.turn_settle == (final(encoders).menu_encoder.delta != 0
            || final(encoders).encoder1.delta != 0 || final(encoders).encoder2.delta != 0),
{
    let menu_step = turn_increment(sample.menu_turn);
    let step1 = turn_increment(sample.encoder1_turn);
    let step2 = turn_increment(sample.encoder2_turn);
    encoders.menu_encoder.apply_sample(menu_step, sample.menu_switch);
    encoders.encoder1.apply_sample(step1, sample.encoder1_switch);
    encoders.encoder2.apply_sample(step2, sample.encoder2_switch);
    let mut i: usize = 0;
    while i < 10
        invariant
            0 <= i <= 10,
            forall|j: int|
                0 <= j < i ==> #[trigger] buttons.pads@[j] == button_after_sample(
                    old(buttons).pads@[j],
                    sample.pads@[j],
                ),
            forall|j: int| i <= j < 10 ==> #[trigger] buttons.pads@[j] == old(buttons).pads@[j],
        decreases 10 - i,
    {
        buttons.pads[i].update(sample.pads[i]);
        i = i + 1;
    }
    let switch_settle = encoders.menu_encoder.value_changed || encoders.encoder1.value_changed
        || encoders.encoder2.value_changed || buttons.any_button_changed();
    let turn_settle = encoders.menu_encoder.delta != 0 || encoders.encoder1.delta != 0
        || encoders.encoder2.delta != 0;
    Debounce { switch_settle, turn_settle }
}


/// What the display task draws in one frame.
pub enum DisplayAction {
    /// The file menu with the entry at `position` selected; with `open_selected`
    /// the selected file is to be loaded as the new configuration.
    Menu { position: usize, open_selected: bool },
    /// The LED pattern of `led_colors`.
    Leds,
}

/// The decision of the display task for one frame.
pub struct DisplayStep {
    /// Whether menu mode begins with the next frame.
    pub enter_menu: bool,
    pub action: DisplayAction,
}

/// Whether the menu encoder's switch was just pressed.
pub open spec fn menu_click(e: Encoder) -> bool {
    e.button && e.value_changed
}

/// The menu entry selected by the menu encoder's position, kept inside the list
/// of `file_count` files.
pub open spec fn menu_position(e: Encoder, file_count: usize) -> usize {
    if e.value >= file_count {
        (file_count - 1) as usize
    } else {
        e.value
    }
}

/// Decides one frame of the display task. A click of the menu encoder outside
/// menu mode requests menu mode from the next frame on. In menu mode the menu
/// encoder's position is clamped to the last file and selects a menu entry,
/// and a click opens it; otherwise the LEDs are lit.
pub fn display_step(menu_mode: bool, menu_encoder: &mut Encoder, file_count: usize) -> (step:
    DisplayStep)
    requires
        menu_mode ==> file_count > 0,
    ensures
        step.enter_menu == (!menu_mode && menu_click(*old(menu_encoder))),
        menu_mode ==> {
            &&& *final(menu_encoder) == (Encoder {
                value: menu_position(*old(menu_encoder), file_count),
                ..*old(menu_encoder)
            })
            &&& step.action == (DisplayAction::Menu {
                position: menu_position(*old(menu_encoder), file_count),
                open_selected: menu_click(*old(menu_encoder)),
            })
        },
        !menu_mode ==> *final(menu_encoder) == *old(menu_encoder) && step.action
            == DisplayAction::Leds,
{
    let click = menu_encoder.button && menu_encoder.value_changed;
    let enter_menu = !menu_mode && click;
    if menu_mode {
        let mut position = menu_encoder.value;
        if position >= file_count {
            position = file_count - 1;
            menu_encoder.value = position;
        }
        DisplayStep { enter_menu, action: DisplayAction::Menu { position, open_selected: click } }
    } else {
        DisplayStep { enter_menu, action: DisplayAction::Leds }
    }
}

/// What the display task does with the outcome of opening the selected menu
/// entry: a configuration that loaded replaces the current one and ends menu
/// mode, and its file is to be remembered as the last one (`true`); after a
/// failed load nothing changes.
pub fn apply_loaded_config(
    config: &mut MacroConfig,
    menu_mode: &mut bool,
    loaded: Option<MacroConfig>,
) -> (remember: bool)
    ensures
        remember == loaded is Some,
        loaded matches Some(c) ==> *final(config) == c && !*final(menu_mode),
        loaded is None ==> *final(config) == *old(config) && *final(menu_mode) == *old(menu_mode),
{
    match loaded {
        Some(new_config) => {
            *config = new_config;
            *menu_mode = false;
            true
        },
        None => false,
    }
}

/// The selected menu entry is always one of the files.
pub proof fn law_menu_selection_in_range(e: Encoder, file_count: usize)
    requires
        file_count > 0,
    ensures
        menu_position(e, file_count) < file_count,
        e.value < file_count ==> menu_position(e, file_count) == e.value,
{
}

/// Only a press of the menu switch is a click: a released switch, or one that
/// did not change at the last sample, never opens a file or enters menu mode.
pub proof fn law_only_a_press_is_a_click(e: Encoder)
    ensures
        !e.button ==> !menu_click(e),
        !e.value_changed ==> !menu_click(e),
        e.button && e.value_changed ==> menu_click(e),
{
}

/// Seen through the input handler: right after a sample that releases the
/// menu switch there is no click; a sample that presses a released switch is
/// a click; a sample that finds the switch still down is no new click.
pub proof fn law_click_follows_a_press(e: Encoder, increment: int)
    requires
        sample_fits(e, increment),
    ensures
        !menu_click(encoder_after_sample(e, increment, false)),
        !e.button ==> menu_click(encoder_after_sample(e, increment, true)),
        e.button ==> !menu_click(encoder_after_sample(e, increment, true)),
{
}

/// Colour of LED `i` outside menu mode: red rising and blue falling in steps of
/// 30 along the strip.
pub open spec fn led_color(i: int) -> LedConfig {
    LedConfig { r: (30 * (i + 1)) as u8, g: 0, b: (255 - 30 * (i + 1)) as u8 }
}

/// The LED pattern shown outside menu mode.
pub fn led_colors() -> (colors: [LedConfig; 8])
    ensures
        forall|i: int| 0 <= i < 8 ==> #[trigger] colors@[i] == led_color(i),
{
    let mut colors = [LedConfig { r: 0, g: 0, b: 0 }; 8];
    let mut i: usize = 0;
    while i < 8
        invariant
            0 <= i <= 8,
            forall|j: int| 0 <= j < i ==> #[trigger] colors@[j] == led_color(j),
        decreases 8 - i,
    {
        let step = 30u8 * (i as u8 + 1u8);
        colors[i] = LedConfig { r: step, g: 0, b: 255u8 - step };
        i = i + 1;
    }
    colors
}

/// Whether the keyboard task sends a report at this tick, and its tick counter
/// afterwards: a report goes out once the counter exceeds
/// `KEYBOARD_KEY_CHECK_INTERVAL`, which starts the count anew.
pub fn keyboard_tick_step(ticks: usize) -> (r: (bool, usize))
    ensures
        r.0 == (ticks > KEYBOARD_KEY_CHECK_INTERVAL),
        r.1 == if ticks > KEYBOARD_KEY_CHECK_INTERVAL {
            1
        } else {
            ticks + 1
        },
{
    if ticks > KEYBOARD_KEY_CHECK_INTERVAL {
        (true, 1)
    } else {
        (false, ticks + 1)
    }
}


/// The chord a key binding types next. Loaded configurations keep their chord
/// sequences reversed, so the chord to type first is the last one.
pub open spec fn next_chord(chords: Seq<Seq<KeyboardCode>>) -> Seq<KeyboardCode> {
    if chords.len() == 0 {
        Seq::empty()
    } else {
        chords.last()
    }
}

/// After a configuration is read (its chord sequences reversed), a binding
/// types its first chord first.
pub proof fn law_loaded_binding_types_first_chord(chords: Seq<Seq<KeyboardCode>>)
    requires
        chords.len() > 0,
    ensures
        next_chord(reversed_chords(chords)) == chords[0],
{
}

/// Keys typed for accumulated turns of an encoder: its left binding for turns
/// to the left, its right binding for turns to the right.
pub open spec fn turn_keys(
    delta: int,
    left: Seq<Seq<KeyboardCode>>,
    right: Seq<Seq<KeyboardCode>>,
) -> Seq<KeyboardCode> {
    if delta < 0 {
        next_chord(left)
    } else if delta > 0 {
        next_chord(right)
    } else {
        Seq::empty()
    }
}

/// Keys of the first `n` buttons that are held, in button order.
pub open spec fn pressed_keys(
    pads: Seq<MacroPadButton>,
    buttons: Seq<ButtonModel>,
    n: int,
) -> Seq<KeyboardCode>
    decreases n,
{
    if n <= 0 {
        Seq::empty()
    } else {
        pressed_keys(pads, buttons, n - 1) + if pads[n - 1].pressed {
            next_chord(buttons[n - 1].keystroke)
        } else {
            Seq::empty()
        }
    }
}

/// Keys of a push switch that is held.
pub open spec fn push_keys(held: bool, push: Seq<Seq<KeyboardCode>>) -> Seq<KeyboardCode> {
    if held {
        next_chord(push)
    } else {
        Seq::empty()
    }
}

/// The keys of one keyboard report. In menu mode only the "no event" code;
/// otherwise the held buttons in order, then the menu encoder's turns, then
/// the turns and switch of each plain encoder. The menu encoder's switch
/// navigates the menu and types nothing.
pub open spec fn report_keys(
    menu_mode: bool,
    pads: Seq<MacroPadButton>,
    encoders: Encoders,
    m: MacroConfigModel,
) -> Seq<KeyboardCode> {
    if menu_mode {
        seq![KeyboardCode::NoEventIndicated]
    } else {
        pressed_keys(pads, m.buttons, 10) + turn_keys(
            encoders.menu_encoder.delta as int,
            m.menu_encoder.left,
            m.menu_encoder.right,
        ) + turn_keys(encoders.encoder1.delta as int, m.encoders[0].left, m.encoders[0].right)
            + push_keys(encoders.encoder1.button, m.encoders[0].push) + turn_keys(
            encoders.encoder2.delta as int,
            m.encoders[1].left,
            m.encoders[1].right,
        ) + push_keys(encoders.encoder2.button, m.encoders[1].push)
    }
}

/// The chord that a binding stored in load order types next: its last stored
/// chord, or nothing for an empty binding.
pub open spec fn stored_last_chord(binding: Seq<Seq<KeyboardCode>>) -> Seq<KeyboardCode> {
    if binding.len() == 0 {
        Seq::empty()
    } else {
        binding[binding.len() - 1]
    }
}

/// The chord typed for accumulated turns `delta` of an encoder with the given
/// left and right bindings.
pub open spec fn stored_turn_chord(
    delta: int,
    left: Seq<Seq<KeyboardCode>>,
    right: Seq<Seq<KeyboardCode>>,
) -> Seq<KeyboardCode> {
    if delta < 0 {
        stored_last_chord(left)
    } else if delta > 0 {
        stored_last_chord(right)
    } else {
        Seq::empty()
    }
}

proof fn lemma_no_pad_pressed(pads: Seq<MacroPadButton>, buttons: Seq<ButtonModel>, n: int)
    requires
        forall|j: int| 0 <= j < n ==> !(#[trigger] pads[j]).pressed,
    ensures
        pressed_keys(pads, buttons, n) == Seq::<KeyboardCode>::empty(),
    decreases n,
{
    if n > 0 {
        lemma_no_pad_pressed(pads, buttons, n - 1);
        assert(pressed_keys(pads, buttons, n) =~= Seq::<KeyboardCode>::empty());
    }
}

proof fn lemma_one_pad_pressed(
    pads: Seq<MacroPadButton>,
    buttons: Seq<ButtonModel>,
    n: int,
    i: int,
)
    requires
        0 <= i < n,
        pads[i].pressed,
        forall|j: int| 0 <= j < n && j != i ==> !(#[trigger] pads[j]).pressed,
    ensures
        pressed_keys(pads, buttons, n) == stored_last_chord(buttons[i].keystroke),
    decreases n,
{
    if n - 1 == i {
        lemma_no_pad_pressed(pads, buttons, i);
        assert(pressed_keys(pads, buttons, n) =~= stored_last_chord(buttons[i].keystroke));
    } else {
        lemma_one_pad_pressed(pads, buttons, n - 1, i);
        assert(pressed_keys(pads, buttons, n) =~= stored_last_chord(buttons[i].keystroke));
    }
}

/// In menu mode a report holds only the "no event" code, whatever is held,
/// turned or configured.
pub proof fn law_menu_mode_reports_no_event(
    pads: Seq<MacroPadButton>,
    encoders: Encoders,
    m: MacroConfigModel,
)
    ensures
        report_keys(true, pads, encoders, m) == seq![KeyboardCode::NoEventIndicated],
{
}

/// Outside menu mode, with no button held, no turn unread and neither plain
/// encoder's switch down, the report is empty (the menu encoder's switch
/// types nothing).
pub proof fn law_idle_pad_reports_nothing(
    pads: Seq<MacroPadButton>,
    encoders: Encoders,
    m: MacroConfigModel,
)
    requires
        pads.len() == 10,
        forall|j: int| 0 <= j < 10 ==> !(#[trigger] pads[j]).pressed,
        encoders.menu_encoder.delta == 0,
        encoders.encoder1.delta == 0,
        encoders.encoder2.delta == 0,
        !encoders.encoder1.button,
        !encoders.encoder2.button,
    ensures
        report_keys(false, pads, encoders, m) == Seq::<KeyboardCode>::empty(),
{
    lemma_no_pad_pressed(pads, m.buttons, 10);
    assert(report_keys(false, pads, encoders, m) =~= Seq::<KeyboardCode>::empty());
}

/// A held button types its own binding: when button `i` is the only input,
/// the report is the chord that button `i`'s keystroke types next.
pub proof fn law_held_button_types_its_own_binding(
    pads: Seq<MacroPadButton>,
    encoders: Encoders,
    m: MacroConfigModel,
    i: int,
)
    requires
        0 <= i < 10,
        pads.len() == 10,
        pads[i].pressed,
        forall|j: int| 0 <= j < 10 && j != i ==> !(#[trigger] pads[j]).pressed,
        encoders.menu_encoder.delta == 0,
        encoders.encoder1.delta == 0,
        encoders.encoder2.delta == 0,
        !encoders.encoder1.button,
        !encoders.encoder2.button,
    ensures
        report_keys(false, pads, encoders, m) == stored_last_chord(m.buttons[i].keystroke),
{
    lemma_one_pad_pressed(pads, m.buttons, 10, i);
    assert(report_keys(false, pads, encoders, m) =~= stored_last_chord(m.buttons[i].keystroke));
}

/// A turned encoder types its own binding: when only one encoder has unread
/// turns and no button or plain encoder switch is down, the report is that
/// encoder's left chord for turns to the left and its right chord otherwise.
pub proof fn law_turned_encoder_types_its_own_binding(
    pads: Seq<MacroPadButton>,
    encoders: Encoders,
    m: MacroConfigModel,
)
    requires
        pads.len() == 10,
        forall|j: int| 0 <= j < 10 ==> !(#[trigger] pads[j]).pressed,
        !encoders.encoder1.button,
        !encoders.encoder2.button,
    ensures
        encoders.encoder1.delta == 0 && encoders.encoder2.delta == 0 ==> report_keys(
            false,
            pads,
            encoders,
            m,
        ) == stored_turn_chord(
            encoders.menu_encoder.delta as int,
            m.menu_encoder.left,
            m.menu_encoder.right,
        ),
        encoders.menu_encoder.delta == 0 && encoders.encoder2.delta == 0 ==> report_keys(
            false,
            pads,
            encoders,
            m,
        ) == stored_turn_chord(
            encoders.encoder1.delta as int,
            m.encoders[0].left,
            m.encoders[0].right,
        ),
        encoders.menu_encoder.delta == 0 && encoders.encoder1.delta == 0 ==> report_keys(
            false,
            pads,
            encoders,
            m,
        ) == stored_turn_chord(
            encoders.encoder2.delta as int,
            m.encoders[1].left,
            m.encoders[1].right,
        ),
{
    lemma_no_pad_pressed(pads, m.buttons, 10);
    let r = report_keys(false, pads, encoders, m);
    if encoders.encoder1.delta == 0 && encoders.encoder2.delta == 0 {
        assert(r =~= stored_turn_chord(
            encoders.menu_encoder.delta as int,
            m.menu_encoder.left,
            m.menu_encoder.right,
        ));
    }
    if encoders.menu_encoder.delta == 0 && encoders.encoder2.delta == 0 {
        assert(r =~= stored_turn_chord(
            encoders.encoder1.delta as int,
            m.encoders[0].left,
            m.encoders[0].right,
        ));
    }
    if encoders.menu_encoder.delta == 0 && encoders.encoder1.delta == 0 {
        assert(r =~= stored_turn_chord(
            encoders.encoder2.delta as int,
            m.encoders[1].left,
            m.encoders[1].right,
        ));
    }
}

/// Encoder 1's switch, held alone, types encoder 1's own push binding.
pub proof fn law_encoder1_switch_types_its_own_push(
    pads: Seq<MacroPadButton>,
    encoders: Encoders,
    m: MacroConfigModel,
)
    requires
        pads.len() == 10,
        forall|j: int| 0 <= j < 10 ==> !(#[trigger] pads[j]).pressed,
        encoders.menu_encoder.delta == 0,
        encoders.encoder1.delta == 0,
        encoders.encoder2.delta == 0,
        encoders.encoder1.button,
        !encoders.encoder2.button,
    ensures
        report_keys(false, pads, encoders, m) == stored_last_chord(m.encoders[0].push),
{
    lemma_no_pad_pressed(pads, m.buttons, 10);
    assert(report_keys(false, pads, encoders, m) =~= stored_last_chord(m.encoders[0].push));
}

/// Whenever encoder 2's switch is down outside menu mode, the report ends
/// with the chord of encoder 2's own push binding, whatever else is held or
/// turned and however the other elements are configured.
pub proof fn law_encoder2_switch_ends_report_with_its_own_push(
    pads: Seq<MacroPadButton>,
    encoders: Encoders,
    m: MacroConfigModel,
)
    requires
        encoders.encoder2.button,
    ensures
        ({
            let r = report_keys(false, pads, encoders, m);
            let c = stored_last_chord(m.encoders[1].push);
            r.len() >= c.len() && r.subrange(r.len() - c.len(), r.len() as int) == c
        }),
{
    let r = report_keys(false, pads, encoders, m);
    let c = stored_last_chord(m.encoders[1].push);
    let front = pressed_keys(pads, m.buttons, 10) + turn_keys(
        encoders.menu_encoder.delta as int,
        m.menu_encoder.left,
        m.menu_encoder.right,
    ) + turn_keys(encoders.encoder1.delta as int, m.encoders[0].left, m.encoders[0].right)
        + push_keys(encoders.encoder1.button, m.encoders[0].push) + turn_keys(
        encoders.encoder2.delta as int,
        m.encoders[1].left,
        m.encoders[1].right,
    );
    assert(next_chord(m.encoders[1].push) == c);
    assert(r == front + c);
    assert(r.subrange(r.len() - c.len(), r.len() as int) =~= c);
}

/// A turn recorded by the input handler on an encoder whose turns were all
/// read is typed by the next report, as the left binding for a turn to the left
/// and the right binding otherwise; a second report types no turn.
pub proof fn law_turn_is_typed_once(
    e: Encoder,
    increment: int,
    switch: bool,
    left: Seq<Seq<KeyboardCode>>,
    right: Seq<Seq<KeyboardCode>>,
)
    requires
        e.delta == 0,
        increment != 0,
        sample_fits(e, increment),
    ensures
        turn_keys(encoder_after_sample(e, increment, switch).delta as int, left, right) == if increment
            < 0 {
            next_chord(left)
        } else {
            next_chord(right)
        },
        turn_keys(
            encoder_after_read(encoder_after_sample(e, increment, switch)).delta as int,
            left,
            right,
        ) == Seq::<KeyboardCode>::empty(),
{
}

/// The encoders after a report: outside menu mode their turns are consumed.
pub open spec fn encoders_after_report(menu_mode: bool, encoders: Encoders) -> Encoders {
    if menu_mode {
        encoders
    } else {
        Encoders {
            menu_encoder: encoder_after_read(encoders.menu_encoder),
            encoder1: encoder_after_read(encoders.encoder1),
            encoder2: encoder_after_read(encoders.encoder2),
        }
    }
}

fn push_next_chord(keys: &mut Vec<KeyboardCode>, chords: &Vec<Vec<KeyboardCode>>)
    ensures
        final(keys)@ == old(keys)@ + next_chord(chords_view(chords@)),
{
    let n = chords.len();
    if n == 0 {
        assert(old(keys)@ + next_chord(chords_view(chords@)) =~= old(keys)@);
        return;
    }
    let chord = &chords[n - 1];
    assert(chord@ == chords_view(chords@)[n - 1]);
    let ghost start = keys@;
    let mut i: usize = 0;
    while i < chord.len()
        invariant
            0 <= i <= chord@.len(),
            keys@ == start + chord@.subrange(0, i as int),
        decreases chord@.len() - i,
    {
        keys.push(chord[i]);
        i = i + 1;
        assert(keys@ =~= start + chord@.subrange(0, i as int));
    }
    assert(chord@.subrange(0, i as int) =~= chord@);
}

fn push_turn_keys(
    keys: &mut Vec<KeyboardCode>,
    delta: isize,
    left: &Vec<Vec<KeyboardCode>>,
    right: &Vec<Vec<KeyboardCode>>,
)
    ensures
        final(keys)@ == old(keys)@ + turn_keys(
            delta as int,
            chords_view(left@),
            chords_view(right@),
        ),
{
    if delta < 0 {
        push_next_chord(keys, left);
    } else if delta > 0 {
        push_next_chord(keys, right);
    } else {
        assert(keys@ =~= old(keys)@ + turn_keys(
            delta as int,
            chords_view(left@),
            chords_view(right@),
        ));
    }
}

fn push_push_keys(keys: &mut Vec<KeyboardCode>, held: bool, push: &Vec<Vec<KeyboardCode>>)
    ensures
        final(keys)@ == old(keys)@ + push_keys(held, chords_view(push@)),
{
    if held {
        push_next_chord(keys, push);
    } else {
        assert(keys@ =~= old(keys)@ + push_keys(held, chords_view(push@)));
    }
}

/// Builds one keyboard report from the held buttons, the encoders and the
/// configuration, consuming the encoders' turns outside menu mode.
pub fn keyboard_report(
    menu_mode: bool,
    buttons: &MacroPadButtons,
    encoders: &mut Encoders,
    config: &MacroConfig,
) -> (keys: Vec<KeyboardCode>)
    ensures
        keys@ == report_keys(menu_mode, buttons.pads@, *old(encoders), config@),
        *final(encoders) == encoders_after_report(menu_mode, *old(encoders)),
{
    let mut keys: Vec<KeyboardCode> = Vec::new();
    if menu_mode {
        keys.push(KeyboardCode::NoEventIndicated);
        assert(keys@ =~= seq![KeyboardCode::NoEventIndicated]);
        return keys;
    }
    let ghost m = config@;
    let mut i: usize = 0;
    while i < 10
        invariant
            0 <= i <= 10,
            m == config@,
            keys@ == pressed_keys(buttons.pads@, m.buttons, i as int),
        decreases 10 - i,
    {
        if buttons.pads[i].pressed {
            assert(m.buttons[i as int] == config.buttons@[i as int]@);
            push_next_chord(&mut keys, &config.buttons[i].keystroke);
        } else {
            assert(keys@ =~= pressed_keys(buttons.pads@, m.buttons, i + 1));
        }
        i = i + 1;
    }
    let delta = encoders.menu_encoder.read_delta();
    push_turn_keys(
        &mut keys,
        delta,
        &config.menu_encoder.keystroke_left,
        &config.menu_encoder.keystroke_right,
    );
    assert(m.encoders[0] == config.encoders@[0]@);
    assert(m.encoders[1] == config.encoders@[1]@);
    let delta = encoders.encoder1.read_delta();
    push_turn_keys(
        &mut keys,
        delta,
        &config.encoders[0].keystroke_left,
        &config.encoders[0].keystroke_right,
    );
    push_push_keys(&mut keys, encoders.encoder1.button, &config.encoders[0].keystroke_push);
    let delta = encoders.encoder2.read_delta();
    push_turn_keys(
        &mut keys,
        delta,
        &config.encoders[1].keystroke_left,
        &config.encoders[1].keystroke_right,
    );
    push_push_keys(&mut keys, encoders.encoder2.button, &config.encoders[1].keystroke_push);
    keys
}

} // verus!
