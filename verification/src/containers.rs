use vstd::prelude::*;

verus! {

/// Bookkeeping of one rotary encoder with its push switch.
pub struct Encoder {
    /// Position counted in detents; never below zero.
    pub value: usize,
    /// Whether the switch changed state at the last sample.
    pub value_changed: bool,
    /// Detents turned since the last `read_delta`.
    pub delta: isize,
    /// Whether the switch is held down.
    pub button: bool,
}

impl Default for Encoder {
    fn default() -> (e: Self)
        ensures
            e.value == 0,
            !e.value_changed,
            e.delta == 0,
            !e.button,
    {
        Encoder { value: 0, value_changed: false, delta: 0, button: false }
    }
}

/// The encoder after its accumulated turns were consumed.
pub open spec fn encoder_after_read(e: Encoder) -> Encoder {
    Encoder { delta: 0, ..e }
}

impl Encoder {
    /// Returns the detents turned since the previous call and starts counting anew.
    pub fn read_delta(&mut self) -> (delta: isize)
        ensures
            delta == old(self).delta,
            *final(self) == encoder_after_read(*old(self)),
    {
        let delta = self.delta;
        self.delta = 0;
        delta
    }
}

/// The value of a `usize` reinterpreted as an `isize` (two's complement).
pub open spec fn as_signed(value: usize) -> int {
    if value <= isize::MAX {
        value as int
    } else {
        value - usize::MAX - 1
    }
}

/// Whether one more sample with `increment` detents can be recorded without
/// overflowing the position or the accumulated turns.
pub open spec fn sample_fits(e: Encoder, increment: int) -> bool {
    &&& isize::MIN <= as_signed(e.value) + increment <= isize::MAX
    &&& isize::MIN <= e.delta + increment <= isize::MAX
}

/// The encoder after a sample that turned it by `increment` detents and found its
/// switch down (`switch`) or up: the position moves but stops at zero, turns
/// accumulate, and a change of the switch is flagged.
pub open spec fn encoder_after_sample(e: Encoder, increment: int, switch: bool) -> Encoder {
    let moved = as_signed(e.value) + increment;
    Encoder {
        value: if moved < 0 {
            0
        } else {
            moved as usize
        },
        value_changed: e.button != switch,
        delta: (e.delta + increment) as isize,
        button: switch,
    }
}

impl Encoder {
    /// Records one sample of the encoder's pins and switch.
    pub fn apply_sample(&mut self, increment: isize, switch: bool)
        requires
            sample_fits(*old(self), increment as int),
        ensures
            *final(self) == encoder_after_sample(*old(self), increment as int, switch),
    {
        // two's complement reading of the position, as `self.value as isize`
        let signed: isize = if self.value <= isize::MAX as usize {
            self.value as isize
        } else {
            -((usize::MAX - self.value) as isize) - 1
        };
        let moved = signed + increment;
        self.value = if moved < 0 {
            0
        } else {
            moved as usize
        };
        self.value_changed = self.button != switch;
        self.delta = self.delta + increment;
        self.button = switch;
    }
}

/// Every change of the switch is flagged, a release as well as a press, and
/// the sample records the new level; a sample that finds the switch as it was
/// flags nothing.
pub proof fn law_switch_changes_are_flagged(e: Encoder, increment: int, switch: bool)
    ensures
        encoder_after_sample(e, increment, switch).button == switch,
        e.button && !switch ==> encoder_after_sample(e, increment, switch).value_changed,
        !e.button && switch ==> encoder_after_sample(e, increment, switch).value_changed,
        e.button == switch ==> !encoder_after_sample(e, increment, switch).value_changed,
{
}

/// A sample moves the position by its turn but never below zero, and adds the
/// turn to the unread turns.
pub proof fn law_sample_moves_position(e: Encoder, increment: int, switch: bool)
    requires
        sample_fits(e, increment),
        e.value <= isize::MAX,
    ensures
        encoder_after_sample(e, increment, switch).delta == e.delta + increment,
        e.value + increment >= 0 ==> encoder_after_sample(e, increment, switch).value == e.value
            + increment,
        e.value + increment < 0 ==> encoder_after_sample(e, increment, switch).value == 0,
{
}

/// Reading the accumulated turns twice in a row yields nothing the second time,
/// and the second read leaves the encoder as the first one did.
pub proof fn law_read_delta_consumes(e: Encoder)
    ensures
        encoder_after_read(e).delta == 0,
        encoder_after_read(encoder_after_read(e)) == encoder_after_read(e),
{
}


/// The three encoders of the pad.
pub struct Encoders {
    pub menu_encoder: Encoder,
    pub encoder1: Encoder,
    pub encoder2: Encoder,
}

impl Default for Encoders {
    fn default() -> (e: Self)
        ensures
            e.menu_encoder == (Encoder { value: 0, value_changed: false, delta: 0, button: false }),
            e.encoder1 == (Encoder { value: 0, value_changed: false, delta: 0, button: false }),
            e.encoder2 == (Encoder { value: 0, value_changed: false, delta: 0, button: false }),
    {
        Encoders {
            menu_encoder: Encoder::default(),
            encoder1: Encoder::default(),
            encoder2: Encoder::default(),
        }
    }
}

/// Debounced state of one push button.
#[derive(Clone, Copy)]
pub struct MacroPadButton {
    /// Whether the button is held down.
    pub pressed: bool,
    /// Whether the last sample changed `pressed`.
    pub pressed_changed: bool,
}

impl Default for MacroPadButton {
    fn default() -> (b: Self)
        ensures
            !b.pressed,
            !b.pressed_changed,
    {
        MacroPadButton { pressed: false, pressed_changed: false }
    }
}

/// The button after a sample that reads `new_pressed`.
pub open spec fn button_after_sample(b: MacroPadButton, new_pressed: bool) -> MacroPadButton {
    MacroPadButton { pressed: new_pressed, pressed_changed: b.pressed != new_pressed }
}

impl MacroPadButton {
    /// Records a new sample of the button.
    pub fn update(&mut self, new_pressed: bool)
        ensures
            *final(self) == button_after_sample(*old(self), new_pressed),
    {
        if self.pressed != new_pressed {
            self.pressed_changed = true;
            self.pressed = new_pressed;
        } else {
            self.pressed_changed = false;
        }
    }
}

/// A button sampled twice with the same reading holds that reading and reports
/// no change after the second sample.
pub proof fn law_repeated_sample_is_no_change(b: MacroPadButton, reading: bool)
    ensures
        button_after_sample(button_after_sample(b, reading), reading) == (MacroPadButton {
            pressed: reading,
            pressed_changed: false,
        }),
{
}

/// A sample records the button's level and flags exactly the changes: a press
/// and a release are flagged, a sample at the old level is not.
pub proof fn law_button_changes_are_flagged(b: MacroPadButton, reading: bool)
    ensures
        button_after_sample(b, reading).pressed == reading,
        b.pressed && !reading ==> button_after_sample(b, reading).pressed_changed,
        !b.pressed && reading ==> button_after_sample(b, reading).pressed_changed,
        b.pressed == reading ==> !button_after_sample(b, reading).pressed_changed,
{
}

/// The ten push buttons of the pad.
pub struct MacroPadButtons {
    pub pads: [MacroPadButton; 10],
}

impl Default for MacroPadButtons {
    fn default() -> (b: Self)
        ensures
            forall|i: int| 0 <= i < 10 ==> !(#[trigger] b.pads@[i]).pressed && !b.pads@[i].pressed_changed,
    {
        MacroPadButtons { pads: [MacroPadButton::default(); 10] }
    }
}

/// Whether some button changed at its last sample.
pub open spec fn some_button_changed(pads: Seq<MacroPadButton>) -> bool {
    exists|i: int| 0 <= i < pads.len() && (#[trigger] pads[i]).pressed_changed
}

impl MacroPadButtons {
    /// Whether any of the buttons changed at its last sample.
    pub fn any_button_changed(&self) -> (changed: bool)
        ensures
            changed == some_button_changed(self.pads@),
    {
        let mut i: usize = 0;
        while i < 10
            invariant
                0 <= i <= 10,
                forall|j: int| 0 <= j < i ==> !(#[trigger] self.pads@[j]).pressed_changed,
            decreases 10 - i,
        {
            if self.pads[i].pressed_changed {
                return true;
            }
            i = i + 1;
        }
        false
    }
}

} // verus!
