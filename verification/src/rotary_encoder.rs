use vstd::prelude::*;

verus! {

/// A quadrature decoder fed with the levels of the encoder's two pins.
pub struct RotaryEncoder {
    /// Net steps counted so far.
    pub value: isize,
    pub invert_direction: bool,
    last_pin_a_value: bool,
    last_pin_b_value: bool,
}

/// Whether a reading of the pins counts as a step up, given the levels that the
/// decoder holds as the previous reading.
pub open spec fn counts_up(last_a: bool, last_b: bool, a: bool, b: bool) -> bool {
    ||| (last_a && !a && last_b && b)
    ||| (!last_a && !a && !last_b && b)
    ||| (!last_a && a && !last_b && !b)
    ||| (last_a && a && !last_b && b)
}

impl RotaryEncoder {
    /// The net count: the field `value`.
    pub closed spec fn count(&self) -> isize {
        self.value
    }

    /// The field `invert_direction`.
    pub closed spec fn inverted(&self) -> bool {
        self.invert_direction
    }

    /// The pin levels the decoder compares a new reading with: the private
    /// fields `last_pin_a_value` and `last_pin_b_value`.
    pub closed spec fn last_pins(&self) -> (bool, bool) {
        (self.last_pin_a_value, self.last_pin_b_value)
    }

    /// A decoder at zero whose previous reading is both pins low.
    pub fn new(invert_direction: bool) -> (encoder: Self)
        ensures
            encoder.count() == 0,
            encoder.inverted() == invert_direction,
            encoder.last_pins() == (false, false),
    {
        RotaryEncoder {
            value: 0,
            invert_direction,
            last_pin_a_value: false,
            last_pin_b_value: false,
        }
    }

    /// Counts one reading of the pins: one step up where the reading follows
    /// the previous one in the upward sequence, otherwise one step down.
    /// Returns the new count.
    pub fn update(&mut self, pin_a: bool, pin_b: bool) -> (value: isize)
        requires
            counts_up(old(self).last_pins().0, old(self).last_pins().1, pin_a, pin_b)
                ==> old(self).count() < isize::MAX,
            !counts_up(old(self).last_pins().0, old(self).last_pins().1, pin_a, pin_b)
                ==> old(self).count() > isize::MIN,
        ensures
            final(self).count() == old(self).count() + if counts_up(
                old(self).last_pins().0,
                old(self).last_pins().1,
                pin_a,
                pin_b,
            ) {
                1int
            } else {
                -1int
            },
            value == final(self).count(),
            final(self).inverted() == old(self).inverted(),
            final(self).last_pins() == old(self).last_pins(),
    {
        if (self.last_pin_a_value && !pin_a && self.last_pin_b_value && pin_b) || (
        !self.last_pin_a_value && !pin_a && !self.last_pin_b_value && pin_b) || (
        !self.last_pin_a_value && pin_a && !self.last_pin_b_value && !pin_b) || (
        self.last_pin_a_value && pin_a && !self.last_pin_b_value && pin_b) {
            self.value += 1;
        } else {
            self.value -= 1;
        }
        self.value
    }
}

/// The decoder never records a reading as its previous one, so a decoder made
/// by `new` judges every reading against both pins low: it counts up exactly
/// when the two pins differ.
pub proof fn law_fresh_decoder_counts_up_when_pins_differ(a: bool, b: bool)
    ensures
        counts_up(false, false, a, b) == (a != b),
{
}

} // verus!
