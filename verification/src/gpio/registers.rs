//! Layout of the GPIO register window and the pure pin-to-field arithmetic.
//!
//! The peripheral exposes forty-two 32-bit registers in one 168-byte window.
//! Six function-select registers pack ten pins of three bits each; the set,
//! clear, level and pull-clock registers hold one bit per pin in two banks
//! (pins 0 to 31 and pins 32 to 54).  Everything in this module is pure
//! arithmetic on word indices, masks and shifts; the driver in the parent
//! module applies it to the window.

use vstd::prelude::*;

verus! {

/// Size in bytes of the GPIO register window.
pub const GPIO_MEM_SIZE: usize = 168;

/// Number of 32-bit registers in the window.
pub const GPIO_REG_COUNT: usize = 42;

/// Word index of the first function-select register.
pub const GPFSEL0: usize = 0;

/// Word index of the output-set strobe register for pins 0 to 31.
pub const GPSET0: usize = 7;

/// Word index of the output-set strobe register for pins 32 to 54.
pub const GPSET1: usize = 8;

/// Word index of the output-clear strobe register for pins 0 to 31.
pub const GPCLR0: usize = 10;

/// Word index of the output-clear strobe register for pins 32 to 54.
pub const GPCLR1: usize = 11;

/// Word index of the level register for pins 0 to 31.
pub const GPLEV0: usize = 13;

/// Word index of the level register for pins 32 to 54.
pub const GPLEV1: usize = 14;

/// Word index of the shared pull-up/down control register.
pub const GPPUD: usize = 37;

/// Word index of the pull clock register for pins 0 to 31.
pub const GPPUDCLK0: usize = 38;

/// Word index of the pull clock register for pins 32 to 54.
pub const GPPUDCLK1: usize = 39;

/// Word index of the function-select register holding `pin`'s field.
pub open spec fn fsel_word(pin: u8) -> int {
    GPFSEL0 + pin as int / 10
}

/// Bit position of `pin`'s three-bit function-select field in its register.
pub open spec fn fsel_shift(pin: u8) -> u32 {
    ((pin as int % 10) * 3) as u32
}

/// Which of the two banks of one-bit-per-pin registers holds `pin`.
pub open spec fn pin_bank(pin: u8) -> int {
    pin as int / 32
}

/// Bit position of `pin` inside its bank's register.
pub open spec fn pin_bit(pin: u8) -> u32 {
    (pin as int % 32) as u32
}

/// Word index of the output-set register of `pin`'s bank.
pub open spec fn set_word(pin: u8) -> int {
    GPSET0 + pin_bank(pin)
}

/// Word index of the output-clear register of `pin`'s bank.
pub open spec fn clear_word(pin: u8) -> int {
    GPCLR0 + pin_bank(pin)
}

/// Word index of the level register of `pin`'s bank.
pub open spec fn level_word(pin: u8) -> int {
    GPLEV0 + pin_bank(pin)
}

/// Word index of the pull clock register of `pin`'s bank.
pub open spec fn pudclk_word(pin: u8) -> int {
    GPPUDCLK0 + pin_bank(pin)
}

/// A bit field of one 32-bit register: `mask` ones at bit zero, to be placed
/// at bit `shift`.
#[derive(Clone, Copy, Debug, PartialEq, Eq, Structural)]
pub struct Field {
    pub mask: u32,
    pub shift: u32,
}

/// A field with a value, both already shifted into place: applied to a
/// register it sets the masked bits to `value` and leaves the rest alone.
#[derive(Clone, Copy, Debug, PartialEq, Eq, Structural)]
pub struct FieldValue {
    pub mask: u32,
    pub value: u32,
}

impl Field {
    /// A field must sit inside the 32-bit register.
    pub open spec fn wf(self) -> bool {
        self.shift < 32
    }

    /// Place `v` into the field, shifting mask and value into position.
    pub fn val(self, v: u32) -> (r: FieldValue)
        requires
            self.wf(),
        ensures
            r.mask == self.mask << self.shift,
            r.value == (v << self.shift) & (self.mask << self.shift),
    {
        FieldValue { mask: self.mask << self.shift, value: (v << self.shift) & (self.mask << self.shift) }
    }
}

/// The three-bit function-select field of `pin` inside its register.
pub fn pin_fsel_field(pin: u8) -> (r: Field)
    ensures
        r.mask == 7u32,
        r.shift == fsel_shift(pin),
        r.wf(),
{
    Field { mask: 7, shift: ((pin % 10) as u32) * 3 }
}

/// The one-bit strobe that sets `pin` in its output-set register.
pub fn pin_set_value(pin: u8) -> (r: FieldValue)
    ensures
        r.mask == 1u32 << pin_bit(pin),
        r.value == 1u32 << pin_bit(pin),
{
    let b = (pin % 32) as u32;
    FieldValue { mask: 1u32 << b, value: 1u32 << b }
}

/// The one-bit strobe that clears `pin` in its output-clear register.
pub fn pin_clear_value(pin: u8) -> (r: FieldValue)
    ensures
        r.mask == 1u32 << pin_bit(pin),
        r.value == 1u32 << pin_bit(pin),
{
    let b = (pin % 32) as u32;
    FieldValue { mask: 1u32 << b, value: 1u32 << b }
}

/// The one-bit field at which `pin`'s level is read in its level register.
pub fn pin_lev_field(pin: u8) -> (r: Field)
    ensures
        r.mask == 1u32,
        r.shift == pin_bit(pin),
        r.wf(),
{
    Field { mask: 1, shift: (pin % 32) as u32 }
}

/// The one-bit strobe that clocks a pull change into `pin`.
pub fn pin_pudclk_value(pin: u8) -> (r: FieldValue)
    ensures
        r.mask == 1u32 << pin_bit(pin),
        r.value == 1u32 << pin_bit(pin),
{
    let b = (pin % 32) as u32;
    FieldValue { mask: 1u32 << b, value: 1u32 << b }
}

/// The register window: a bounds-checked array of the forty-two words,
/// addressed by word index only.  No access path bypasses the index check.
pub struct GpioRegisters {
    words: Vec<u32>,
}

impl View for GpioRegisters {
    type V = Seq<u32>;

    closed spec fn view(&self) -> Seq<u32> {
        self.words@
    }
}

impl GpioRegisters {
    /// The window holds exactly `GPIO_REG_COUNT` words.
    pub open spec fn wf(&self) -> bool {
        self@.len() == GPIO_REG_COUNT
    }

    /// A window with every register zero, the peripheral's reset state.
    pub fn new() -> (r: GpioRegisters)
        ensures
            r.wf(),
            forall|i: int| 0 <= i < GPIO_REG_COUNT ==> r@[i] == 0u32,
    {
        GpioRegisters { words: vec![0u32; GPIO_REG_COUNT] }
    }

    /// A window over words captured elsewhere, as when a simulated device
    /// state is seeded.
    pub fn from_words(words: Vec<u32>) -> (r: GpioRegisters)
        requires
            words@.len() == GPIO_REG_COUNT,
        ensures
            r.wf(),
            r@ == words@,
    {
        GpioRegisters { words }
    }

    /// Read one register.
    pub fn read_reg(&self, index: usize) -> (r: u32)
        requires
            self.wf(),
            index < GPIO_REG_COUNT,
        ensures
            r == self@[index as int],
    {
        self.words[index]
    }

    /// Overwrite one register.
    pub fn write_reg(&mut self, index: usize, value: u32)
        requires
            old(self).wf(),
            index < GPIO_REG_COUNT,
        ensures
            final(self).wf(),
            final(self)@ == old(self)@.update(index as int, value),
    {
        self.words[index] = value;
    }

    /// Read-modify-write of one field of one register: bits outside the
    /// field's mask are untouched.
    pub fn modify_reg(&mut self, index: usize, fv: FieldValue)
        requires
            old(self).wf(),
            index < GPIO_REG_COUNT,
        ensures
            final(self).wf(),
            final(self)@ == old(self)@.update(
                index as int,
                (old(self)@[index as int] & !fv.mask) | fv.value,
            ),
    {
        let w = self.words[index];
        self.words[index] = (w & !fv.mask) | fv.value;
    }
}

/// Law: the bank/bit resolution `pin -> (pin / 32, pin % 32)` is injective
/// over the valid pins — no two pins alias the same bit of the same bank.
pub proof fn lemma_pin_bit_resolution_injective(p1: u8, p2: u8)
    requires
        p1 <= 54,
        p2 <= 54,
        pin_bank(p1) == pin_bank(p2),
        pin_bit(p1) == pin_bit(p2),
    ensures
        p1 == p2,
{
    vstd::arithmetic::div_mod::lemma_fundamental_div_mod(p1 as int, 32);
    vstd::arithmetic::div_mod::lemma_fundamental_div_mod(p2 as int, 32);
}

/// Law: the function-select resolution `pin -> (pin / 10, (pin % 10) * 3)`
/// is injective over the valid pins — no two pins alias the same
/// function-select field.
pub proof fn lemma_fsel_resolution_injective(p1: u8, p2: u8)
    requires
        p1 <= 54,
        p2 <= 54,
        fsel_word(p1) == fsel_word(p2),
        fsel_shift(p1) == fsel_shift(p2),
    ensures
        p1 == p2,
{
    vstd::arithmetic::div_mod::lemma_fundamental_div_mod(p1 as int, 10);
    vstd::arithmetic::div_mod::lemma_fundamental_div_mod(p2 as int, 10);
}

} // verus!
