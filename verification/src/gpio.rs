//! Pin-level GPIO driver over the 168-byte register window.
//!
//! The driver owns the register window and exposes the pin operations: mode
//! selection, level read, output set/clear strobes and pull-resistor
//! configuration.  Every pin number is validated against the window before
//! any register is touched.  Beside the window contents, the driver keeps a
//! ghost history of the register transactions it performed, in order; the
//! contracts state both the final window and the exact transactions, so that
//! ordering facts (such as a read always ending with the power strobe
//! cleared) are provable.
//!
//! An embedding that drives real device memory mirrors these transactions
//! onto the hardware window and performs the settle delays that the pull
//! sequence mandates between its stages.

pub mod registers;

use vstd::prelude::*;
use crate::gpio::registers::{
    FieldValue, GpioRegisters, GPIO_REG_COUNT, GPFSEL0, GPSET0, GPCLR0, GPLEV0, GPPUD,
    GPPUDCLK0, GPPUDCLK1, fsel_word, fsel_shift, pin_bank, pin_bit, set_word, clear_word,
    level_word, pin_fsel_field, pin_set_value, pin_clear_value, pin_lev_field,
};

verus! {

/// A pin's mode: input, output, or one of the six alternate functions.
#[derive(Clone, Copy, Debug, PartialEq, Eq, Structural)]
pub enum Mode {
    Input,
    Output,
    Alt0,
    Alt1,
    Alt2,
    Alt3,
    Alt4,
    Alt5,
}

impl Mode {
    /// The three-bit function-select code of the mode, as the peripheral
    /// documents it.
    pub open spec fn spec_code(self) -> u32 {
        match self {
            Mode::Input => 0u32,
            Mode::Output => 1u32,
            Mode::Alt0 => 4u32,
            Mode::Alt1 => 5u32,
            Mode::Alt2 => 6u32,
            Mode::Alt3 => 7u32,
            Mode::Alt4 => 3u32,
            Mode::Alt5 => 2u32,
        }
    }

    /// The mode a three-bit function-select code denotes.
    pub open spec fn spec_of_code(code: u32) -> Mode {
        if code == 1 {
            Mode::Output
        } else if code == 4 {
            Mode::Alt0
        } else if code == 5 {
            Mode::Alt1
        } else if code == 6 {
            Mode::Alt2
        } else if code == 7 {
            Mode::Alt3
        } else if code == 3 {
            Mode::Alt4
        } else if code == 2 {
            Mode::Alt5
        } else {
            Mode::Input
        }
    }

    /// The mode's function-select code.
    pub fn code(self) -> (r: u32)
        ensures
            r == self.spec_code(),
            r <= 7,
    {
        match self {
            Mode::Input => 0,
            Mode::Output => 1,
            Mode::Alt0 => 4,
            Mode::Alt1 => 5,
            Mode::Alt2 => 6,
            Mode::Alt3 => 7,
            Mode::Alt4 => 3,
            Mode::Alt5 => 2,
        }
    }

    /// The mode denoted by `code`.
    pub fn of_code(code: u32) -> (r: Mode)
        ensures
            r == Mode::spec_of_code(code),
    {
        if code == 1 {
            Mode::Output
        } else if code == 4 {
            Mode::Alt0
        } else if code == 5 {
            Mode::Alt1
        } else if code == 6 {
            Mode::Alt2
        } else if code == 7 {
            Mode::Alt3
        } else if code == 3 {
            Mode::Alt4
        } else if code == 2 {
            Mode::Alt5
        } else {
            Mode::Input
        }
    }

    /// The mode's code shifted into `pin`'s function-select field.
    pub fn as_field_value(self, pin: u8) -> (r: FieldValue)
        ensures
            r.mask == 7u32 << fsel_shift(pin),
            r.value == self.spec_code() << fsel_shift(pin),
    {
        let f = pin_fsel_field(pin);
        let code = self.code();
        let fv = f.val(code);
        proof {
            let sh = fsel_shift(pin);
            assert(sh < 30) by {
                assert(pin as int % 10 < 10);
            };
            assert((code << sh) & (7u32 << sh) == code << sh) by (bit_vector)
                requires
                    code <= 7u32,
                    sh < 30u32,
            ;
        }
        fv
    }
}

/// Law: decoding a mode's function-select code yields the mode again.
pub proof fn lemma_mode_code_roundtrip(mode: Mode)
    ensures
        Mode::spec_of_code(mode.spec_code()) == mode,
{
}

/// A pin's digital level.
#[derive(Clone, Copy, Debug, PartialEq, Eq, Structural)]
pub enum Level {
    Low,
    High,
}

impl Level {
    /// Whether the level is high.
    pub fn is_high(&self) -> (r: bool)
        ensures
            r == (*self == Level::High),
    {
        match self {
            Level::Low => false,
            Level::High => true,
        }
    }

    /// Whether the level is low.
    pub fn is_low(&self) -> (r: bool)
        ensures
            r == (*self == Level::Low),
    {
        match self {
            Level::Low => true,
            Level::High => false,
        }
    }

    /// The level's name, as a reader would print it.
    pub fn text(&self) -> (r: &'static str)
        ensures
            *self == Level::Low ==> r@ == "Low"@,
            *self == Level::High ==> r@ == "High"@,
    {
        match self {
            Level::Low => "Low",
            Level::High => "High",
        }
    }
}

/// A pull-resistor state.
#[derive(Clone, Copy, Debug, PartialEq, Eq, Structural)]
pub enum PullUpDown {
    Off,
    Down,
    Up,
}

impl PullUpDown {
    /// The two-bit code written to the pull control register.
    pub open spec fn spec_code(self) -> u32 {
        match self {
            PullUpDown::Off => 0u32,
            PullUpDown::Down => 1u32,
            PullUpDown::Up => 2u32,
        }
    }

    /// The pull state's control code.
    pub fn code(self) -> (r: u32)
        ensures
            r == self.spec_code(),
            r <= 2,
    {
        match self {
            PullUpDown::Off => 0,
            PullUpDown::Down => 1,
            PullUpDown::Up => 2,
        }
    }
}

/// Error returned when a pin number lies outside the register window.
#[derive(Clone, Copy, Debug, PartialEq, Eq, Structural)]
pub struct Error {
    pub pin: u8,
}

/// A pin is valid when it addresses one of the window's 55 pins.
pub open spec fn pin_valid(pin: u8) -> bool {
    pin <= 54
}

/// Check a pin number against the window, returning the offending pin in
/// the error.
pub fn validate_pin(pin: u8) -> (r: Result<(), Error>)
    ensures
        pin_valid(pin) ==> r is Ok,
        !pin_valid(pin) ==> r == Result::<(), Error>::Err(Error { pin }),
{
    if pin > 54 {
        return Err(Error { pin });
    }
    Ok(())
}

/// One register transaction of the driver's history: the word at `index`
/// became `(previous & !mask) | value`.  A direct write carries a full mask.
pub struct RegOp {
    pub index: int,
    pub mask: u32,
    pub value: u32,
}

/// Whether the strobe history leaves `pin` energized: the last strobe naming
/// the pin's bit in its bank's set or clear register was a set.  A strobe
/// write in which the pin's bit is zero does not touch the pin — the strobe
/// registers are write-only triggers, not latches.
pub open spec fn energized(log: Seq<RegOp>, pin: u8) -> bool
    decreases log.len(),
{
    if log.len() == 0 {
        false
    } else {
        let l = log.last();
        if l.index == set_word(pin) && l.value & (1u32 << pin_bit(pin)) != 0 {
            true
        } else if l.index == clear_word(pin) && l.value & (1u32 << pin_bit(pin)) != 0 {
            false
        } else {
            energized(log.drop_last(), pin)
        }
    }
}

/// Law: a transaction that does not strobe `pin`'s bit in the pin's set or
/// clear register leaves the pin's energized state unchanged.
pub proof fn lemma_energized_push_other(log: Seq<RegOp>, op: RegOp, pin: u8)
    requires
        !(op.index == set_word(pin) && op.value & (1u32 << pin_bit(pin)) != 0),
        !(op.index == clear_word(pin) && op.value & (1u32 << pin_bit(pin)) != 0),
    ensures
        energized(log.push(op), pin) == energized(log, pin),
{
    assert(log.push(op).drop_last() =~= log);
    assert(log.push(op).last() == op);
}

/// Law: appending transactions none of which touches `pin`'s set or clear
/// register leaves the pin's energized state unchanged.
pub proof fn lemma_energized_append_nonstrobe(log: Seq<RegOp>, ops: Seq<RegOp>, pin: u8)
    requires
        forall|i: int|
            0 <= i < ops.len() ==> ops[i].index != set_word(pin) && ops[i].index != clear_word(
                pin,
            ),
    ensures
        energized(log + ops, pin) == energized(log, pin),
    decreases ops.len(),
{
    if ops.len() == 0 {
        assert(log + ops =~= log);
    } else {
        assert((log + ops).drop_last() =~= log + ops.drop_last());
        assert((log + ops).last() == ops.last());
        lemma_energized_append_nonstrobe(log, ops.drop_last(), pin);
    }
}

/// The register word `w` with `pin`'s function-select field set to `mode`,
/// all other fields untouched.
pub open spec fn fsel_set(w: u32, pin: u8, mode: Mode) -> u32 {
    (w & !(7u32 << fsel_shift(pin))) | (mode.spec_code() << fsel_shift(pin))
}

/// The function-select code of `pin` stored in the word `w`.
pub open spec fn fsel_code_of(w: u32, pin: u8) -> u32 {
    (w >> fsel_shift(pin)) & 7
}

/// Whether `pin` reads high in the window `regs`.
pub open spec fn level_high(regs: Seq<u32>, pin: u8) -> bool {
    regs[level_word(pin)] & (1u32 << pin_bit(pin)) != 0
}

/// Law: writing a pin's mode and decoding the same function-select field
/// yields the written mode, for every valid pin, every mode and every prior
/// register word.
pub proof fn lemma_mode_roundtrip(w: u32, pin: u8, mode: Mode)
    requires
        pin_valid(pin),
    ensures
        Mode::spec_of_code(fsel_code_of(fsel_set(w, pin, mode), pin)) == mode,
{
    let sh = fsel_shift(pin);
    let code = mode.spec_code();
    assert(sh < 30) by {
        assert(pin as int % 10 < 10);
    };
    assert(code <= 7) by {
        lemma_mode_code_roundtrip(mode);
    };
    assert((((w & !(7u32 << sh)) | (code << sh)) >> sh) & 7 == code) by (bit_vector)
        requires
            sh < 30u32,
            code <= 7u32,
    ;
    lemma_mode_code_roundtrip(mode);
}

/// The clock mask, in bank `bank`'s pull clock register, of the batch's
/// pins that live in that bank.
pub open spec fn pudclk_mask(pins: Seq<u8>, bank: int) -> u32
    decreases pins.len(),
{
    if pins.len() == 0 {
        0u32
    } else {
        pudclk_mask(pins.drop_last(), bank) | (if pin_bank(pins.last()) == bank {
            1u32 << pin_bit(pins.last())
        } else {
            0u32
        })
    }
}

/// Index of the first invalid pin in the batch at or after `i`; the batch
/// length when every pin from `i` on is valid.
pub open spec fn first_invalid_from(pins: Seq<u8>, i: int) -> int
    decreases pins.len() - i,
{
    if i < 0 || i >= pins.len() {
        pins.len() as int
    } else if !pin_valid(pins[i]) {
        i
    } else {
        first_invalid_from(pins, i + 1)
    }
}

/// Index of the first invalid pin in the batch; the batch length when all
/// pins are valid.
pub open spec fn first_invalid(pins: Seq<u8>) -> int {
    first_invalid_from(pins, 0)
}

/// The six register transactions of a pull change on the batch `pins`:
/// write the control code, assert every pin's clock bit, release the clock
/// bits, and return the control register to off.  On hardware, a settle
/// delay of at least 150 peripheral cycles must pass after the control write
/// and again after the clock write; the embedding performs those delays when
/// it mirrors the sequence.
pub open spec fn pull_ops(pins: Seq<u8>, updown: PullUpDown) -> Seq<RegOp> {
    seq![
        RegOp { index: GPPUD as int, mask: 3u32, value: updown.spec_code() },
        RegOp { index: GPPUDCLK0 as int, mask: u32::MAX, value: pudclk_mask(pins, 0) },
        RegOp { index: GPPUDCLK1 as int, mask: u32::MAX, value: pudclk_mask(pins, 1) },
        RegOp { index: GPPUDCLK0 as int, mask: u32::MAX, value: 0u32 },
        RegOp { index: GPPUDCLK1 as int, mask: u32::MAX, value: 0u32 },
        RegOp { index: GPPUD as int, mask: 3u32, value: 0u32 },
    ]
}

/// The window after a completed pull change: the control register's two
/// pull bits and both clock registers end cleared, and nothing else moved.
pub open spec fn pull_applied(regs: Seq<u32>) -> Seq<u32> {
    regs.update(GPPUD as int, regs[GPPUD as int] & !3u32).update(GPPUDCLK0 as int, 0u32).update(
        GPPUDCLK1 as int,
        0u32,
    )
}

/// The GPIO driver: the register window plus the ghost history of the
/// transactions performed on it.
///
/// The driver performs no locking of its own.  When it is shared between a
/// sampling loop and a teardown path, every operation must be serialized by
/// the owner — one exclusive hold per operation, never kept across a sleep
/// or a network write, except for the settle wait inside a sensor reading,
/// which must keep the driver held while the probe stays energized.
pub struct Gpio {
    regs: GpioRegisters,
    ops: Ghost<Seq<RegOp>>,
}

impl View for Gpio {
    type V = Seq<u32>;

    /// The window as the driver last wrote it.
    closed spec fn view(&self) -> Seq<u32> {
        self.regs@
    }
}

impl Gpio {
    /// The history of register transactions, oldest first.
    pub closed spec fn log(&self) -> Seq<RegOp> {
        self.ops@
    }

    /// The window always holds exactly `GPIO_REG_COUNT` words.
    pub open spec fn wf(&self) -> bool {
        self@.len() == GPIO_REG_COUNT
    }

    /// A driver over a fresh window with every register zero.
    pub fn new() -> (r: Gpio)
        ensures
            r.wf(),
            forall|i: int| 0 <= i < GPIO_REG_COUNT ==> r@[i] == 0u32,
            r.log() == Seq::<RegOp>::empty(),
    {
        Gpio { regs: GpioRegisters::new(), ops: Ghost(Seq::empty()) }
    }

    /// A driver over a window captured with known contents, as when a test
    /// or an embedding seeds the simulated device state.
    pub fn from_words(words: Vec<u32>) -> (r: Gpio)
        requires
            words@.len() == GPIO_REG_COUNT,
        ensures
            r.wf(),
            r@ == words@,
            r.log() == Seq::<RegOp>::empty(),
    {
        Gpio { regs: GpioRegisters::from_words(words), ops: Ghost(Seq::empty()) }
    }

    /// Read one raw register word, for observation by tests or an embedding.
    pub fn read_word(&self, index: usize) -> (r: u32)
        requires
            self.wf(),
            index < GPIO_REG_COUNT,
        ensures
            r == self@[index as int],
    {
        self.regs.read_reg(index)
    }

    /// Select `pin`'s mode by a read-modify-write touching only the pin's
    /// three-bit function-select field.
    pub fn set_mode(&mut self, pin: u8, mode: Mode) -> (r: Result<(), Error>)
        requires
            old(self).wf(),
        ensures
            final(self).wf(),
            pin_valid(pin) ==> r is Ok,
            pin_valid(pin) ==> final(self)@ == old(self)@.update(
                fsel_word(pin),
                fsel_set(old(self)@[fsel_word(pin)], pin, mode),
            ),
            pin_valid(pin) ==> final(self).log() == old(self).log().push(
                RegOp {
                    index: fsel_word(pin),
                    mask: 7u32 << fsel_shift(pin),
                    value: mode.spec_code() << fsel_shift(pin),
                },
            ),
            !pin_valid(pin) ==> r == Result::<(), Error>::Err(Error { pin }),
            !pin_valid(pin) ==> final(self)@ == old(self)@ && final(self).log() == old(self).log(),
    {
        validate_pin(pin)?;
        let fv = mode.as_field_value(pin);
        let index = GPFSEL0 + (pin / 10) as usize;
        self.regs.modify_reg(index, fv);
        self.ops = Ghost(self.ops@.push(RegOp { index: index as int, mask: fv.mask, value: fv.value }));
        Ok(())
    }

    /// The mode currently selected for `pin` in its function-select field.
    pub fn read_mode(&self, pin: u8) -> (r: Result<Mode, Error>)
        requires
            self.wf(),
        ensures
            pin_valid(pin) ==> r == Result::<Mode, Error>::Ok(
                Mode::spec_of_code(fsel_code_of(self@[fsel_word(pin)], pin)),
            ),
            !pin_valid(pin) ==> r == Result::<Mode, Error>::Err(Error { pin }),
    {
        validate_pin(pin)?;
        let f = pin_fsel_field(pin);
        let index = GPFSEL0 + (pin / 10) as usize;
        let w = self.regs.read_reg(index);
        let code = (w >> f.shift) & 7;
        Ok(Mode::of_code(code))
    }

    /// The level of `pin` in its bank's level register.
    pub fn read(&self, pin: u8) -> (r: Result<Level, Error>)
        requires
            self.wf(),
        ensures
            pin_valid(pin) ==> r == Result::<Level, Error>::Ok(
                if level_high(self@, pin) {
                    Level::High
                } else {
                    Level::Low
                },
            ),
            !pin_valid(pin) ==> r == Result::<Level, Error>::Err(Error { pin }),
    {
        validate_pin(pin)?;
        let f = pin_lev_field(pin);
        let index = GPLEV0 + (pin / 32) as usize;
        let w = self.regs.read_reg(index);
        let set = (w & (f.mask << f.shift)) >> f.shift != 0;
        proof {
            let b = pin_bit(pin);
            assert(((w & (1u32 << b)) >> b != 0) == (w & (1u32 << b) != 0)) by (bit_vector)
                requires
                    b < 32u32,
            ;
        }
        if set {
            Ok(Level::High)
        } else {
            Ok(Level::Low)
        }
    }

    /// Strobe `pin`'s bit in its bank's output-set register: a direct write
    /// of the single bit, as the self-clearing strobe registers are driven.
    pub fn set(&mut self, pin: u8) -> (r: Result<(), Error>)
        requires
            old(self).wf(),
        ensures
            final(self).wf(),
            pin_valid(pin) ==> r is Ok,
            pin_valid(pin) ==> final(self)@ == old(self)@.update(
                set_word(pin),
                1u32 << pin_bit(pin),
            ),
            pin_valid(pin) ==> final(self).log() == old(self).log().push(
                RegOp { index: set_word(pin), mask: u32::MAX, value: 1u32 << pin_bit(pin) },
            ),
            pin_valid(pin) ==> energized(final(self).log(), pin),
            !pin_valid(pin) ==> r == Result::<(), Error>::Err(Error { pin }),
            !pin_valid(pin) ==> final(self)@ == old(self)@ && final(self).log() == old(self).log(),
    {
        validate_pin(pin)?;
        let fv = pin_set_value(pin);
        let index = GPSET0 + (pin / 32) as usize;
        self.regs.write_reg(index, fv.value);
        self.ops = Ghost(self.ops@.push(RegOp { index: index as int, mask: u32::MAX, value: fv.value }));
        proof {
            let b = pin_bit(pin);
            assert((1u32 << b) & (1u32 << b) != 0) by (bit_vector)
                requires
                    b < 32u32,
            ;
        }
        Ok(())
    }

    /// Strobe `pin`'s bit in its bank's output-clear register: a direct
    /// write of the single bit.
    pub fn clear(&mut self, pin: u8) -> (r: Result<(), Error>)
        requires
            old(self).wf(),
        ensures
            final(self).wf(),
            pin_valid(pin) ==> r is Ok,
            pin_valid(pin) ==> final(self)@ == old(self)@.update(
                clear_word(pin),
                1u32 << pin_bit(pin),
            ),
            pin_valid(pin) ==> final(self).log() == old(self).log().push(
                RegOp { index: clear_word(pin), mask: u32::MAX, value: 1u32 << pin_bit(pin) },
            ),
            pin_valid(pin) ==> !energized(final(self).log(), pin),
            !pin_valid(pin) ==> r == Result::<(), Error>::Err(Error { pin }),
            !pin_valid(pin) ==> final(self)@ == old(self)@ && final(self).log() == old(self).log(),
    {
        validate_pin(pin)?;
        let fv = pin_clear_value(pin);
        let index = GPCLR0 + (pin / 32) as usize;
        self.regs.write_reg(index, fv.value);
        self.ops = Ghost(self.ops@.push(RegOp { index: index as int, mask: u32::MAX, value: fv.value }));
        proof {
            let b = pin_bit(pin);
            assert((1u32 << b) & (1u32 << b) != 0) by (bit_vector)
                requires
                    b < 32u32,
            ;
            assert(set_word(pin) != clear_word(pin));
        }
        Ok(())
    }

    /// Configure the pull resistors of every pin in the batch to `updown`.
    ///
    /// Validation is atomic: if any pin in the batch is invalid, no register
    /// is touched and the first invalid pin is returned in the error.
    /// Otherwise the six-step sequence of `pull_ops` runs: control code,
    /// clock bits for the whole batch, clock release, control off.  On
    /// hardware a delay of at least 150 peripheral cycles (about a
    /// millisecond, conservatively) must separate the control write, the
    /// clock write and the release; the embedding performs those delays.
    ///
    /// The control register is shared by every pin of the device, so two
    /// overlapping pull sequences corrupt each other: callers must serialize
    /// all pull configuration process-wide.
    pub fn set_pullupdown(&mut self, pins: &[u8], updown: PullUpDown) -> (r: Result<(), Error>)
        requires
            old(self).wf(),
        ensures
            final(self).wf(),
            first_invalid(pins@) == pins@.len() ==> r is Ok,
            first_invalid(pins@) == pins@.len() ==> final(self)@ == pull_applied(old(self)@),
            first_invalid(pins@) == pins@.len() ==> final(self).log() == old(self).log()
                + pull_ops(pins@, updown),
            first_invalid(pins@) < pins@.len() ==> r == Result::<(), Error>::Err(
                Error { pin: pins@[first_invalid(pins@)] },
            ),
            first_invalid(pins@) < pins@.len() ==> final(self)@ == old(self)@ && final(self).log()
                == old(self).log(),
    {
        let n = pins.len();
        let mut i: usize = 0;
        while i < n
            invariant
                n == pins@.len(),
                i <= n,
                first_invalid_from(pins@, 0) == first_invalid_from(pins@, i as int),
                forall|j: int| 0 <= j < i ==> pin_valid(pins@[j]),
                self.wf(),
                self@ == old(self)@,
                self.log() == old(self).log(),
            decreases n - i,
        {
            let pin = pins[i];
            if pin > 54 {
                proof {
                    assert(first_invalid_from(pins@, i as int) == i);
                }
                return Err(Error { pin });
            }
            i += 1;
        }
        proof {
            assert(first_invalid_from(pins@, n as int) == pins@.len());
        }
        let mut mask0: u32 = 0;
        let mut mask1: u32 = 0;
        let mut k: usize = 0;
        while k < n
            invariant
                n == pins@.len(),
                k <= n,
                forall|j: int| 0 <= j < n ==> pin_valid(pins@[j]),
                mask0 == pudclk_mask(pins@.take(k as int), 0),
                mask1 == pudclk_mask(pins@.take(k as int), 1),
                self.wf(),
                self@ == old(self)@,
                self.log() == old(self).log(),
            decreases n - k,
        {
            let pin = pins[k];
            let ghost m0 = mask0;
            let ghost m1 = mask1;
            let b = (pin % 32) as u32;
            let bit = 1u32 << b;
            if pin / 32 == 0 {
                mask0 = mask0 | bit;
            } else {
                mask1 = mask1 | bit;
            }
            proof {
                assert(pins@.take(k as int + 1).drop_last() =~= pins@.take(k as int));
                assert(pins@.take(k as int + 1).last() == pins@[k as int]);
                assert(m0 | 0u32 == m0) by (bit_vector);
                assert(m1 | 0u32 == m1) by (bit_vector);
            }
            k += 1;
        }
        proof {
            assert(pins@.take(n as int) =~= pins@);
        }
        let code = updown.code();
        self.regs.modify_reg(GPPUD, FieldValue { mask: 3, value: code });
        self.regs.write_reg(GPPUDCLK0, mask0);
        self.regs.write_reg(GPPUDCLK1, mask1);
        self.regs.write_reg(GPPUDCLK0, 0);
        self.regs.write_reg(GPPUDCLK1, 0);
        self.regs.modify_reg(GPPUD, FieldValue { mask: 3, value: 0 });
        self.ops = Ghost(self.ops@ + pull_ops(pins@, updown));
        proof {
            let w = old(self)@[GPPUD as int];
            assert((((w & !3u32) | code) & !3u32) | 0u32 == w & !3u32) by (bit_vector)
                requires
                    code <= 2u32,
            ;
            assert(self@ =~= pull_applied(old(self)@));
        }
        Ok(())
    }
}

} // verus!
