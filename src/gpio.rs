//! General purpose input / output: typestate pin handles.
//!
//! A pin handle carries its mode in its type. A mode change consumes the
//! handle, records the register accesses that put the hardware into the new
//! mode, and hands back a handle of the new type for the same pin.
use core::marker::PhantomData;
use vstd::prelude::*;
use crate::regs::{
    apply_op, apply_ops, bsrr_effect, field, lemma_field1, lemma_field2, lemma_field4, modify, write_word, Access, GpioReg, Port, RccReg, RegOp,
    Register, RegisterFile,
};

verus! {

/// Alternate function 0 (type state)
pub struct AF0;

/// Alternate function 1 (type state)
pub struct AF1;

/// Alternate function 2 (type state)
pub struct AF2;

/// Alternate function 3 (type state)
pub struct AF3;

/// Alternate function 4 (type state)
pub struct AF4;

/// Alternate function 5 (type state)
pub struct AF5;

/// Alternate function 6 (type state)
pub struct AF6;

/// Alternate function 7 (type state)
pub struct AF7;

/// Alternate function mode (type state)
pub struct Alternate<MODE> {
    _mode: PhantomData<MODE>,
}

/// Input mode (type state)
pub struct Input<MODE> {
    _mode: PhantomData<MODE>,
}

/// Floating input (type state)
pub struct Floating;

/// Pulled down input (type state)
pub struct PullDown;

/// Pulled up input (type state)
pub struct PullUp;

/// Open drain input or output (type state)
pub struct OpenDrain;

/// Output mode (type state)
pub struct Output<MODE> {
    _mode: PhantomData<MODE>,
}

/// Push pull output (type state)
pub struct PushPull;

/// The physical identity of a pin: its port and its bit index in that port.
#[derive(Clone, Copy, PartialEq, Eq, Structural, Debug)]
pub struct PinId {
    pub port: Port,
    pub index: u8,
}

/// Mode-select field value of an input pin.
pub const MODE_INPUT: u32 = 0b00;

/// Mode-select field value of a general purpose output pin.
pub const MODE_OUTPUT: u32 = 0b01;

/// Mode-select field value of an alternate function pin.
pub const MODE_ALTERNATE: u32 = 0b10;

/// Output speed field value: high speed, for quick rise and fall times.
pub const SPEED_HIGH: u32 = 0b11;

/// Pull field value: no pull resistor.
pub const PULL_NONE: u32 = 0b00;

/// Pull field value: pull-up resistor.
pub const PULL_UP: u32 = 0b01;

/// Pull field value: pull-down resistor.
pub const PULL_DOWN: u32 = 0b10;

/// A read-modify-write of the two-bit field of the pin in `reg`.
pub open spec fn field2_op(id: PinId, reg: GpioReg, v: u32) -> RegOp {
    RegOp {
        reg: Register::Gpio(id.port, reg),
        access: Access::Modify {
            clear: 3u32 << ((2 * id.index) as u32),
            set: v << ((2 * id.index) as u32),
        },
    }
}

/// A read-modify-write of the pin's bit in `reg`, setting it or clearing it.
pub open spec fn bit_op(id: PinId, reg: GpioReg, on: bool) -> RegOp {
    RegOp {
        reg: Register::Gpio(id.port, reg),
        access: Access::Modify {
            clear: 1u32 << (id.index as u32),
            set: if on {
                1u32 << (id.index as u32)
            } else {
                0
            },
        },
    }
}

/// A read-modify-write of the pin's four-bit alternate function field: pins
/// 0 to 7 in the low register, pins 8 to 15 in the high one.
pub open spec fn af_op(id: PinId, af: u32) -> RegOp {
    let (reg, slot) = if id.index < 8 {
        (GpioReg::Afrl, id.index as int)
    } else {
        (GpioReg::Afrh, id.index - 8)
    };
    RegOp {
        reg: Register::Gpio(id.port, reg),
        access: Access::Modify {
            clear: 15u32 << ((4 * slot) as u32),
            set: af << ((4 * slot) as u32),
        },
    }
}

/// The accesses that make a pin an input with the given pull.
pub open spec fn input_ops(id: PinId, pull: u32) -> Seq<RegOp> {
    seq![field2_op(id, GpioReg::Pupdr, pull), field2_op(id, GpioReg::Moder, MODE_INPUT)]
}

/// The accesses that make a pin an output, open drain or push pull.
pub open spec fn output_ops(id: PinId, open_drain: bool) -> Seq<RegOp> {
    seq![
        field2_op(id, GpioReg::Pupdr, PULL_NONE),
        bit_op(id, GpioReg::Otyper, open_drain),
        field2_op(id, GpioReg::Moder, MODE_OUTPUT),
    ]
}

/// The accesses of the push pull output transition that also sets the pin's
/// output speed field to high speed.
pub open spec fn output_hs_ops(id: PinId) -> Seq<RegOp> {
    seq![
        field2_op(id, GpioReg::Pupdr, PULL_NONE),
        bit_op(id, GpioReg::Otyper, false),
        field2_op(id, GpioReg::Ospeedr, SPEED_HIGH),
        field2_op(id, GpioReg::Moder, MODE_OUTPUT),
    ]
}

/// The accesses that give a pin alternate function `af`.
pub open spec fn alternate_ops(id: PinId, af: u32) -> Seq<RegOp> {
    seq![af_op(id, af), field2_op(id, GpioReg::Moder, MODE_ALTERNATE)]
}

/// The single write to the set/reset register that drives the pin high.
pub open spec fn set_high_op(id: PinId) -> RegOp {
    RegOp {
        reg: Register::Gpio(id.port, GpioReg::Bsrr),
        access: Access::Write(1u32 << (id.index as u32)),
    }
}

/// The single write to the set/reset register that drives the pin low.
pub open spec fn set_low_op(id: PinId) -> RegOp {
    RegOp {
        reg: Register::Gpio(id.port, GpioReg::Bsrr),
        access: Access::Write(1u32 << ((id.index + 16) as u32)),
    }
}

/// Bit `i` of `word`.
pub open spec fn bit(word: u32, i: u8) -> bool {
    (word >> (i as u32)) & 1 == 1
}

fn field2(id: PinId, reg: GpioReg, v: u32) -> (r: RegOp)
    requires
        id.index < 16,
        v < 4,
    ensures
        r == field2_op(id, reg, v),
{
    let off: u32 = 2 * (id.index as u32);
    modify(Register::Gpio(id.port, reg), 3u32 << off, v << off)
}

fn bit_access(id: PinId, reg: GpioReg, on: bool) -> (r: RegOp)
    requires
        id.index < 16,
    ensures
        r == bit_op(id, reg, on),
{
    let mask: u32 = 1u32 << (id.index as u32);
    modify(Register::Gpio(id.port, reg), mask, if on { mask } else { 0 })
}

fn af_access(id: PinId, af: u32) -> (r: RegOp)
    requires
        id.index < 16,
        af < 16,
    ensures
        r == af_op(id, af),
{
    if id.index < 8 {
        let off: u32 = 4 * (id.index as u32);
        modify(Register::Gpio(id.port, GpioReg::Afrl), 15u32 << off, af << off)
    } else {
        let off: u32 = 4 * ((id.index - 8) as u32);
        modify(Register::Gpio(id.port, GpioReg::Afrh), 15u32 << off, af << off)
    }
}

fn push_input(id: PinId, pull: u32, ops: &mut Vec<RegOp>)
    requires
        id.index < 16,
        pull < 4,
    ensures
        final(ops)@ == old(ops)@ + input_ops(id, pull),
{
    ops.push(field2(id, GpioReg::Pupdr, pull));
    ops.push(field2(id, GpioReg::Moder, MODE_INPUT));
    assert(ops@ =~= old(ops)@ + input_ops(id, pull));
}

fn push_output(id: PinId, open_drain: bool, ops: &mut Vec<RegOp>)
    requires
        id.index < 16,
    ensures
        final(ops)@ == old(ops)@ + output_ops(id, open_drain),
{
    ops.push(field2(id, GpioReg::Pupdr, PULL_NONE));
    ops.push(bit_access(id, GpioReg::Otyper, open_drain));
    ops.push(field2(id, GpioReg::Moder, MODE_OUTPUT));
    assert(ops@ =~= old(ops)@ + output_ops(id, open_drain));
}

fn push_alternate(id: PinId, af: u32, ops: &mut Vec<RegOp>)
    requires
        id.index < 16,
        af < 8,
    ensures
        final(ops)@ == old(ops)@ + alternate_ops(id, af),
{
    ops.push(af_access(id, af));
    ops.push(field2(id, GpioReg::Moder, MODE_ALTERNATE));
    assert(ops@ =~= old(ops)@ + alternate_ops(id, af));
}

fn set_high_access(id: PinId) -> (r: RegOp)
    requires
        id.index < 16,
    ensures
        r == set_high_op(id),
{
    write_word(Register::Gpio(id.port, GpioReg::Bsrr), 1u32 << (id.index as u32))
}

fn set_low_access(id: PinId) -> (r: RegOp)
    requires
        id.index < 16,
    ensures
        r == set_low_op(id),
{
    write_word(Register::Gpio(id.port, GpioReg::Bsrr), 1u32 << ((id.index + 16) as u32))
}

fn read_bit(word: u32, i: u8) -> (r: bool)
    requires
        i < 16,
    ensures
        r == bit(word, i),
{
    (word >> (i as u32)) & 1 == 1
}


/// A pin whose port, index and mode are fixed for its lifetime; the mode is
/// part of its type.
pub struct GpioPin<MODE> {
    id: PinId,
    _mode: PhantomData<MODE>,
}

impl<MODE> View for GpioPin<MODE> {
    type V = PinId;

    closed spec fn view(&self) -> PinId {
        self.id
    }
}

impl<MODE> GpioPin<MODE> {
    #[verifier::type_invariant]
    spec fn inv(self) -> bool {
        self.id.index < 16
    }

    fn new(id: PinId) -> (r: GpioPin<MODE>)
        requires
            id.index < 16,
        ensures
            r@ == id,
    {
        GpioPin { id, _mode: PhantomData }
    }

    fn retag<NEW>(self) -> (r: GpioPin<NEW>)
        ensures
            r@ == self@,
    {
        proof {
            use_type_invariant(&self);
        }
        GpioPin { id: self.id, _mode: PhantomData }
    }

    /// The port and index of this pin.
    pub fn id(&self) -> (r: PinId)
        ensures
            r == self@,
            r.index < 16,
    {
        proof {
            use_type_invariant(self);
        }
        self.id
    }

    /// Configures the pin to operate in AF0 mode
    pub fn into_alternate_af0(self, ops: &mut Vec<RegOp>) -> (r: GpioPin<Alternate<AF0>>)
        ensures
            r@ == self@,
            final(ops)@ == old(ops)@ + alternate_ops(self@, 0),
    {
        proof {
            use_type_invariant(&self);
        }
        push_alternate(self.id, 0, ops);
        self.retag()
    }

    /// Configures the pin to operate in AF1 mode
    pub fn into_alternate_af1(self, ops: &mut Vec<RegOp>) -> (r: GpioPin<Alternate<AF1>>)
        ensures
            r@ == self@,
            final(ops)@ == old(ops)@ + alternate_ops(self@, 1),
    {
        proof {
            use_type_invariant(&self);
        }
        push_alternate(self.id, 1, ops);
        self.retag()
    }

    /// Configures the pin to operate in AF2 mode
    pub fn into_alternate_af2(self, ops: &mut Vec<RegOp>) -> (r: GpioPin<Alternate<AF2>>)
        ensures
            r@ == self@,
            final(ops)@ == old(ops)@ + alternate_ops(self@, 2),
    {
        proof {
            use_type_invariant(&self);
        }
        push_alternate(self.id, 2, ops);
        self.retag()
    }

    /// Configures the pin to operate in AF3 mode
    pub fn into_alternate_af3(self, ops: &mut Vec<RegOp>) -> (r: GpioPin<Alternate<AF3>>)
        ensures
            r@ == self@,
            final(ops)@ == old(ops)@ + alternate_ops(self@, 3),
    {
        proof {
            use_type_invariant(&self);
        }
        push_alternate(self.id, 3, ops);
        self.retag()
    }

    /// Configures the pin to operate in AF4 mode
    pub fn into_alternate_af4(self, ops: &mut Vec<RegOp>) -> (r: GpioPin<Alternate<AF4>>)
        ensures
            r@ == self@,
            final(ops)@ == old(ops)@ + alternate_ops(self@, 4),
    {
        proof {
            use_type_invariant(&self);
        }
        push_alternate(self.id, 4, ops);
        self.retag()
    }

    /// Configures the pin to operate in AF5 mode
    pub fn into_alternate_af5(self, ops: &mut Vec<RegOp>) -> (r: GpioPin<Alternate<AF5>>)
        ensures
            r@ == self@,
            final(ops)@ == old(ops)@ + alternate_ops(self@, 5),
    {
        proof {
            use_type_invariant(&self);
        }
        push_alternate(self.id, 5, ops);
        self.retag()
    }

    /// Configures the pin to operate in AF6 mode
    pub fn into_alternate_af6(self, ops: &mut Vec<RegOp>) -> (r: GpioPin<Alternate<AF6>>)
        ensures
            r@ == self@,
            final(ops)@ == old(ops)@ + alternate_ops(self@, 6),
    {
        proof {
            use_type_invariant(&self);
        }
        push_alternate(self.id, 6, ops);
        self.retag()
    }

    /// Configures the pin to operate in AF7 mode
    pub fn into_alternate_af7(self, ops: &mut Vec<RegOp>) -> (r: GpioPin<Alternate<AF7>>)
        ensures
            r@ == self@,
            final(ops)@ == old(ops)@ + alternate_ops(self@, 7),
    {
        proof {
            use_type_invariant(&self);
        }
        push_alternate(self.id, 7, ops);
        self.retag()
    }

    /// Configures the pin to operate as a floating input pin
    pub fn into_floating_input(self, ops: &mut Vec<RegOp>) -> (r: GpioPin<Input<Floating>>)
        ensures
            r@ == self@,
            final(ops)@ == old(ops)@ + input_ops(self@, PULL_NONE),
    {
        proof {
            use_type_invariant(&self);
        }
        push_input(self.id, PULL_NONE, ops);
        self.retag()
    }

    /// Configures the pin to operate as a pulled down input pin
    pub fn into_pull_down_input(self, ops: &mut Vec<RegOp>) -> (r: GpioPin<Input<PullDown>>)
        ensures
            r@ == self@,
            final(ops)@ == old(ops)@ + input_ops(self@, PULL_DOWN),
    {
        proof {
            use_type_invariant(&self);
        }
        push_input(self.id, PULL_DOWN, ops);
        self.retag()
    }

    /// Configures the pin to operate as a pulled up input pin
    pub fn into_pull_up_input(self, ops: &mut Vec<RegOp>) -> (r: GpioPin<Input<PullUp>>)
        ensures
            r@ == self@,
            final(ops)@ == old(ops)@ + input_ops(self@, PULL_UP),
    {
        proof {
            use_type_invariant(&self);
        }
        push_input(self.id, PULL_UP, ops);
        self.retag()
    }

    /// Configures the pin to operate as an open drain output pin
    pub fn into_open_drain_output(self, ops: &mut Vec<RegOp>) -> (r: GpioPin<Output<OpenDrain>>)
        ensures
            r@ == self@,
            final(ops)@ == old(ops)@ + output_ops(self@, true),
    {
        proof {
            use_type_invariant(&self);
        }
        push_output(self.id, true, ops);
        self.retag()
    }

    /// Configures the pin to operate as a push pull output pin
    pub fn into_push_pull_output(self, ops: &mut Vec<RegOp>) -> (r: GpioPin<Output<PushPull>>)
        ensures
            r@ == self@,
            final(ops)@ == old(ops)@ + output_ops(self@, false),
    {
        proof {
            use_type_invariant(&self);
        }
        push_output(self.id, false, ops);
        self.retag()
    }

    /// Configures the pin to operate as a push pull output pin with quick fall
    /// and rise times: its output speed field is set to high speed
    pub fn into_push_pull_output_hs(self, ops: &mut Vec<RegOp>) -> (r: GpioPin<Output<PushPull>>)
        ensures
            r@ == self@,
            final(ops)@ == old(ops)@ + output_hs_ops(self@),
    {
        proof {
            use_type_invariant(&self);
        }
        let id = self.id;
        ops.push(field2(id, GpioReg::Pupdr, PULL_NONE));
        ops.push(bit_access(id, GpioReg::Otyper, false));
        ops.push(field2(id, GpioReg::Ospeedr, SPEED_HIGH));
        ops.push(field2(id, GpioReg::Moder, MODE_OUTPUT));
        assert(ops@ =~= old(ops)@ + output_hs_ops(id));
        self.retag()
    }
}

impl GpioPin<Output<OpenDrain>> {
    /// Enables / disables the internal pull up
    pub fn internal_pull_up(&mut self, on: bool, ops: &mut Vec<RegOp>)
        ensures
            final(self)@ == old(self)@,
            final(ops)@ == old(ops)@.push(
                field2_op(old(self)@, GpioReg::Pupdr, if on { PULL_UP } else { PULL_NONE }),
            ),
    {
        proof {
            use_type_invariant(&*self);
        }
        ops.push(field2(self.id, GpioReg::Pupdr, if on { PULL_UP } else { PULL_NONE }));
    }

    /// Is the input pin high?
    pub fn is_high(&self, idr: u32) -> (r: bool)
        ensures
            r == bit(idr, self@.index),
    {
        proof {
            use_type_invariant(self);
        }
        read_bit(idr, self.id.index)
    }

    /// Is the input pin low?
    pub fn is_low(&self, idr: u32) -> (r: bool)
        ensures
            r == !bit(idr, self@.index),
    {
        !self.is_high(idr)
    }
}

impl<MODE> GpioPin<Alternate<MODE>> {
    /// Enables / disables the internal pull up
    pub fn internal_pull_up(&mut self, on: bool, ops: &mut Vec<RegOp>)
        ensures
            final(self)@ == old(self)@,
            final(ops)@ == old(ops)@.push(
                field2_op(old(self)@, GpioReg::Pupdr, if on { PULL_UP } else { PULL_NONE }),
            ),
    {
        proof {
            use_type_invariant(&*self);
        }
        ops.push(field2(self.id, GpioReg::Pupdr, if on { PULL_UP } else { PULL_NONE }));
    }

    /// Turns pin alternate configuration pin into open drain
    pub fn set_open_drain(self, ops: &mut Vec<RegOp>) -> (r: Self)
        ensures
            r@ == self@,
            final(ops)@ == old(ops)@.push(bit_op(self@, GpioReg::Otyper, true)),
    {
        proof {
            use_type_invariant(&self);
        }
        ops.push(bit_access(self.id, GpioReg::Otyper, true));
        self
    }
}

impl<MODE> GpioPin<Output<MODE>> {
    /// Erases the pin number and port from the type
    ///
    /// This is useful when you want to collect the pins into an array where you
    /// need all the elements to have the same type
    pub fn downgrade(self) -> (r: Pin<Output<MODE>>)
        ensures
            r@ == self@,
    {
        proof {
            use_type_invariant(&self);
        }
        Pin { id: self.id, _mode: PhantomData }
    }

    /// Drives the pin high with one write to the set/reset register
    pub fn set_high(&mut self, ops: &mut Vec<RegOp>)
        ensures
            final(self)@ == old(self)@,
            final(ops)@ == old(ops)@.push(set_high_op(old(self)@)),
    {
        proof {
            use_type_invariant(&*self);
        }
        ops.push(set_high_access(self.id));
    }

    /// Drives the pin low with one write to the set/reset register
    pub fn set_low(&mut self, ops: &mut Vec<RegOp>)
        ensures
            final(self)@ == old(self)@,
            final(ops)@ == old(ops)@.push(set_low_op(old(self)@)),
    {
        proof {
            use_type_invariant(&*self);
        }
        ops.push(set_low_access(self.id));
    }

    /// Is the pin commanded high, going by the output data register `odr`?
    pub fn is_set_high(&self, odr: u32) -> (r: bool)
        ensures
            r == bit(odr, self@.index),
    {
        proof {
            use_type_invariant(self);
        }
        read_bit(odr, self.id.index)
    }

    /// Is the pin commanded low, going by the output data register `odr`?
    pub fn is_set_low(&self, odr: u32) -> (r: bool)
        ensures
            r == !bit(odr, self@.index),
    {
        !self.is_set_high(odr)
    }
}

impl<MODE> GpioPin<Input<MODE>> {
    /// Erases the pin number and port from the type
    ///
    /// This is useful when you want to collect the pins into an array where you
    /// need all the elements to have the same type
    pub fn downgrade(self) -> (r: Pin<Input<MODE>>)
        ensures
            r@ == self@,
    {
        proof {
            use_type_invariant(&self);
        }
        Pin { id: self.id, _mode: PhantomData }
    }

    /// Is the input pin high, going by the input data register `idr`?
    pub fn is_high(&self, idr: u32) -> (r: bool)
        ensures
            r == bit(idr, self@.index),
    {
        proof {
            use_type_invariant(self);
        }
        read_bit(idr, self.id.index)
    }

    /// Is the input pin low, going by the input data register `idr`?
    pub fn is_low(&self, idr: u32) -> (r: bool)
        ensures
            r == !bit(idr, self@.index),
    {
        !self.is_high(idr)
    }
}

/// Fully erased pin: port and index are values, only the capability (input or
/// output) stays in the type
pub struct Pin<MODE> {
    id: PinId,
    _mode: PhantomData<MODE>,
}

impl<MODE> View for Pin<MODE> {
    type V = PinId;

    closed spec fn view(&self) -> PinId {
        self.id
    }
}

impl<MODE> Pin<MODE> {
    #[verifier::type_invariant]
    spec fn inv(self) -> bool {
        self.id.index < 16
    }

    /// The port and index of this pin.
    pub fn id(&self) -> (r: PinId)
        ensures
            r == self@,
            r.index < 16,
    {
        proof {
            use_type_invariant(self);
        }
        self.id
    }

    /// The pin number within its port.
    pub fn get_id(&self) -> (r: u8)
        ensures
            r == self@.index,
            r < 16,
    {
        proof {
            use_type_invariant(self);
        }
        self.id.index
    }
}

impl<MODE> Pin<Output<MODE>> {
    /// Drives the pin high with one write to the set/reset register
    pub fn set_high(&mut self, ops: &mut Vec<RegOp>)
        ensures
            final(self)@ == old(self)@,
            final(ops)@ == old(ops)@.push(set_high_op(old(self)@)),
    {
        proof {
            use_type_invariant(&*self);
        }
        ops.push(set_high_access(self.id));
    }

    /// Drives the pin low with one write to the set/reset register
    pub fn set_low(&mut self, ops: &mut Vec<RegOp>)
        ensures
            final(self)@ == old(self)@,
            final(ops)@ == old(ops)@.push(set_low_op(old(self)@)),
    {
        proof {
            use_type_invariant(&*self);
        }
        ops.push(set_low_access(self.id));
    }

    /// Is the pin commanded high, going by the output data register `odr`?
    pub fn is_set_high(&self, odr: u32) -> (r: bool)
        ensures
            r == bit(odr, self@.index),
    {
        proof {
            use_type_invariant(self);
        }
        read_bit(odr, self.id.index)
    }

    /// Is the pin commanded low, going by the output data register `odr`?
    pub fn is_set_low(&self, odr: u32) -> (r: bool)
        ensures
            r == !bit(odr, self@.index),
    {
        !self.is_set_high(odr)
    }
}

impl Pin<Output<OpenDrain>> {
    /// Is the input pin high, going by the input data register `idr`?
    pub fn is_high(&self, idr: u32) -> (r: bool)
        ensures
            r == bit(idr, self@.index),
    {
        proof {
            use_type_invariant(self);
        }
        read_bit(idr, self.id.index)
    }

    /// Is the input pin low, going by the input data register `idr`?
    pub fn is_low(&self, idr: u32) -> (r: bool)
        ensures
            r == !bit(idr, self@.index),
    {
        !self.is_high(idr)
    }
}

impl<MODE> Pin<Input<MODE>> {
    /// Is the input pin high, going by the input data register `idr`?
    pub fn is_high(&self, idr: u32) -> (r: bool)
        ensures
            r == bit(idr, self@.index),
    {
        proof {
            use_type_invariant(self);
        }
        read_bit(idr, self.id.index)
    }

    /// Is the input pin low, going by the input data register `idr`?
    pub fn is_low(&self, idr: u32) -> (r: bool)
        ensures
            r == !bit(idr, self@.index),
    {
        !self.is_high(idr)
    }
}

/// Extension trait to split a GPIO peripheral in independent pins
pub trait GpioExt: Sized {
    /// The parts to split the GPIO into
    type Parts;

    /// The register accesses that splitting performs.
    spec fn split_ops(&self) -> Seq<RegOp>;

    /// The pins in `parts` are the ones this peripheral owns.
    spec fn owns_parts(&self, parts: &Self::Parts) -> bool;

    /// Splits the GPIO block into independent pins, enabling the port's clock
    fn split(self, ops: &mut Vec<RegOp>) -> (parts: Self::Parts)
        ensures
            final(ops)@ == old(ops)@ + self.split_ops(),
            self.owns_parts(&parts),
    ;
}

/// The bit of the AHB clock enable register that clocks a port.
pub open spec fn port_clock_bit(port: Port) -> u32 {
    match port {
        Port::A => 17,
        Port::B => 18,
        Port::C => 19,
        Port::D => 20,
        Port::F => 22,
    }
}

/// The access that enables the clock of a port.
pub open spec fn port_clock_op(port: Port) -> RegOp {
    RegOp {
        reg: Register::Rcc(RccReg::Ahbenr),
        access: Access::Modify { clear: 0, set: 1u32 << port_clock_bit(port) },
    }
}

/// Exclusive ownership of one GPIO port, before it is split into pins.
///
/// Whoever creates it must hold the only claim on that port's peripheral.
pub struct GpioBlock {
    port: Port,
}

impl GpioBlock {
    /// Takes ownership of `port`.
    pub fn new(port: Port) -> (r: GpioBlock)
        ensures
            r.port() == port,
    {
        GpioBlock { port }
    }

    /// The port this block owns.
    pub closed spec fn port(&self) -> Port {
        self.port
    }
}

/// The sixteen pins of a port, all floating inputs as after reset.
pub struct Parts {
    pub pin0: GpioPin<Input<Floating>>,
    pub pin1: GpioPin<Input<Floating>>,
    pub pin2: GpioPin<Input<Floating>>,
    pub pin3: GpioPin<Input<Floating>>,
    pub pin4: GpioPin<Input<Floating>>,
    pub pin5: GpioPin<Input<Floating>>,
    pub pin6: GpioPin<Input<Floating>>,
    pub pin7: GpioPin<Input<Floating>>,
    pub pin8: GpioPin<Input<Floating>>,
    pub pin9: GpioPin<Input<Floating>>,
    pub pin10: GpioPin<Input<Floating>>,
    pub pin11: GpioPin<Input<Floating>>,
    pub pin12: GpioPin<Input<Floating>>,
    pub pin13: GpioPin<Input<Floating>>,
    pub pin14: GpioPin<Input<Floating>>,
    pub pin15: GpioPin<Input<Floating>>,
}

impl GpioExt for GpioBlock {
    type Parts = Parts;

    open spec fn split_ops(&self) -> Seq<RegOp> {
        seq![port_clock_op(self.port())]
    }

    open spec fn owns_parts(&self, parts: &Parts) -> bool {
        &&& parts.pin0@ == (PinId { port: self.port(), index: 0 })
        &&& parts.pin1@ == (PinId { port: self.port(), index: 1 })
        &&& parts.pin2@ == (PinId { port: self.port(), index: 2 })
        &&& parts.pin3@ == (PinId { port: self.port(), index: 3 })
        &&& parts.pin4@ == (PinId { port: self.port(), index: 4 })
        &&& parts.pin5@ == (PinId { port: self.port(), index: 5 })
        &&& parts.pin6@ == (PinId { port: self.port(), index: 6 })
        &&& parts.pin7@ == (PinId { port: self.port(), index: 7 })
        &&& parts.pin8@ == (PinId { port: self.port(), index: 8 })
        &&& parts.pin9@ == (PinId { port: self.port(), index: 9 })
        &&& parts.pin10@ == (PinId { port: self.port(), index: 10 })
        &&& parts.pin11@ == (PinId { port: self.port(), index: 11 })
        &&& parts.pin12@ == (PinId { port: self.port(), index: 12 })
        &&& parts.pin13@ == (PinId { port: self.port(), index: 13 })
        &&& parts.pin14@ == (PinId { port: self.port(), index: 14 })
        &&& parts.pin15@ == (PinId { port: self.port(), index: 15 })
    }

    fn split(self, ops: &mut Vec<RegOp>) -> (parts: Parts) {
        let bit: u32 = match self.port {
            Port::A => 17,
            Port::B => 18,
            Port::C => 19,
            Port::D => 20,
            Port::F => 22,
        };
        ops.push(modify(Register::Rcc(RccReg::Ahbenr), 0, 1u32 << bit));
        assert(ops@ =~= old(ops)@ + self.split_ops());
        Parts {
            pin0: GpioPin::new(PinId { port: self.port, index: 0 }),
            pin1: GpioPin::new(PinId { port: self.port, index: 1 }),
            pin2: GpioPin::new(PinId { port: self.port, index: 2 }),
            pin3: GpioPin::new(PinId { port: self.port, index: 3 }),
            pin4: GpioPin::new(PinId { port: self.port, index: 4 }),
            pin5: GpioPin::new(PinId { port: self.port, index: 5 }),
            pin6: GpioPin::new(PinId { port: self.port, index: 6 }),
            pin7: GpioPin::new(PinId { port: self.port, index: 7 }),
            pin8: GpioPin::new(PinId { port: self.port, index: 8 }),
            pin9: GpioPin::new(PinId { port: self.port, index: 9 }),
            pin10: GpioPin::new(PinId { port: self.port, index: 10 }),
            pin11: GpioPin::new(PinId { port: self.port, index: 11 }),
            pin12: GpioPin::new(PinId { port: self.port, index: 12 }),
            pin13: GpioPin::new(PinId { port: self.port, index: 13 }),
            pin14: GpioPin::new(PinId { port: self.port, index: 14 }),
            pin15: GpioPin::new(PinId { port: self.port, index: 15 }),
        }
    }
}


/// The output data register of the pin's port in `regs`.
pub open spec fn odr_of(regs: RegisterFile, id: PinId) -> u32 {
    regs(Register::Gpio(id.port, GpioReg::Odr))
}

proof fn lemma_bsrr_bits(odr: u32, i: u32, j: u32)
    requires
        i < 16,
        j < 32,
    ensures
        (bsrr_effect(odr, 1u32 << i) >> j) & 1 == if j == i { 1 } else { (odr >> j) & 1 },
        (bsrr_effect(odr, 1u32 << (i + 16) as u32) >> j) & 1 == if j == i {
            0
        } else {
            (odr >> j) & 1
        },
{
    assert((((odr & !((1u32 << i) >> 16u32)) | ((1u32 << i) & 0xffff)) >> j) & 1 == if j == i {
        1
    } else {
        (odr >> j) & 1
    }) by (bit_vector)
        requires
            i < 16,
            j < 32,
    ;
    assert((((odr & !((1u32 << ((i + 16) as u32)) >> 16u32)) | ((1u32 << ((i + 16) as u32))
        & 0xffff)) >> j) & 1 == if j == i {
        0
    } else {
        (odr >> j) & 1
    }) by (bit_vector)
        requires
            i < 16,
            j < 32,
    ;
}

/// Driving a pin high and then low, each with its single set/reset write,
/// makes its output bit read back as commanded high and then low, and leaves
/// the output bit of every other pin of the port as it was.
pub proof fn lemma_set_high_then_low(regs: RegisterFile, id: PinId, j: u8)
    requires
        id.index < 16,
        j < 32,
    ensures
        bit(odr_of(apply_op(regs, set_high_op(id)), id), id.index),
        !bit(odr_of(apply_op(apply_op(regs, set_high_op(id)), set_low_op(id)), id), id.index),
        j != id.index ==> bit(odr_of(apply_op(regs, set_high_op(id)), id), j) == bit(
            odr_of(regs, id),
            j,
        ),
        j != id.index ==> bit(odr_of(apply_op(regs, set_low_op(id)), id), j) == bit(
            odr_of(regs, id),
            j,
        ),
{
    let i = id.index as u32;
    let r1 = apply_op(regs, set_high_op(id));
    let r2 = apply_op(r1, set_low_op(id));
    let r3 = apply_op(regs, set_low_op(id));
    assert(odr_of(r1, id) == bsrr_effect(odr_of(regs, id), 1u32 << i));
    assert(odr_of(r2, id) == bsrr_effect(odr_of(r1, id), 1u32 << (i + 16) as u32));
    assert(odr_of(r3, id) == bsrr_effect(odr_of(regs, id), 1u32 << (i + 16) as u32));
    lemma_bsrr_bits(odr_of(regs, id), i, i);
    lemma_bsrr_bits(odr_of(r1, id), i, i);
    lemma_bsrr_bits(odr_of(regs, id), i, j as u32);
}

/// Making a pin a push pull output leaves its port's output data register
/// alone; then driving it high and low reads back as commanded.
pub proof fn lemma_push_pull_set_reset(regs: RegisterFile, id: PinId)
    requires
        id.index < 16,
    ensures
        ({
            let configured = apply_ops(regs, output_ops(id, false));
            &&& odr_of(configured, id) == odr_of(regs, id)
            &&& bit(odr_of(apply_op(configured, set_high_op(id)), id), id.index)
            &&& !bit(
                odr_of(apply_op(apply_op(configured, set_high_op(id)), set_low_op(id)), id),
                id.index,
            )
        }),
{
    let ops = output_ops(id, false);
    let r1 = apply_op(regs, ops[0]);
    let r2 = apply_op(r1, ops[1]);
    let r3 = apply_op(r2, ops[2]);
    assert(ops.drop_first().drop_first().drop_first() =~= seq![]);
    assert(apply_ops(regs, ops) == apply_ops(r1, ops.drop_first()));
    assert(apply_ops(r1, ops.drop_first()) == apply_ops(r2, ops.drop_first().drop_first()));
    assert(apply_ops(r2, ops.drop_first().drop_first()) == apply_ops(
        r3,
        ops.drop_first().drop_first().drop_first(),
    ));
    assert(odr_of(r3, id) == odr_of(regs, id));
    lemma_set_high_then_low(apply_ops(regs, ops), id, 0);
}


/// The configuration fields of one pin: mode select, pull, output type,
/// output speed and alternate function.
pub struct PinFields {
    pub mode: u32,
    pub pull: u32,
    pub open_drain: u32,
    pub speed: u32,
    pub af: u32,
}

/// The register word of `reg` in the pin's port.
pub open spec fn port_reg(regs: RegisterFile, id: PinId, reg: GpioReg) -> u32 {
    regs(Register::Gpio(id.port, reg))
}

/// The configuration fields of pin `id` in `regs`.
pub open spec fn pin_fields(regs: RegisterFile, id: PinId) -> PinFields {
    PinFields {
        mode: field(port_reg(regs, id, GpioReg::Moder), (2 * id.index) as u32, 3),
        pull: field(port_reg(regs, id, GpioReg::Pupdr), (2 * id.index) as u32, 3),
        open_drain: field(port_reg(regs, id, GpioReg::Otyper), id.index as u32, 1),
        speed: field(port_reg(regs, id, GpioReg::Ospeedr), (2 * id.index) as u32, 3),
        af: if id.index < 8 {
            field(port_reg(regs, id, GpioReg::Afrl), (4 * id.index) as u32, 15)
        } else {
            field(port_reg(regs, id, GpioReg::Afrh), (4 * (id.index - 8)) as u32, 15)
        },
    }
}

proof fn lemma_field2_op_fields(regs: RegisterFile, id: PinId, reg: GpioReg, v: u32, other: PinId)
    requires
        id.index < 16,
        other.index < 16,
        v < 4,
        reg == GpioReg::Moder || reg == GpioReg::Pupdr || reg == GpioReg::Ospeedr,
    ensures
        pin_fields(apply_op(regs, field2_op(id, reg, v)), other) == if other != id {
            pin_fields(regs, other)
        } else if reg == GpioReg::Moder {
            PinFields { mode: v, ..pin_fields(regs, other) }
        } else if reg == GpioReg::Pupdr {
            PinFields { pull: v, ..pin_fields(regs, other) }
        } else {
            PinFields { speed: v, ..pin_fields(regs, other) }
        },
{
    if other.port == id.port {
        lemma_field2(port_reg(regs, id, reg), id.index as u32, other.index as u32, v);
    }
}

proof fn lemma_otyper_op_fields(regs: RegisterFile, id: PinId, on: bool, other: PinId)
    requires
        id.index < 16,
        other.index < 16,
    ensures
        pin_fields(apply_op(regs, bit_op(id, GpioReg::Otyper, on)), other) == if other != id {
            pin_fields(regs, other)
        } else {
            PinFields {
                open_drain: if on {
                    1
                } else {
                    0
                },
                ..pin_fields(regs, other)
            }
        },
{
    if other.port == id.port {
        let i = id.index as u32;
        assert(1u32 << i != 0) by (bit_vector)
            requires
                i < 16,
        ;
        lemma_field1(
            port_reg(regs, id, GpioReg::Otyper),
            i,
            other.index as u32,
            1u32 << i,
            if on {
                1u32 << i
            } else {
                0
            },
        );
    }
}

proof fn lemma_af_op_fields(regs: RegisterFile, id: PinId, af: u32, other: PinId)
    requires
        id.index < 16,
        other.index < 16,
        af < 16,
    ensures
        pin_fields(apply_op(regs, af_op(id, af)), other) == if other != id {
            pin_fields(regs, other)
        } else {
            PinFields { af, ..pin_fields(regs, other) }
        },
{
    if other.port == id.port {
        if id.index < 8 && other.index < 8 {
            lemma_field4(
                port_reg(regs, id, GpioReg::Afrl),
                id.index as u32,
                other.index as u32,
                af,
            );
        } else if id.index >= 8 && other.index >= 8 {
            lemma_field4(
                port_reg(regs, id, GpioReg::Afrh),
                (id.index - 8) as u32,
                (other.index - 8) as u32,
                af,
            );
        }
    }
}

proof fn lemma_apply_two(regs: RegisterFile, a: RegOp, b: RegOp)
    ensures
        apply_ops(regs, seq![a, b]) == apply_op(apply_op(regs, a), b),
{
    let s = seq![a, b];
    assert(s.drop_first() =~= seq![b]);
    assert(s.drop_first().drop_first() =~= Seq::<RegOp>::empty());
    assert(apply_ops(apply_op(regs, a), seq![b]) == apply_ops(
        apply_op(apply_op(regs, a), b),
        seq![b].drop_first(),
    ));
}

proof fn lemma_apply_three(regs: RegisterFile, a: RegOp, b: RegOp, c: RegOp)
    ensures
        apply_ops(regs, seq![a, b, c]) == apply_op(apply_op(apply_op(regs, a), b), c),
{
    let s = seq![a, b, c];
    assert(s.drop_first() =~= seq![b, c]);
    lemma_apply_two(apply_op(regs, a), b, c);
}

/// An input transition leaves the pin an input with the requested pull, its
/// other fields as they were, and every other pin's configuration unchanged.
pub proof fn lemma_input_configures(regs: RegisterFile, id: PinId, pull: u32, other: PinId)
    requires
        id.index < 16,
        other.index < 16,
        pull < 4,
    ensures
        pin_fields(apply_ops(regs, input_ops(id, pull)), id) == (PinFields {
            mode: MODE_INPUT,
            pull,
            ..pin_fields(regs, id)
        }),
        other != id ==> pin_fields(apply_ops(regs, input_ops(id, pull)), other) == pin_fields(
            regs,
            other,
        ),
{
    let a = field2_op(id, GpioReg::Pupdr, pull);
    let b = field2_op(id, GpioReg::Moder, MODE_INPUT);
    lemma_apply_two(regs, a, b);
    lemma_field2_op_fields(regs, id, GpioReg::Pupdr, pull, id);
    lemma_field2_op_fields(apply_op(regs, a), id, GpioReg::Moder, MODE_INPUT, id);
    lemma_field2_op_fields(regs, id, GpioReg::Pupdr, pull, other);
    lemma_field2_op_fields(apply_op(regs, a), id, GpioReg::Moder, MODE_INPUT, other);
}

/// An output transition leaves the pin an output without pull, open drain or
/// push pull as requested, its alternate function as it was, and every other
/// pin's configuration unchanged.
pub proof fn lemma_output_configures(regs: RegisterFile, id: PinId, open_drain: bool, other: PinId)
    requires
        id.index < 16,
        other.index < 16,
    ensures
        pin_fields(apply_ops(regs, output_ops(id, open_drain)), id) == (PinFields {
            mode: MODE_OUTPUT,
            pull: PULL_NONE,
            open_drain: if open_drain {
                1
            } else {
                0
            },
            ..pin_fields(regs, id)
        }),
        other != id ==> pin_fields(apply_ops(regs, output_ops(id, open_drain)), other)
            == pin_fields(regs, other),
{
    let a = field2_op(id, GpioReg::Pupdr, PULL_NONE);
    let b = bit_op(id, GpioReg::Otyper, open_drain);
    let c = field2_op(id, GpioReg::Moder, MODE_OUTPUT);
    let r1 = apply_op(regs, a);
    let r2 = apply_op(r1, b);
    lemma_apply_three(regs, a, b, c);
    lemma_field2_op_fields(regs, id, GpioReg::Pupdr, PULL_NONE, id);
    lemma_otyper_op_fields(r1, id, open_drain, id);
    lemma_field2_op_fields(r2, id, GpioReg::Moder, MODE_OUTPUT, id);
    lemma_field2_op_fields(regs, id, GpioReg::Pupdr, PULL_NONE, other);
    lemma_otyper_op_fields(r1, id, open_drain, other);
    lemma_field2_op_fields(r2, id, GpioReg::Moder, MODE_OUTPUT, other);
}

/// An alternate function transition leaves the pin in alternate function
/// mode with function `af`, its pull and output type as they were, and every
/// other pin's configuration unchanged.
pub proof fn lemma_alternate_configures(regs: RegisterFile, id: PinId, af: u32, other: PinId)
    requires
        id.index < 16,
        other.index < 16,
        af < 8,
    ensures
        pin_fields(apply_ops(regs, alternate_ops(id, af)), id) == (PinFields {
            mode: MODE_ALTERNATE,
            af,
            ..pin_fields(regs, id)
        }),
        other != id ==> pin_fields(apply_ops(regs, alternate_ops(id, af)), other) == pin_fields(
            regs,
            other,
        ),
{
    let a = af_op(id, af);
    let b = field2_op(id, GpioReg::Moder, MODE_ALTERNATE);
    lemma_apply_two(regs, a, b);
    lemma_af_op_fields(regs, id, af, id);
    lemma_field2_op_fields(apply_op(regs, a), id, GpioReg::Moder, MODE_ALTERNATE, id);
    lemma_af_op_fields(regs, id, af, other);
    lemma_field2_op_fields(apply_op(regs, a), id, GpioReg::Moder, MODE_ALTERNATE, other);
}


/// The high speed output transition configures the pin as a push pull output
/// just as the plain one does, and sets its own output speed field to high
/// speed; every other pin's configuration, its speed included, is unchanged.
pub proof fn lemma_output_hs_configures(regs: RegisterFile, id: PinId, other: PinId)
    requires
        id.index < 16,
        other.index < 16,
    ensures
        pin_fields(apply_ops(regs, output_hs_ops(id)), id) == (PinFields {
            mode: MODE_OUTPUT,
            pull: PULL_NONE,
            open_drain: 0,
            speed: SPEED_HIGH,
            ..pin_fields(regs, id)
        }),
        other != id ==> pin_fields(apply_ops(regs, output_hs_ops(id)), other) == pin_fields(
            regs,
            other,
        ),
{
    let ops = output_hs_ops(id);
    let r1 = apply_op(regs, ops[0]);
    let r2 = apply_op(r1, ops[1]);
    let r3 = apply_op(r2, ops[2]);
    assert(ops.drop_first() =~= seq![ops[1], ops[2], ops[3]]);
    lemma_apply_three(r1, ops[1], ops[2], ops[3]);
    lemma_field2_op_fields(regs, id, GpioReg::Pupdr, PULL_NONE, id);
    lemma_otyper_op_fields(r1, id, false, id);
    lemma_field2_op_fields(r2, id, GpioReg::Ospeedr, SPEED_HIGH, id);
    lemma_field2_op_fields(r3, id, GpioReg::Moder, MODE_OUTPUT, id);
    lemma_field2_op_fields(regs, id, GpioReg::Pupdr, PULL_NONE, other);
    lemma_otyper_op_fields(r1, id, false, other);
    lemma_field2_op_fields(r2, id, GpioReg::Ospeedr, SPEED_HIGH, other);
    lemma_field2_op_fields(r3, id, GpioReg::Moder, MODE_OUTPUT, other);
}

/// Switching the internal pull up rewrites the pin's pull field alone.
pub proof fn lemma_pull_up_configures(regs: RegisterFile, id: PinId, on: bool, other: PinId)
    requires
        id.index < 16,
        other.index < 16,
    ensures
        pin_fields(
            apply_op(regs, field2_op(id, GpioReg::Pupdr, if on { PULL_UP } else { PULL_NONE })),
            id,
        ) == (PinFields {
            pull: if on {
                PULL_UP
            } else {
                PULL_NONE
            },
            ..pin_fields(regs, id)
        }),
        other != id ==> pin_fields(
            apply_op(regs, field2_op(id, GpioReg::Pupdr, if on { PULL_UP } else { PULL_NONE })),
            other,
        ) == pin_fields(regs, other),
{
    let v = if on {
        PULL_UP
    } else {
        PULL_NONE
    };
    lemma_field2_op_fields(regs, id, GpioReg::Pupdr, v, id);
    lemma_field2_op_fields(regs, id, GpioReg::Pupdr, v, other);
}

/// Making an alternate function pin open drain sets its output type bit alone.
pub proof fn lemma_open_drain_configures(regs: RegisterFile, id: PinId, other: PinId)
    requires
        id.index < 16,
        other.index < 16,
    ensures
        pin_fields(apply_op(regs, bit_op(id, GpioReg::Otyper, true)), id) == (PinFields {
            open_drain: 1,
            ..pin_fields(regs, id)
        }),
        other != id ==> pin_fields(apply_op(regs, bit_op(id, GpioReg::Otyper, true)), other)
            == pin_fields(regs, other),
{
    lemma_otyper_op_fields(regs, id, true, id);
    lemma_otyper_op_fields(regs, id, true, other);
}

} // verus!
