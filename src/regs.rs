//! Register identifiers, register accesses and their modelled effect.
use vstd::prelude::*;

verus! {

/// A GPIO port of the device.
#[derive(Clone, Copy, PartialEq, Eq, Structural, Debug)]
pub enum Port {
    A,
    B,
    C,
    D,
    F,
}

/// The registers of one GPIO port.
#[derive(Clone, Copy, PartialEq, Eq, Structural, Debug)]
pub enum GpioReg {
    Moder,
    Otyper,
    Ospeedr,
    Pupdr,
    Idr,
    Odr,
    Bsrr,
    Afrl,
    Afrh,
}

/// The reset and clock control registers that the drivers touch.
#[derive(Clone, Copy, PartialEq, Eq, Structural, Debug)]
pub enum RccReg {
    Ahbenr,
    Apb1enr,
    Apb1rstr,
}

/// An I2C peripheral instance.
#[derive(Clone, Copy, PartialEq, Eq, Structural, Debug)]
pub enum I2cId {
    I2c1,
    I2c2,
}

/// The registers of one I2C peripheral.
#[derive(Clone, Copy, PartialEq, Eq, Structural, Debug)]
pub enum I2cReg {
    Cr1,
    Cr2,
    Isr,
    Icr,
    Timingr,
    Txdr,
    Rxdr,
}

/// One memory-mapped register.
#[derive(Clone, Copy, PartialEq, Eq, Structural, Debug)]
pub enum Register {
    Gpio(Port, GpioReg),
    Rcc(RccReg),
    I2c(I2cId, I2cReg),
}

/// How a register is accessed: a plain write of a whole word, or one
/// read-modify-write that clears the bits of `clear` and then sets those of `set`.
#[derive(Clone, Copy, PartialEq, Eq, Structural, Debug)]
pub enum Access {
    Write(u32),
    Modify { clear: u32, set: u32 },
}

/// A single logical access to one register.
#[derive(Clone, Copy, PartialEq, Eq, Structural, Debug)]
pub struct RegOp {
    pub reg: Register,
    pub access: Access,
}

/// The contents of every register, as the model sees them.
pub type RegisterFile = spec_fn(Register) -> u32;

/// The word that a read-modify-write leaves in a register that held `word`.
pub open spec fn modified(word: u32, clear: u32, set: u32) -> u32 {
    (word & !clear) | set
}

/// The word that `access` stores into a register that held `word`.
pub open spec fn accessed(word: u32, access: Access) -> u32 {
    match access {
        Access::Write(w) => w,
        Access::Modify { clear, set } => modified(word, clear, set),
    }
}

/// The output data register after a write of `w` to the set/reset register:
/// the low half sets pins, the high half resets them, and setting wins.
pub open spec fn bsrr_effect(odr: u32, w: u32) -> u32 {
    (odr & !(w >> 16u32)) | (w & 0xffff)
}

/// The register file after one access.
///
/// The set/reset register holds no state of its own (it reads as zero); a
/// write to it acts on the output data register of the same port.
pub open spec fn apply_op(regs: RegisterFile, op: RegOp) -> RegisterFile {
    match op.reg {
        Register::Gpio(p, GpioReg::Bsrr) => {
            let w = accessed(0, op.access);
            let odr = Register::Gpio(p, GpioReg::Odr);
            |r: Register| if r == odr { bsrr_effect(regs(odr), w) } else { regs(r) }
        },
        _ => |r: Register| if r == op.reg { accessed(regs(op.reg), op.access) } else { regs(r) },
    }
}

/// The register file after a sequence of accesses, performed in order.
pub open spec fn apply_ops(regs: RegisterFile, ops: Seq<RegOp>) -> RegisterFile
    decreases ops.len(),
{
    if ops.len() == 0 {
        regs
    } else {
        apply_ops(apply_op(regs, ops[0]), ops.drop_first())
    }
}

/// A read-modify-write access.
pub fn modify(reg: Register, clear: u32, set: u32) -> (r: RegOp)
    ensures
        r == (RegOp { reg, access: Access::Modify { clear, set } }),
{
    RegOp { reg, access: Access::Modify { clear, set } }
}

/// A whole-word write access.
pub fn write_word(reg: Register, value: u32) -> (r: RegOp)
    ensures
        r == (RegOp { reg, access: Access::Write(value) }),
{
    RegOp { reg, access: Access::Write(value) }
}

/// The field of `word` that starts at bit `shift`, where `mask` is the
/// field's all-ones value.
pub open spec fn field(word: u32, shift: u32, mask: u32) -> u32 {
    (word >> shift) & mask
}

/// Rewriting the two-bit field of slot `i` leaves the new value there and every
/// other two-bit slot as it was.
pub proof fn lemma_field2(w: u32, i: u32, j: u32, v: u32)
    requires
        i < 16,
        j < 16,
        v < 4,
    ensures
        field(modified(w, 3u32 << ((2 * i) as u32), v << ((2 * i) as u32)), (2 * j) as u32, 3) == if i == j {
            v
        } else {
            field(w, (2 * j) as u32, 3)
        },
{
    assert(((((w & !(3u32 << ((2 * i) as u32))) | (v << ((2 * i) as u32))) >> ((2 * j) as u32)) & 3) == if i == j {
        v
    } else {
        (w >> ((2 * j) as u32)) & 3
    }) by (bit_vector)
        requires
            i < 16,
            j < 16,
            v < 4,
    ;
}

/// Rewriting the one-bit field of slot `i` leaves the new value there and every
/// other bit as it was.
pub proof fn lemma_field1(w: u32, i: u32, j: u32, clear: u32, set: u32)
    requires
        i < 32,
        j < 32,
        clear == 1u32 << i,
        set == 0 || set == 1u32 << i,
    ensures
        field(modified(w, clear, set), j, 1) == if i == j {
            if set == 0 { 0u32 } else { 1u32 }
        } else {
            field(w, j, 1)
        },
{
    assert(((((w & !clear) | set) >> j) & 1) == if i == j {
        if set == 0 { 0u32 } else { 1u32 }
    } else {
        (w >> j) & 1
    }) by (bit_vector)
        requires
            i < 32,
            j < 32,
            clear == 1u32 << i,
            set == 0 || set == 1u32 << i,
    ;
}

/// Rewriting the four-bit field of slot `i` leaves the new value there and every
/// other four-bit slot as it was.
pub proof fn lemma_field4(w: u32, i: u32, j: u32, v: u32)
    requires
        i < 8,
        j < 8,
        v < 16,
    ensures
        field(modified(w, 15u32 << ((4 * i) as u32), v << ((4 * i) as u32)), (4 * j) as u32, 15) == if i == j {
            v
        } else {
            field(w, (4 * j) as u32, 15)
        },
{
    assert(((((w & !(15u32 << ((4 * i) as u32))) | (v << ((4 * i) as u32))) >> ((4 * j) as u32)) & 15) == if i == j {
        v
    } else {
        (w >> ((4 * j) as u32)) & 15
    }) by (bit_vector)
        requires
            i < 8,
            j < 8,
            v < 16,
    ;
}

} // verus!
