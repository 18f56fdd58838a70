//! Peripheral clock sequencing: enable a peripheral's clock, then pulse its
//! reset line so that it starts from its reset state.
use vstd::prelude::*;
use crate::regs::{modify, Access, RccReg, RegOp, Register};

verus! {

/// A read-modify-write of `reg` that clears or sets bit `bit`.
pub open spec fn rcc_bit_op(reg: RccReg, bit: u32, on: bool) -> RegOp {
    RegOp {
        reg: Register::Rcc(reg),
        access: if on {
            Access::Modify { clear: 0, set: 1u32 << bit }
        } else {
            Access::Modify { clear: 1u32 << bit, set: 0 }
        },
    }
}

/// The accesses that enable a peripheral's clock and then set and clear its
/// reset bit, in that order.
pub open spec fn acquire_ops(enable: RccReg, reset: RccReg, bit: u32) -> Seq<RegOp> {
    seq![rcc_bit_op(enable, bit, true), rcc_bit_op(reset, bit, true), rcc_bit_op(reset, bit, false)]
}

/// Records the clock enable and the reset pulse of the peripheral that bit
/// `bit` of `enable` and `reset` controls.
pub fn acquire(enable: RccReg, reset: RccReg, bit: u32, ops: &mut Vec<RegOp>)
    requires
        bit < 32,
    ensures
        final(ops)@ == old(ops)@ + acquire_ops(enable, reset, bit),
{
    let mask: u32 = 1u32 << bit;
    ops.push(modify(Register::Rcc(enable), 0, mask));
    ops.push(modify(Register::Rcc(reset), 0, mask));
    ops.push(modify(Register::Rcc(reset), mask, 0));
    assert(ops@ =~= old(ops)@ + acquire_ops(enable, reset, bit));
}

} // verus!
