//! The blocking master transfer engine, as a state machine.
//!
//! The engine never touches hardware itself. Each call of
//! [`I2cTransfer::step`] hands back the next action: a register access to
//! perform, a register to read, or the outcome. Whoever drives the engine
//! performs the action and passes what a read returned into the next call.
//! The waits of the protocol are repeated reads of the status register, for
//! as long as the awaited flag stays clear.
use vstd::prelude::*;
use crate::i2c::{
    CR2_AUTOEND, CR2_NBYTES, CR2_RD_WRN, CR2_SADD, CR2_START, ICR_NACKCF, ICR_STOPCF, ISR_NACKF,
    ISR_RXNE, ISR_STOPF, ISR_TC, ISR_TXIS, Error,
};
use crate::regs::{modify, write_word, Access, I2cId, I2cReg, RegOp, Register};

verus! {

/// What a transfer does on the bus.
#[derive(Clone, Copy, PartialEq, Eq, Structural, Debug)]
pub enum TransferKind {
    /// Write bytes, then stop.
    Write,
    /// Write bytes, then read bytes after a repeated start, then stop.
    WriteRead,
}

/// Where a transfer stands.
#[derive(Clone, Copy, PartialEq, Eq, Structural, Debug)]
pub enum Phase {
    /// Program address, byte count and direction of the write phase.
    Program,
    /// Generate the start condition.
    Start,
    /// Send the next byte, or end the write phase.
    SendNext,
    /// Read the status to see whether the target answered its address.
    PollReady,
    /// Wait for transmit-ready, not-acknowledge, stop or transfer-complete.
    CheckReady,
    /// Wait for transmit-ready.
    AwaitTx,
    /// Read the status after a byte went out.
    CheckNack,
    /// Look for a not-acknowledge of the byte.
    NackResult,
    /// Wait for transfer-complete after the write phase.
    AwaitComplete,
    /// Generate the repeated start of the read phase.
    StartRead,
    /// Turn on the automatic stop.
    AutoEnd,
    /// Receive the next byte, or finish.
    RecvNext,
    /// Wait for receive-ready.
    AwaitRx,
    /// Store the byte read from the receive register.
    Store,
    /// Done; the transfer succeeded.
    Succeeded,
    /// Done; the transfer failed.
    Failed(Error),
}

/// What the driver of a transfer does next.
#[derive(Clone, Copy, PartialEq, Eq, Structural, Debug)]
pub enum I2cAction {
    /// Perform this register access.
    Access(RegOp),
    /// Read the status register and pass its value to the next step.
    ReadIsr,
    /// Read the receive data register and pass its value to the next step.
    ReadRxdr,
    /// The transfer succeeded.
    Complete,
    /// The transfer failed.
    Fail(Error),
}

/// A transfer as the contracts see it.
pub struct TransferModel {
    pub id: I2cId,
    pub kind: TransferKind,
    pub addr: u8,
    pub out: Seq<u8>,
    pub read_len: nat,
    pub pos: nat,
    pub received: Seq<u8>,
    pub phase: Phase,
}

/// Is `mask` set in `word`?
pub open spec fn flag(word: u32, mask: u32) -> bool {
    word & mask != 0
}

/// Programs target address, byte count and the write direction, with the
/// automatic stop on or off.
pub open spec fn write_program_op(id: I2cId, addr: u8, len: nat, autoend: bool) -> RegOp {
    RegOp {
        reg: Register::I2c(id, I2cReg::Cr2),
        access: Access::Modify {
            clear: CR2_SADD | CR2_NBYTES | CR2_RD_WRN | CR2_AUTOEND,
            set: ((addr as u32) << 1u32) | ((len as u32) << 16u32) | if autoend {
                CR2_AUTOEND
            } else {
                0
            },
        },
    }
}

/// Programs target address, byte count and the read direction.
pub open spec fn read_program_op(id: I2cId, addr: u8, len: nat) -> RegOp {
    RegOp {
        reg: Register::I2c(id, I2cReg::Cr2),
        access: Access::Modify {
            clear: CR2_SADD | CR2_NBYTES | CR2_RD_WRN,
            set: ((addr as u32) << 1u32) | ((len as u32) << 16u32) | CR2_RD_WRN,
        },
    }
}

/// Asserts the start bit.
pub open spec fn start_op(id: I2cId) -> RegOp {
    RegOp {
        reg: Register::I2c(id, I2cReg::Cr2),
        access: Access::Modify { clear: 0, set: CR2_START },
    }
}

/// Turns on the automatic stop.
pub open spec fn autoend_op(id: I2cId) -> RegOp {
    RegOp {
        reg: Register::I2c(id, I2cReg::Cr2),
        access: Access::Modify { clear: 0, set: CR2_AUTOEND },
    }
}

/// Clears the stop and not-acknowledge flags.
pub open spec fn clear_flags_op(id: I2cId) -> RegOp {
    RegOp { reg: Register::I2c(id, I2cReg::Icr), access: Access::Write(ICR_STOPCF | ICR_NACKCF) }
}

/// Writes a byte to the transmit register.
pub open spec fn transmit_op(id: I2cId, byte: u8) -> RegOp {
    RegOp { reg: Register::I2c(id, I2cReg::Txdr), access: Access::Write(byte as u32) }
}

/// A write transfer of `bytes` to `addr`, before its first step.
pub open spec fn write_init(id: I2cId, addr: u8, bytes: Seq<u8>) -> TransferModel {
    TransferModel {
        id,
        kind: TransferKind::Write,
        addr,
        out: bytes,
        read_len: 0,
        pos: 0,
        received: seq![],
        phase: Phase::Program,
    }
}

/// A transfer that writes `bytes` to `addr` and then reads `read_len` bytes
/// from it, before its first step.
pub open spec fn write_read_init(id: I2cId, addr: u8, bytes: Seq<u8>, read_len: nat) -> TransferModel {
    TransferModel {
        id,
        kind: TransferKind::WriteRead,
        addr,
        out: bytes,
        read_len,
        pos: 0,
        received: seq![],
        phase: Phase::Program,
    }
}

/// Moves to `phase`, emitting `action`.
pub open spec fn go(t: TransferModel, phase: Phase, action: I2cAction) -> (TransferModel, I2cAction) {
    (TransferModel { phase, ..t }, action)
}

/// Starts sending the byte at `t.pos`, or ends the write phase: a plain write
/// clears the flags and succeeds, a write-read waits for transfer-complete.
pub open spec fn send_next(t: TransferModel) -> (TransferModel, I2cAction) {
    if t.pos < t.out.len() {
        go(t, Phase::AwaitTx, I2cAction::ReadIsr)
    } else if t.kind == TransferKind::Write {
        go(t, Phase::Succeeded, I2cAction::Access(clear_flags_op(t.id)))
    } else {
        go(t, Phase::AwaitComplete, I2cAction::ReadIsr)
    }
}

/// Starts receiving the next byte, or clears the flags and succeeds once all
/// are in.
pub open spec fn recv_next(t: TransferModel) -> (TransferModel, I2cAction) {
    if t.received.len() < t.read_len {
        go(t, Phase::AwaitRx, I2cAction::ReadIsr)
    } else {
        go(t, Phase::Succeeded, I2cAction::Access(clear_flags_op(t.id)))
    }
}

/// One step of a transfer: `input` is what the read that the previous action
/// asked for returned, and is ignored after other actions.
pub open spec fn next(t: TransferModel, input: u32) -> (TransferModel, I2cAction) {
    match t.phase {
        Phase::Program => go(
            t,
            Phase::Start,
            I2cAction::Access(
                write_program_op(t.id, t.addr, t.out.len(), t.kind == TransferKind::Write),
            ),
        ),
        Phase::Start => go(
            t,
            if t.kind == TransferKind::Write {
                Phase::SendNext
            } else {
                Phase::PollReady
            },
            I2cAction::Access(start_op(t.id)),
        ),
        Phase::SendNext => send_next(t),
        Phase::PollReady => go(t, Phase::CheckReady, I2cAction::ReadIsr),
        Phase::CheckReady => if !flag(input, ISR_TXIS) && !flag(input, ISR_NACKF) && !flag(
            input,
            ISR_STOPF,
        ) && !flag(input, ISR_TC) {
            go(t, Phase::CheckReady, I2cAction::ReadIsr)
        } else if flag(input, ISR_NACKF) {
            go(t, Phase::Failed(Error::NACK), I2cAction::Access(clear_flags_op(t.id)))
        } else {
            send_next(t)
        },
        Phase::AwaitTx => if !flag(input, ISR_TXIS) {
            go(t, Phase::AwaitTx, I2cAction::ReadIsr)
        } else {
            go(t, Phase::CheckNack, I2cAction::Access(transmit_op(t.id, t.out[t.pos as int])))
        },
        Phase::CheckNack => go(t, Phase::NackResult, I2cAction::ReadIsr),
        Phase::NackResult => if flag(input, ISR_NACKF) {
            go(t, Phase::Failed(Error::NACK), I2cAction::Access(clear_flags_op(t.id)))
        } else {
            send_next(TransferModel { pos: t.pos + 1, ..t })
        },
        Phase::AwaitComplete => if !flag(input, ISR_TC) {
            go(t, Phase::AwaitComplete, I2cAction::ReadIsr)
        } else {
            go(t, Phase::StartRead, I2cAction::Access(read_program_op(t.id, t.addr, t.read_len)))
        },
        Phase::StartRead => go(t, Phase::AutoEnd, I2cAction::Access(start_op(t.id))),
        Phase::AutoEnd => go(t, Phase::RecvNext, I2cAction::Access(autoend_op(t.id))),
        Phase::RecvNext => recv_next(t),
        Phase::AwaitRx => if !flag(input, ISR_RXNE) {
            go(t, Phase::AwaitRx, I2cAction::ReadIsr)
        } else {
            go(t, Phase::Store, I2cAction::ReadRxdr)
        },
        Phase::Store => recv_next(TransferModel { received: t.received.push(input as u8), ..t }),
        Phase::Succeeded => go(t, Phase::Succeeded, I2cAction::Complete),
        Phase::Failed(e) => go(t, Phase::Failed(e), I2cAction::Fail(e)),
    }
}

/// The actions of a transfer fed with `inputs`, one step per input.
pub open spec fn run(t: TransferModel, inputs: Seq<u32>) -> Seq<I2cAction>
    decreases inputs.len(),
{
    if inputs.len() == 0 {
        seq![]
    } else {
        seq![next(t, inputs[0]).1] + run(next(t, inputs[0]).0, inputs.drop_first())
    }
}


fn write_program(id: I2cId, addr: u8, len: usize, autoend: bool) -> (r: RegOp)
    requires
        len <= 255,
    ensures
        r == write_program_op(id, addr, len as nat, autoend),
{
    modify(
        Register::I2c(id, I2cReg::Cr2),
        CR2_SADD | CR2_NBYTES | CR2_RD_WRN | CR2_AUTOEND,
        ((addr as u32) << 1u32) | ((len as u32) << 16u32) | if autoend {
            CR2_AUTOEND
        } else {
            0
        },
    )
}

fn read_program(id: I2cId, addr: u8, len: usize) -> (r: RegOp)
    requires
        len <= 255,
    ensures
        r == read_program_op(id, addr, len as nat),
{
    modify(
        Register::I2c(id, I2cReg::Cr2),
        CR2_SADD | CR2_NBYTES | CR2_RD_WRN,
        ((addr as u32) << 1u32) | ((len as u32) << 16u32) | CR2_RD_WRN,
    )
}

fn clear_flags(id: I2cId) -> (r: RegOp)
    ensures
        r == clear_flags_op(id),
{
    write_word(Register::I2c(id, I2cReg::Icr), ICR_STOPCF | ICR_NACKCF)
}

/// A blocking transfer in progress on one I2C peripheral.
pub struct I2cTransfer {
    id: I2cId,
    kind: TransferKind,
    addr: u8,
    out: Vec<u8>,
    read_len: usize,
    pos: usize,
    received: Vec<u8>,
    phase: Phase,
}

impl View for I2cTransfer {
    type V = TransferModel;

    closed spec fn view(&self) -> TransferModel {
        TransferModel {
            id: self.id,
            kind: self.kind,
            addr: self.addr,
            out: self.out@,
            read_len: self.read_len as nat,
            pos: self.pos as nat,
            received: self.received@,
            phase: self.phase,
        }
    }
}

fn copy_bytes(bytes: &[u8]) -> (r: Vec<u8>)
    ensures
        r@ == bytes@,
{
    let mut v: Vec<u8> = Vec::new();
    let mut i: usize = 0;
    while i < bytes.len()
        invariant
            i <= bytes@.len(),
            v@ == bytes@.subrange(0, i as int),
        decreases bytes@.len() - i,
    {
        v.push(bytes[i]);
        i = i + 1;
        assert(v@ =~= bytes@.subrange(0, i as int));
    }
    assert(v@ =~= bytes@);
    v
}

impl I2cTransfer {
    /// The bookkeeping of the transfer is consistent: positions within the
    /// buffers, and counts that fit the 8-bit byte count field.
    pub closed spec fn wf(&self) -> bool {
        &&& self.out@.len() <= 255
        &&& self.read_len <= 255
        &&& self.pos <= self.out@.len()
        &&& self.received@.len() <= self.read_len
        &&& (self.phase == Phase::AwaitTx || self.phase == Phase::CheckNack || self.phase
            == Phase::NackResult) ==> self.pos < self.out@.len()
        &&& (self.phase == Phase::AwaitRx || self.phase == Phase::Store) ==> self.received@.len()
            < self.read_len
    }

    /// A transfer that writes `bytes` to the 7-bit address `addr` and then
    /// lets the hardware stop the bus.
    pub fn write(id: I2cId, addr: u8, bytes: &[u8]) -> (r: I2cTransfer)
        requires
            bytes@.len() <= 255,
        ensures
            r@ == write_init(id, addr, bytes@),
            r.wf(),
    {
        I2cTransfer {
            id,
            kind: TransferKind::Write,
            addr,
            out: copy_bytes(bytes),
            read_len: 0,
            pos: 0,
            received: Vec::new(),
            phase: Phase::Program,
        }
    }

    /// A transfer that writes `bytes` to the 7-bit address `addr`, then
    /// after a repeated start reads `read_len` bytes from it and lets the
    /// hardware stop the bus.
    pub fn write_read(id: I2cId, addr: u8, bytes: &[u8], read_len: usize) -> (r: I2cTransfer)
        requires
            bytes@.len() <= 255,
            read_len <= 255,
        ensures
            r@ == write_read_init(id, addr, bytes@, read_len as nat),
            r.wf(),
    {
        I2cTransfer {
            id,
            kind: TransferKind::WriteRead,
            addr,
            out: copy_bytes(bytes),
            read_len,
            pos: 0,
            received: Vec::new(),
            phase: Phase::Program,
        }
    }

    /// The bytes received so far.
    pub fn received(&self) -> (r: &Vec<u8>)
        ensures
            r@ == self@.received,
    {
        &self.received
    }

    /// Where the transfer stands.
    pub fn phase(&self) -> (r: Phase)
        ensures
            r == self@.phase,
    {
        self.phase
    }

    fn send_next(&mut self) -> (r: I2cAction)
        requires
            old(self).out@.len() <= 255,
            old(self).read_len <= 255,
            old(self).pos <= old(self).out@.len(),
            old(self).received@.len() <= old(self).read_len,
        ensures
            (final(self)@, r) == send_next(old(self)@),
            final(self).wf(),
    {
        if self.pos < self.out.len() {
            self.phase = Phase::AwaitTx;
            I2cAction::ReadIsr
        } else if self.kind == TransferKind::Write {
            self.phase = Phase::Succeeded;
            I2cAction::Access(clear_flags(self.id))
        } else {
            self.phase = Phase::AwaitComplete;
            I2cAction::ReadIsr
        }
    }

    fn recv_next(&mut self) -> (r: I2cAction)
        requires
            old(self).out@.len() <= 255,
            old(self).read_len <= 255,
            old(self).pos <= old(self).out@.len(),
            old(self).received@.len() <= old(self).read_len,
        ensures
            (final(self)@, r) == recv_next(old(self)@),
            final(self).wf(),
    {
        if self.received.len() < self.read_len {
            self.phase = Phase::AwaitRx;
            I2cAction::ReadIsr
        } else {
            self.phase = Phase::Succeeded;
            I2cAction::Access(clear_flags(self.id))
        }
    }

    /// Advances the transfer by one step. `input` is the value that the read
    /// asked for by the previous action returned; after any other action it
    /// is ignored.
    pub fn step(&mut self, input: u32) -> (r: I2cAction)
        requires
            old(self).wf(),
        ensures
            (final(self)@, r) == next(old(self)@, input),
            final(self).wf(),
    {
        match self.phase {
            Phase::Program => {
                self.phase = Phase::Start;
                I2cAction::Access(
                    write_program(self.id, self.addr, self.out.len(), self.kind == TransferKind::Write),
                )
            },
            Phase::Start => {
                self.phase = if self.kind == TransferKind::Write {
                    Phase::SendNext
                } else {
                    Phase::PollReady
                };
                I2cAction::Access(modify(Register::I2c(self.id, I2cReg::Cr2), 0, CR2_START))
            },
            Phase::SendNext => self.send_next(),
            Phase::PollReady => {
                self.phase = Phase::CheckReady;
                I2cAction::ReadIsr
            },
            Phase::CheckReady => {
                if input & ISR_TXIS == 0 && input & ISR_NACKF == 0 && input & ISR_STOPF == 0 && input
                    & ISR_TC == 0 {
                    I2cAction::ReadIsr
                } else if input & ISR_NACKF != 0 {
                    self.phase = Phase::Failed(Error::NACK);
                    I2cAction::Access(clear_flags(self.id))
                } else {
                    self.send_next()
                }
            },
            Phase::AwaitTx => {
                if input & ISR_TXIS == 0 {
                    I2cAction::ReadIsr
                } else {
                    self.phase = Phase::CheckNack;
                    I2cAction::Access(
                        write_word(Register::I2c(self.id, I2cReg::Txdr), self.out[self.pos] as u32),
                    )
                }
            },
            Phase::CheckNack => {
                self.phase = Phase::NackResult;
                I2cAction::ReadIsr
            },
            Phase::NackResult => {
                if input & ISR_NACKF != 0 {
                    self.phase = Phase::Failed(Error::NACK);
                    I2cAction::Access(clear_flags(self.id))
                } else {
                    self.pos = self.pos + 1;
                    self.send_next()
                }
            },
            Phase::AwaitComplete => {
                if input & ISR_TC == 0 {
                    I2cAction::ReadIsr
                } else {
                    self.phase = Phase::StartRead;
                    I2cAction::Access(read_program(self.id, self.addr, self.read_len))
                }
            },
            Phase::StartRead => {
                self.phase = Phase::AutoEnd;
                I2cAction::Access(modify(Register::I2c(self.id, I2cReg::Cr2), 0, CR2_START))
            },
            Phase::AutoEnd => {
                self.phase = Phase::RecvNext;
                I2cAction::Access(modify(Register::I2c(self.id, I2cReg::Cr2), 0, CR2_AUTOEND))
            },
            Phase::RecvNext => self.recv_next(),
            Phase::AwaitRx => {
                if input & ISR_RXNE == 0 {
                    I2cAction::ReadIsr
                } else {
                    self.phase = Phase::Store;
                    I2cAction::ReadRxdr
                }
            },
            Phase::Store => {
                self.received.push(
                    #[verifier::truncate]
                    (input as u8),
                );
                self.recv_next()
            },
            Phase::Succeeded => I2cAction::Complete,
            Phase::Failed(e) => I2cAction::Fail(e),
        }
    }
}


/// A transfer fed with `inputs` takes exactly one action per input.
pub proof fn lemma_run_len(t: TransferModel, inputs: Seq<u32>)
    ensures
        run(t, inputs).len() == inputs.len(),
    decreases inputs.len(),
{
    if inputs.len() > 0 {
        lemma_run_len(next(t, inputs[0]).0, inputs.drop_first());
    }
}

/// Once a transfer has finished, every further step reports the same outcome.
pub proof fn lemma_finished_is_final(t: TransferModel, inputs: Seq<u32>)
    requires
        t.phase == Phase::Succeeded || t.phase is Failed,
    ensures
        forall|k: int|
            0 <= k < run(t, inputs).len() ==> #[trigger] run(t, inputs)[k] == match t.phase {
                Phase::Failed(e) => I2cAction::Fail(e),
                _ => I2cAction::Complete,
            },
    decreases inputs.len(),
{
    if inputs.len() > 0 {
        let t1 = next(t, inputs[0]).0;
        assert(t1 == t);
        lemma_finished_is_final(t1, inputs.drop_first());
        let rest = run(t1, inputs.drop_first());
        assert forall|k: int| 0 <= k < run(t, inputs).len() implies #[trigger] run(t, inputs)[k]
            == match t.phase {
            Phase::Failed(e) => I2cAction::Fail(e),
            _ => I2cAction::Complete,
        } by {
            if k > 0 {
                assert(run(t, inputs)[k] == rest[k - 1]);
            }
        }
    }
}

/// A write of no bytes is a presence probe: it programs the address with a
/// byte count of zero and the automatic stop, asserts start, clears the
/// flags and succeeds, whatever the reads return. The hardware then issues a
/// start and a stop with no data between them.
pub proof fn lemma_empty_write_probes(id: I2cId, addr: u8, inputs: Seq<u32>)
    ensures
        run(write_init(id, addr, seq![]), inputs).len() == inputs.len(),
        forall|k: int|
            0 <= k < inputs.len() ==> #[trigger] run(write_init(id, addr, seq![]), inputs)[k] == if k
                == 0 {
                I2cAction::Access(write_program_op(id, addr, 0, true))
            } else if k == 1 {
                I2cAction::Access(start_op(id))
            } else if k == 2 {
                I2cAction::Access(clear_flags_op(id))
            } else {
                I2cAction::Complete
            },
    decreases inputs.len(),
{
    let t0 = write_init(id, addr, seq![]);
    lemma_run_len(t0, inputs);
    if inputs.len() > 0 {
        let i1 = inputs.drop_first();
        let t1 = next(t0, inputs[0]).0;
        assert(t1.phase == Phase::Start);
        lemma_run_len(t1, i1);
        if i1.len() > 0 {
            let i2 = i1.drop_first();
            let t2 = next(t1, i1[0]).0;
            assert(t2.phase == Phase::SendNext);
            lemma_run_len(t2, i2);
            if i2.len() > 0 {
                let i3 = i2.drop_first();
                let t3 = next(t2, i2[0]).0;
                assert(t3.phase == Phase::Succeeded);
                lemma_finished_is_final(t3, i3);
                lemma_run_len(t3, i3);
                let r3 = run(t3, i3);
                assert forall|k: int| 0 <= k < inputs.len() implies #[trigger] run(t0, inputs)[k]
                    == if k == 0 {
                    I2cAction::Access(write_program_op(id, addr, 0, true))
                } else if k == 1 {
                    I2cAction::Access(start_op(id))
                } else if k == 2 {
                    I2cAction::Access(clear_flags_op(id))
                } else {
                    I2cAction::Complete
                } by {
                    if k >= 3 {
                        assert(run(t0, inputs)[k] == r3[k - 3]);
                    }
                }
            }
        }
    }
}

/// In a write-read transfer, a not-acknowledge seen during the write phase
/// (while waiting for the address to be answered, or after a byte) clears
/// the flags and fails the transfer with `NACK`; every later step reports
/// that failure, so the read phase is never programmed.
pub proof fn lemma_write_phase_nack_aborts(t: TransferModel, isr: u32, inputs: Seq<u32>)
    requires
        t.kind == TransferKind::WriteRead,
        t.phase == Phase::CheckReady || t.phase == Phase::NackResult,
        flag(isr, ISR_NACKF),
    ensures
        next(t, isr).1 == I2cAction::Access(clear_flags_op(t.id)),
        next(t, isr).0.phase == Phase::Failed(Error::NACK),
        forall|k: int|
            0 <= k < inputs.len() ==> #[trigger] run(next(t, isr).0, inputs)[k] == I2cAction::Fail(
                Error::NACK,
            ),
{
    lemma_run_len(next(t, isr).0, inputs);
    lemma_finished_is_final(next(t, isr).0, inputs);
}


/// The actions that send `bytes` one after the other: for each, a status
/// read, the write to the transmit register, and a status read.
pub open spec fn send_actions(id: I2cId, bytes: Seq<u8>) -> Seq<I2cAction>
    decreases bytes.len(),
{
    if bytes.len() == 0 {
        seq![]
    } else {
        seq![
            I2cAction::ReadIsr,
            I2cAction::Access(transmit_op(id, bytes[0])),
            I2cAction::ReadIsr,
        ] + send_actions(id, bytes.drop_first())
    }
}

/// Is every element of `inputs` equal to `word`?
pub open spec fn all_equal(inputs: Seq<u32>, word: u32) -> bool {
    forall|i: int| 0 <= i < inputs.len() ==> #[trigger] inputs[i] == word
}

proof fn lemma_run_unfold(t: TransferModel, inputs: Seq<u32>)
    requires
        inputs.len() > 0,
    ensures
        run(t, inputs) == seq![next(t, inputs[0]).1] + run(next(t, inputs[0]).0, inputs.drop_first()),
{
}

proof fn lemma_send_from(t: TransferModel, isr: u32, inputs: Seq<u32>)
    requires
        t.kind == TransferKind::Write,
        t.phase == Phase::SendNext,
        t.pos <= t.out.len(),
        flag(isr, ISR_TXIS),
        !flag(isr, ISR_NACKF),
        inputs.len() == 3 * (t.out.len() - t.pos) + 2,
        all_equal(inputs, isr),
    ensures
        run(t, inputs) == send_actions(t.id, t.out.subrange(t.pos as int, t.out.len() as int))
            + seq![I2cAction::Access(clear_flags_op(t.id)), I2cAction::Complete],
    decreases t.out.len() - t.pos,
{
    let rest = t.out.subrange(t.pos as int, t.out.len() as int);
    let tail = seq![I2cAction::Access(clear_flags_op(t.id)), I2cAction::Complete];
    let i1 = inputs.drop_first();
    let i2 = i1.drop_first();
    let i3 = i2.drop_first();
    lemma_run_unfold(t, inputs);
    let t1 = next(t, inputs[0]).0;
    lemma_run_unfold(t1, i1);
    let t2 = next(t1, i1[0]).0;
    if t.pos == t.out.len() {
        assert(rest =~= Seq::<u8>::empty());
        assert(t2.phase == Phase::Succeeded);
        assert(i2.len() == 0);
        assert(run(t, inputs) =~= tail);
    } else {
        assert(inputs[0] == isr);
        assert(i1[0] == isr);
        assert(i2[0] == isr);
        assert(i3.len() > 0 ==> i3[0] == isr);
        lemma_run_unfold(t2, i2);
        let t3 = next(t2, i2[0]).0;
        lemma_run_unfold(t3, i3);
        let t4 = TransferModel { pos: t.pos + 1, ..t };
        assert(next(t3, i3[0]) == next(t4, i3[0]));
        lemma_run_unfold(t4, i3);
        assert(all_equal(i3, isr)) by {
            assert forall|i: int| 0 <= i < i3.len() implies #[trigger] i3[i] == isr by {
                assert(i3[i] == inputs[i + 3]);
            }
        }
        lemma_send_from(t4, isr, i3);
        assert(rest[0] == t.out[t.pos as int]);
        assert(rest.drop_first() =~= t4.out.subrange(t4.pos as int, t4.out.len() as int));
        assert(run(t, inputs) =~= send_actions(t.id, rest) + tail);
    }
}

/// Fed a status that always shows transmit-ready and never not-acknowledge,
/// a write transfer programs the address with the byte count and the
/// automatic stop, asserts start, sends its bytes in order (each between two
/// status reads), clears the flags and succeeds.
pub proof fn lemma_write_sends_all(id: I2cId, addr: u8, bytes: Seq<u8>, isr: u32, inputs: Seq<u32>)
    requires
        flag(isr, ISR_TXIS),
        !flag(isr, ISR_NACKF),
        inputs.len() == 3 * bytes.len() + 4,
        all_equal(inputs, isr),
    ensures
        run(write_init(id, addr, bytes), inputs) == seq![
            I2cAction::Access(write_program_op(id, addr, bytes.len(), true)),
            I2cAction::Access(start_op(id)),
        ] + send_actions(id, bytes) + seq![
            I2cAction::Access(clear_flags_op(id)),
            I2cAction::Complete,
        ],
{
    let t0 = write_init(id, addr, bytes);
    let i1 = inputs.drop_first();
    let i2 = i1.drop_first();
    lemma_run_unfold(t0, inputs);
    let t1 = next(t0, inputs[0]).0;
    lemma_run_unfold(t1, i1);
    let t2 = next(t1, i1[0]).0;
    assert(all_equal(i2, isr)) by {
        assert forall|i: int| 0 <= i < i2.len() implies #[trigger] i2[i] == isr by {
            assert(i2[i] == inputs[i + 2]);
        }
    }
    assert(t2.out.subrange(0, bytes.len() as int) =~= bytes);
    lemma_send_from(t2, isr, i2);
    assert(run(t0, inputs) =~= seq![
        I2cAction::Access(write_program_op(id, addr, bytes.len(), true)),
        I2cAction::Access(start_op(id)),
    ] + send_actions(id, bytes) + seq![I2cAction::Access(clear_flags_op(id)), I2cAction::Complete]);
}


/// The state a transfer reaches when fed with `inputs`, one step per input.
pub open spec fn final_state(t: TransferModel, inputs: Seq<u32>) -> TransferModel
    decreases inputs.len(),
{
    if inputs.len() == 0 {
        t
    } else {
        final_state(next(t, inputs[0]).0, inputs.drop_first())
    }
}

/// The reads of a receive phase in which every status read returns `isr`
/// and the receive register returns the bytes of `data` in order.
pub open spec fn recv_inputs(isr: u32, data: Seq<u8>) -> Seq<u32>
    decreases data.len(),
{
    if data.len() == 0 {
        seq![]
    } else {
        seq![isr, data[0] as u32] + recv_inputs(isr, data.drop_first())
    }
}

proof fn lemma_recv_from(t: TransferModel, isr: u32, data: Seq<u8>)
    requires
        t.phase == Phase::AwaitRx,
        flag(isr, ISR_RXNE),
        data.len() > 0,
        t.received.len() + data.len() == t.read_len,
    ensures
        final_state(t, recv_inputs(isr, data)) == (TransferModel {
            received: t.received + data,
            phase: Phase::Succeeded,
            ..t
        }),
    decreases data.len(),
{
    let inputs = recv_inputs(isr, data);
    let rest = data.drop_first();
    assert(inputs == seq![isr, data[0] as u32] + recv_inputs(isr, rest));
    assert(inputs[0] == isr);
    assert(inputs.drop_first()[0] == data[0] as u32);
    assert(inputs.drop_first().drop_first() =~= recv_inputs(isr, rest));
    let t1 = next(t, isr).0;
    assert(t1.phase == Phase::Store);
    let t2 = next(t1, data[0] as u32).0;
    assert(t2.received == t.received.push(data[0]));
    assert(final_state(t, inputs) == final_state(t1, inputs.drop_first()));
    assert(final_state(t1, inputs.drop_first()) == final_state(
        t2,
        inputs.drop_first().drop_first(),
    ));
    if rest.len() == 0 {
        assert(recv_inputs(isr, rest) =~= Seq::<u32>::empty());
        assert(t.received + data =~= t.received.push(data[0]));
    } else {
        lemma_recv_from(t2, isr, rest);
        assert(t2.received + rest =~= t.received + data);
    }
}

/// Once the repeated start and the automatic stop are programmed, a transfer
/// whose status reads show receive-ready stores exactly the bytes that the
/// receive register returns, in order, and succeeds. The first input is the
/// one passed after the automatic stop was turned on, and is ignored.
pub proof fn lemma_read_phase_receives(t: TransferModel, first: u32, isr: u32, data: Seq<u8>)
    requires
        t.phase == Phase::RecvNext,
        t.received.len() == 0,
        t.read_len == data.len(),
        flag(isr, ISR_RXNE),
    ensures
        final_state(t, seq![first] + recv_inputs(isr, data)) == (TransferModel {
            received: data,
            phase: Phase::Succeeded,
            ..t
        }),
{
    let inputs = seq![first] + recv_inputs(isr, data);
    assert(inputs.drop_first() =~= recv_inputs(isr, data));
    let t1 = next(t, first).0;
    assert(final_state(t, inputs) == final_state(t1, inputs.drop_first()));
    if data.len() == 0 {
        assert(recv_inputs(isr, data) =~= Seq::<u32>::empty());
        assert(data =~= t.received);
    } else {
        lemma_recv_from(t1, isr, data);
        assert(t1.received + data =~= data);
    }
}


/// Every input equals `ok`, except the one at `at`, which equals `bad`.
pub open spec fn one_refusal(inputs: Seq<u32>, at: int, ok: u32, bad: u32) -> bool {
    forall|i: int|
        0 <= i < inputs.len() ==> #[trigger] inputs[i] == if i == at {
            bad
        } else {
            ok
        }
}

proof fn lemma_send_refused(t: TransferModel, ok: u32, bad: u32, k: nat, inputs: Seq<u32>)
    requires
        t.phase == Phase::SendNext,
        t.pos + k < t.out.len(),
        flag(ok, ISR_TXIS),
        !flag(ok, ISR_NACKF),
        flag(bad, ISR_NACKF),
        inputs.len() == 3 * k + 5,
        one_refusal(inputs, (3 * k + 3) as int, ok, bad),
    ensures
        run(t, inputs) == send_actions(t.id, t.out.subrange(t.pos as int, (t.pos + k + 1) as int))
            + seq![I2cAction::Access(clear_flags_op(t.id)), I2cAction::Fail(Error::NACK)],
    decreases k,
{
    let sent = t.out.subrange(t.pos as int, (t.pos + k + 1) as int);
    let tail = seq![I2cAction::Access(clear_flags_op(t.id)), I2cAction::Fail(Error::NACK)];
    let i1 = inputs.drop_first();
    let i2 = i1.drop_first();
    let i3 = i2.drop_first();
    assert(i1[0] == inputs[1]);
    assert(i3[0] == inputs[3]);
    lemma_run_unfold(t, inputs);
    let t1 = next(t, inputs[0]).0;
    lemma_run_unfold(t1, i1);
    let t2 = next(t1, i1[0]).0;
    lemma_run_unfold(t2, i2);
    let t3 = next(t2, i2[0]).0;
    assert(t3.phase == Phase::NackResult && t3.pos == t.pos);
    lemma_run_unfold(t3, i3);
    assert(sent[0] == t.out[t.pos as int]);
    assert(send_actions(t.id, sent) == seq![
        I2cAction::ReadIsr,
        I2cAction::Access(transmit_op(t.id, t.out[t.pos as int])),
        I2cAction::ReadIsr,
    ] + send_actions(t.id, sent.drop_first()));
    if k == 0 {
        let t4 = next(t3, i3[0]).0;
        let i4 = i3.drop_first();
        assert(t4.phase == Phase::Failed(Error::NACK));
        lemma_run_unfold(t4, i4);
        assert(i4.drop_first().len() == 0);
        assert(sent.drop_first() =~= Seq::<u8>::empty());
        assert(run(t, inputs) =~= send_actions(t.id, sent) + tail);
    } else {
        let t4 = TransferModel { phase: Phase::SendNext, pos: t.pos + 1, ..t };
        assert(next(t3, i3[0]) == next(t4, i3[0]));
        lemma_run_unfold(t4, i3);
        assert(one_refusal(i3, (3 * (k - 1) + 3) as int, ok, bad)) by {
            assert forall|i: int| 0 <= i < i3.len() implies #[trigger] i3[i] == if i == 3 * (k - 1)
                + 3 {
                bad
            } else {
                ok
            } by {
                assert(i3[i] == inputs[i + 3]);
            }
        }
        lemma_send_refused(t4, ok, bad, (k - 1) as nat, i3);
        assert(sent.drop_first() =~= t4.out.subrange(t4.pos as int, (t4.pos + (k - 1) + 1) as int));
        assert(run(t, inputs) =~= send_actions(t.id, sent) + tail);
    }
}

/// A write whose target accepts the address and the first `k` bytes and
/// refuses byte `k` programs the address once, asserts start once, writes
/// exactly the bytes up to and including byte `k` to the transmit register,
/// clears the flags and fails with `NACK`; nothing further is sent.
pub proof fn lemma_write_refused_at(
    id: I2cId,
    addr: u8,
    bytes: Seq<u8>,
    k: nat,
    ok: u32,
    bad: u32,
    inputs: Seq<u32>,
)
    requires
        k < bytes.len(),
        flag(ok, ISR_TXIS),
        !flag(ok, ISR_NACKF),
        flag(bad, ISR_NACKF),
        inputs.len() == 3 * k + 7,
        one_refusal(inputs, (3 * k + 5) as int, ok, bad),
    ensures
        run(write_init(id, addr, bytes), inputs) == seq![
            I2cAction::Access(write_program_op(id, addr, bytes.len(), true)),
            I2cAction::Access(start_op(id)),
        ] + send_actions(id, bytes.take((k + 1) as int)) + seq![
            I2cAction::Access(clear_flags_op(id)),
            I2cAction::Fail(Error::NACK),
        ],
{
    let t0 = write_init(id, addr, bytes);
    let i1 = inputs.drop_first();
    let i2 = i1.drop_first();
    lemma_run_unfold(t0, inputs);
    let t1 = next(t0, inputs[0]).0;
    lemma_run_unfold(t1, i1);
    let t2 = next(t1, i1[0]).0;
    assert(t2.phase == Phase::SendNext && t2.pos == 0 && t2.out == bytes);
    assert(one_refusal(i2, (3 * k + 3) as int, ok, bad)) by {
        assert forall|i: int| 0 <= i < i2.len() implies #[trigger] i2[i] == if i == 3 * k + 3 {
            bad
        } else {
            ok
        } by {
            assert(i2[i] == inputs[i + 2]);
        }
    }
    lemma_send_refused(t2, ok, bad, k, i2);
    assert(bytes.subrange(0, (k + 1) as int) =~= bytes.take((k + 1) as int));
    assert(run(t0, inputs) =~= seq![
        I2cAction::Access(write_program_op(id, addr, bytes.len(), true)),
        I2cAction::Access(start_op(id)),
    ] + send_actions(id, bytes.take((k + 1) as int)) + seq![
        I2cAction::Access(clear_flags_op(id)),
        I2cAction::Fail(Error::NACK),
    ]);
}

/// A write-read whose target accepts the address and the first `k` bytes
/// and refuses byte `k` asserts start once, writes exactly the bytes up to
/// and including byte `k` to the transmit register, clears the flags and
/// fails with `NACK`: the read phase is never programmed, and the receive
/// register is never read.
pub proof fn lemma_write_read_refused_at(
    id: I2cId,
    addr: u8,
    bytes: Seq<u8>,
    read_len: nat,
    k: nat,
    ok: u32,
    bad: u32,
    inputs: Seq<u32>,
)
    requires
        k < bytes.len(),
        flag(ok, ISR_TXIS),
        !flag(ok, ISR_NACKF),
        flag(bad, ISR_NACKF),
        inputs.len() == 3 * k + 8,
        one_refusal(inputs, (3 * k + 6) as int, ok, bad),
    ensures
        run(write_read_init(id, addr, bytes, read_len), inputs) == seq![
            I2cAction::Access(write_program_op(id, addr, bytes.len(), false)),
            I2cAction::Access(start_op(id)),
            I2cAction::ReadIsr,
        ] + send_actions(id, bytes.take((k + 1) as int)) + seq![
            I2cAction::Access(clear_flags_op(id)),
            I2cAction::Fail(Error::NACK),
        ],
{
    let t0 = write_read_init(id, addr, bytes, read_len);
    let i1 = inputs.drop_first();
    let i2 = i1.drop_first();
    let i3 = i2.drop_first();
    assert(i3[0] == inputs[3]);
    lemma_run_unfold(t0, inputs);
    let t1 = next(t0, inputs[0]).0;
    lemma_run_unfold(t1, i1);
    let t2 = next(t1, i1[0]).0;
    lemma_run_unfold(t2, i2);
    let t3 = next(t2, i2[0]).0;
    assert(t3.phase == Phase::CheckReady && t3.pos == 0 && t3.out == bytes);
    let t4 = TransferModel { phase: Phase::SendNext, ..t3 };
    assert(next(t3, i3[0]) == next(t4, i3[0]));
    lemma_run_unfold(t3, i3);
    lemma_run_unfold(t4, i3);
    assert(one_refusal(i3, (3 * k + 3) as int, ok, bad)) by {
        assert forall|i: int| 0 <= i < i3.len() implies #[trigger] i3[i] == if i == 3 * k + 3 {
            bad
        } else {
            ok
        } by {
            assert(i3[i] == inputs[i + 3]);
        }
    }
    lemma_send_refused(t4, ok, bad, k, i3);
    assert(bytes.subrange(0, (k + 1) as int) =~= bytes.take((k + 1) as int));
    assert(run(t0, inputs) =~= seq![
        I2cAction::Access(write_program_op(id, addr, bytes.len(), false)),
        I2cAction::Access(start_op(id)),
        I2cAction::ReadIsr,
    ] + send_actions(id, bytes.take((k + 1) as int)) + seq![
        I2cAction::Access(clear_flags_op(id)),
        I2cAction::Fail(Error::NACK),
    ]);
}


/// Does the status word `isr` show none of the flags that end the wait for
/// the address to be answered?
pub open spec fn idle_status(isr: u32) -> bool {
    !flag(isr, ISR_TXIS) && !flag(isr, ISR_NACKF) && !flag(isr, ISR_STOPF) && !flag(isr, ISR_TC)
}

proof fn lemma_wait_then_refused(t: TransferModel, idle: u32, bad: u32, w: nat, inputs: Seq<u32>)
    requires
        t.phase == Phase::CheckReady,
        idle_status(idle),
        flag(bad, ISR_NACKF),
        inputs.len() == w + 2,
        forall|i: int| 0 <= i < w ==> #[trigger] inputs[i] == idle,
        inputs[w as int] == bad,
    ensures
        run(t, inputs) == Seq::new(w, |i: int| I2cAction::ReadIsr) + seq![
            I2cAction::Access(clear_flags_op(t.id)),
            I2cAction::Fail(Error::NACK),
        ],
    decreases w,
{
    let tail = seq![I2cAction::Access(clear_flags_op(t.id)), I2cAction::Fail(Error::NACK)];
    let i1 = inputs.drop_first();
    lemma_run_unfold(t, inputs);
    let t1 = next(t, inputs[0]).0;
    if w == 0 {
        assert(t1.phase == Phase::Failed(Error::NACK));
        lemma_run_unfold(t1, i1);
        assert(i1.drop_first().len() == 0);
        assert(run(t, inputs) =~= Seq::new(w, |i: int| I2cAction::ReadIsr) + tail);
    } else {
        assert(t1 == t);
        assert forall|i: int| 0 <= i < w - 1 implies #[trigger] i1[i] == idle by {
            assert(i1[i] == inputs[i + 1]);
        }
        assert(i1[w - 1] == inputs[w as int]);
        lemma_wait_then_refused(t, idle, bad, (w - 1) as nat, i1);
        assert(run(t, inputs) =~= Seq::new(w, |i: int| I2cAction::ReadIsr) + tail);
    }
}

/// A write-read whose address is refused, after `w` status reads that show
/// none of transmit-ready, not-acknowledge, stop or transfer-complete,
/// programs the write phase, asserts start once, reads the status until the
/// refusal shows, clears the flags and fails with `NACK`: no byte is
/// written, the read phase is never programmed and the receive register is
/// never read.
pub proof fn lemma_write_read_address_refused(
    id: I2cId,
    addr: u8,
    bytes: Seq<u8>,
    read_len: nat,
    idle: u32,
    bad: u32,
    w: nat,
    inputs: Seq<u32>,
)
    requires
        idle_status(idle),
        flag(bad, ISR_NACKF),
        inputs.len() == w + 5,
        forall|i: int| 3 <= i < w + 3 ==> #[trigger] inputs[i] == idle,
        inputs[w + 3int] == bad,
    ensures
        run(write_read_init(id, addr, bytes, read_len), inputs) == seq![
            I2cAction::Access(write_program_op(id, addr, bytes.len(), false)),
            I2cAction::Access(start_op(id)),
            I2cAction::ReadIsr,
        ] + Seq::new(w, |i: int| I2cAction::ReadIsr) + seq![
            I2cAction::Access(clear_flags_op(id)),
            I2cAction::Fail(Error::NACK),
        ],
{
    let t0 = write_read_init(id, addr, bytes, read_len);
    let i1 = inputs.drop_first();
    let i2 = i1.drop_first();
    let i3 = i2.drop_first();
    lemma_run_unfold(t0, inputs);
    let t1 = next(t0, inputs[0]).0;
    lemma_run_unfold(t1, i1);
    let t2 = next(t1, i1[0]).0;
    lemma_run_unfold(t2, i2);
    let t3 = next(t2, i2[0]).0;
    assert(t3.phase == Phase::CheckReady && t3.id == id);
    assert forall|i: int| 0 <= i < w implies #[trigger] i3[i] == idle by {
        assert(i3[i] == inputs[i + 3]);
    }
    assert(i3[w as int] == inputs[w + 3int]);
    lemma_wait_then_refused(t3, idle, bad, w, i3);
    assert(run(t0, inputs) =~= seq![
        I2cAction::Access(write_program_op(id, addr, bytes.len(), false)),
        I2cAction::Access(start_op(id)),
        I2cAction::ReadIsr,
    ] + Seq::new(w, |i: int| I2cAction::ReadIsr) + seq![
        I2cAction::Access(clear_flags_op(id)),
        I2cAction::Fail(Error::NACK),
    ]);
}


/// The actions of a receive phase of `n` bytes from its first step: for each
/// byte a status read and a read of the receive register, then the flags
/// are cleared.
pub open spec fn recv_actions(id: I2cId, n: nat) -> Seq<I2cAction>
    decreases n,
{
    if n == 0 {
        seq![I2cAction::Access(clear_flags_op(id))]
    } else {
        seq![I2cAction::ReadIsr, I2cAction::ReadRxdr] + recv_actions(id, (n - 1) as nat)
    }
}

proof fn lemma_final_unfold(t: TransferModel, inputs: Seq<u32>)
    requires
        inputs.len() > 0,
    ensures
        final_state(t, inputs) == final_state(next(t, inputs[0]).0, inputs.drop_first()),
{
}

proof fn lemma_run_concat(t: TransferModel, a: Seq<u32>, b: Seq<u32>)
    ensures
        run(t, a + b) == run(t, a) + run(final_state(t, a), b),
        final_state(t, a + b) == final_state(final_state(t, a), b),
    decreases a.len(),
{
    if a.len() == 0 {
        assert(a + b =~= b);
        assert(run(t, a) =~= Seq::<I2cAction>::empty());
        assert(run(t, a + b) =~= run(t, a) + run(final_state(t, a), b));
    } else {
        let t1 = next(t, a[0]).0;
        assert((a + b)[0] == a[0]);
        assert((a + b).drop_first() =~= a.drop_first() + b);
        lemma_run_unfold(t, a + b);
        lemma_run_unfold(t, a);
        lemma_final_unfold(t, a + b);
        lemma_final_unfold(t, a);
        lemma_run_concat(t1, a.drop_first(), b);
        assert(run(t, a + b) =~= run(t, a) + run(final_state(t, a), b));
    }
}

proof fn lemma_same_step(t1: TransferModel, t2: TransferModel, inputs: Seq<u32>)
    requires
        inputs.len() > 0,
        next(t1, inputs[0]) == next(t2, inputs[0]),
    ensures
        run(t1, inputs) == run(t2, inputs),
        final_state(t1, inputs) == final_state(t2, inputs),
{
    lemma_run_unfold(t1, inputs);
    lemma_run_unfold(t2, inputs);
    lemma_final_unfold(t1, inputs);
    lemma_final_unfold(t2, inputs);
}

proof fn lemma_send_ok(t: TransferModel, ok: u32, inputs: Seq<u32>)
    requires
        t.phase == Phase::SendNext,
        t.pos <= t.out.len(),
        flag(ok, ISR_TXIS),
        !flag(ok, ISR_NACKF),
        inputs.len() == 3 * (t.out.len() - t.pos) + 1,
        all_equal(inputs, ok),
    ensures
        run(t, inputs) == send_actions(t.id, t.out.subrange(t.pos as int, t.out.len() as int))
            + seq![send_next(TransferModel { pos: t.out.len(), ..t }).1],
        final_state(t, inputs) == send_next(TransferModel { pos: t.out.len(), ..t }).0,
    decreases t.out.len() - t.pos,
{
    let rest = t.out.subrange(t.pos as int, t.out.len() as int);
    let t_end = TransferModel { pos: t.out.len(), ..t };
    let i1 = inputs.drop_first();
    lemma_run_unfold(t, inputs);
    lemma_final_unfold(t, inputs);
    let t1 = next(t, inputs[0]).0;
    if t.pos == t.out.len() {
        assert(t == t_end);
        assert(rest =~= Seq::<u8>::empty());
        assert(i1.len() == 0);
        assert(run(t, inputs) =~= send_actions(t.id, rest) + seq![send_next(t_end).1]);
    } else {
        let i2 = i1.drop_first();
        let i3 = i2.drop_first();
        assert(i1[0] == inputs[1]);
        assert(i3[0] == inputs[3]);
        lemma_run_unfold(t1, i1);
        lemma_final_unfold(t1, i1);
        let t2 = next(t1, i1[0]).0;
        lemma_run_unfold(t2, i2);
        lemma_final_unfold(t2, i2);
        let t3 = next(t2, i2[0]).0;
        let t4 = TransferModel { pos: t.pos + 1, ..t };
        assert(next(t3, i3[0]) == next(t4, i3[0]));
        lemma_same_step(t3, t4, i3);
        assert(all_equal(i3, ok)) by {
            assert forall|i: int| 0 <= i < i3.len() implies #[trigger] i3[i] == ok by {
                assert(i3[i] == inputs[i + 3]);
            }
        }
        lemma_send_ok(t4, ok, i3);
        assert(TransferModel { pos: t4.out.len(), ..t4 } == t_end);
        assert(rest[0] == t.out[t.pos as int]);
        assert(rest.drop_first() =~= t4.out.subrange(t4.pos as int, t4.out.len() as int));
        assert(run(t, inputs) =~= send_actions(t.id, rest) + seq![send_next(t_end).1]);
    }
}

proof fn lemma_recv_run(t: TransferModel, isr: u32, data: Seq<u8>)
    requires
        t.phase == Phase::AwaitRx,
        flag(isr, ISR_RXNE),
        data.len() > 0,
        t.received.len() + data.len() == t.read_len,
    ensures
        run(t, recv_inputs(isr, data)) == seq![I2cAction::ReadRxdr] + recv_actions(
            t.id,
            (data.len() - 1) as nat,
        ),
    decreases data.len(),
{
    let inputs = recv_inputs(isr, data);
    let rest = data.drop_first();
    assert(inputs == seq![isr, data[0] as u32] + recv_inputs(isr, rest));
    let i1 = inputs.drop_first();
    let i2 = i1.drop_first();
    assert(inputs[0] == isr);
    assert(i1[0] == data[0] as u32);
    assert(i2 =~= recv_inputs(isr, rest));
    lemma_run_unfold(t, inputs);
    let t1 = next(t, isr).0;
    lemma_run_unfold(t1, i1);
    let t2 = next(t1, data[0] as u32).0;
    assert(t2.received == t.received.push(data[0]));
    if rest.len() == 0 {
        assert(i2.len() == 0);
        assert(run(t, inputs) =~= seq![I2cAction::ReadRxdr] + recv_actions(t.id, 0));
    } else {
        assert(t2.phase == Phase::AwaitRx);
        lemma_recv_run(t2, isr, rest);
        assert(recv_actions(t.id, (data.len() - 1) as nat) == seq![
            I2cAction::ReadIsr,
            I2cAction::ReadRxdr,
        ] + recv_actions(t.id, (rest.len() - 1) as nat));
        assert(run(t, inputs) =~= seq![I2cAction::ReadRxdr] + recv_actions(
            t.id,
            (data.len() - 1) as nat,
        ));
    }
}

/// A write-read against a target that answers every status read with
/// transmit-ready, transfer-complete and receive-ready and never refuses,
/// and whose receive register returns the bytes of `data` in order:
/// the write phase is programmed without automatic stop, start is asserted,
/// every byte of `bytes` is sent in order, and only after transfer-complete
/// is the read phase programmed and start asserted again (a repeated start,
/// with no flag clearing between the two), then the automatic stop is
/// turned on, every byte is received, the flags are cleared and the transfer
/// succeeds holding exactly `data`.
pub proof fn lemma_write_read_succeeds(
    id: I2cId,
    addr: u8,
    bytes: Seq<u8>,
    data: Seq<u8>,
    ok: u32,
    inputs: Seq<u32>,
)
    requires
        flag(ok, ISR_TXIS),
        flag(ok, ISR_TC),
        flag(ok, ISR_RXNE),
        !flag(ok, ISR_NACKF),
        inputs == Seq::new(3 * bytes.len() + 8, |i: int| ok) + recv_inputs(ok, data) + seq![ok],
    ensures
        run(write_read_init(id, addr, bytes, data.len()), inputs) == seq![
            I2cAction::Access(write_program_op(id, addr, bytes.len(), false)),
            I2cAction::Access(start_op(id)),
            I2cAction::ReadIsr,
        ] + send_actions(id, bytes) + seq![
            I2cAction::ReadIsr,
            I2cAction::Access(read_program_op(id, addr, data.len())),
            I2cAction::Access(start_op(id)),
            I2cAction::Access(autoend_op(id)),
        ] + recv_actions(id, data.len()) + seq![I2cAction::Complete],
        final_state(write_read_init(id, addr, bytes, data.len()), inputs).received == data,
        final_state(write_read_init(id, addr, bytes, data.len()), inputs).phase
            == Phase::Succeeded,
{
    let n = data.len();
    let t0 = write_read_init(id, addr, bytes, n);
    let w1 = Seq::new(3, |i: int| ok);
    let w2 = Seq::new(3 * bytes.len() + 1, |i: int| ok);
    let w3 = Seq::new(4, |i: int| ok);
    let r = recv_inputs(ok, data);
    let l = seq![ok];
    assert(inputs =~= w1 + (w2 + (w3 + (r + l))));

    // Program, start, first status read.
    lemma_run_concat(t0, w1, w2 + (w3 + (r + l)));
    let a1 = w1.drop_first();
    let a2 = a1.drop_first();
    lemma_run_unfold(t0, w1);
    lemma_final_unfold(t0, w1);
    let t1 = next(t0, ok).0;
    lemma_run_unfold(t1, a1);
    lemma_final_unfold(t1, a1);
    let t2 = next(t1, ok).0;
    lemma_run_unfold(t2, a2);
    lemma_final_unfold(t2, a2);
    assert(a2.drop_first().len() == 0);
    let s1 = final_state(t0, w1);
    assert(s1.phase == Phase::CheckReady && s1.pos == 0 && s1.out == bytes);
    assert(run(t0, w1) =~= seq![
        I2cAction::Access(write_program_op(id, addr, bytes.len(), false)),
        I2cAction::Access(start_op(id)),
        I2cAction::ReadIsr,
    ]);

    // The bytes of the write phase.
    let s1s = TransferModel { phase: Phase::SendNext, ..s1 };
    let rest2 = w2 + (w3 + (r + l));
    assert(rest2[0] == ok);
    assert(next(s1, ok) == next(s1s, ok));
    lemma_same_step(s1, s1s, rest2);
    lemma_run_concat(s1s, w2, w3 + (r + l));
    assert(all_equal(w2, ok));
    lemma_send_ok(s1s, ok, w2);
    assert(s1s.out.subrange(0, bytes.len() as int) =~= bytes);
    let s2 = final_state(s1s, w2);
    assert(s2.phase == Phase::AwaitComplete && s2.received.len() == 0 && s2.read_len == n);

    // Transfer-complete, read programming, repeated start, automatic stop,
    // first step of the receive phase.
    lemma_run_concat(s2, w3, r + l);
    let b1 = w3.drop_first();
    let b2 = b1.drop_first();
    let b3 = b2.drop_first();
    lemma_run_unfold(s2, w3);
    lemma_final_unfold(s2, w3);
    let u1 = next(s2, ok).0;
    lemma_run_unfold(u1, b1);
    lemma_final_unfold(u1, b1);
    let u2 = next(u1, ok).0;
    lemma_run_unfold(u2, b2);
    lemma_final_unfold(u2, b2);
    let u3 = next(u2, ok).0;
    assert(u3.phase == Phase::RecvNext);
    lemma_run_unfold(u3, b3);
    lemma_final_unfold(u3, b3);
    assert(b3.drop_first().len() == 0);
    let s3 = final_state(s2, w3);
    lemma_run_concat(s3, r, l);
    let s4 = final_state(s3, r);
    lemma_run_unfold(s4, l);
    if n == 0 {
        assert(r =~= Seq::<u32>::empty());
        assert(s3.phase == Phase::Succeeded);
        assert(data =~= Seq::<u8>::empty());
        assert(run(s2, w3) =~= seq![
            I2cAction::Access(read_program_op(id, addr, n)),
            I2cAction::Access(start_op(id)),
            I2cAction::Access(autoend_op(id)),
        ] + seq![I2cAction::Access(clear_flags_op(id))]);
    } else {
        assert(s3.phase == Phase::AwaitRx && s3.received.len() == 0);
        lemma_recv_run(s3, ok, data);
        lemma_recv_from(s3, ok, data);
        assert(s3.received + data =~= data);
        assert(recv_actions(id, n) == seq![I2cAction::ReadIsr, I2cAction::ReadRxdr] + recv_actions(
            id,
            (n - 1) as nat,
        ));
        assert(run(s2, w3) + run(s3, r) =~= seq![
            I2cAction::Access(read_program_op(id, addr, n)),
            I2cAction::Access(start_op(id)),
            I2cAction::Access(autoend_op(id)),
        ] + recv_actions(id, n));
    }
    lemma_final_unfold(s4, l);
    assert(run(t0, inputs) =~= seq![
        I2cAction::Access(write_program_op(id, addr, bytes.len(), false)),
        I2cAction::Access(start_op(id)),
        I2cAction::ReadIsr,
    ] + send_actions(id, bytes) + seq![
        I2cAction::ReadIsr,
        I2cAction::Access(read_program_op(id, addr, data.len())),
        I2cAction::Access(start_op(id)),
        I2cAction::Access(autoend_op(id)),
    ] + recv_actions(id, data.len()) + seq![I2cAction::Complete]);
}

} // verus!
