use stm32f030_hal::gpio::{GpioBlock, GpioExt};
use stm32f030_hal::i2c::I2c;
use stm32f030_hal::regs::{Access, I2cId, I2cReg, RccReg, RegOp, Register};
use stm32f030_hal::time::{Hertz, KiloHertz};
use stm32f030_hal::i2c::Error;
use stm32f030_hal::transfer::{I2cAction, I2cTransfer, Phase};

const TXIS: u32 = 0x2;
const RXNE: u32 = 0x4;
const NACKF: u32 = 0x10;
const TC: u32 = 0x40;

/// A simulated target on the first peripheral: control register 2 as
/// written, a count of start conditions, a status word and bytes to return.
struct Device {
    cr2: u32,
    starts: usize,
    isr: Vec<u32>,
    rx: Vec<u8>,
    txdr: Vec<u8>,
    icr_writes: usize,
    trace: Vec<I2cAction>,
}

impl Device {
    fn new(isr: Vec<u32>, rx: Vec<u8>) -> Device {
        Device { cr2: 0, starts: 0, isr, rx, txdr: Vec::new(), icr_writes: 0, trace: Vec::new() }
    }

    fn next_isr(&mut self) -> u32 {
        if self.isr.len() > 1 {
            self.isr.remove(0)
        } else {
            self.isr[0]
        }
    }

    fn run(&mut self, t: &mut I2cTransfer) -> Result<(), Error> {
        let mut input: u32 = 0;
        for _ in 0..10_000 {
            let action = t.step(input);
            self.trace.push(action);
            input = 0;
            match action {
                I2cAction::Access(op) => match (op.reg, op.access) {
                    (Register::I2c(_, I2cReg::Cr2), Access::Modify { clear, set }) => {
                        self.cr2 = (self.cr2 & !clear) | set;
                        if set & 0x2000 != 0 {
                            self.starts += 1;
                            self.cr2 &= !0x2000;
                        }
                    }
                    (Register::I2c(_, I2cReg::Txdr), Access::Write(w)) => self.txdr.push(w as u8),
                    (Register::I2c(_, I2cReg::Icr), Access::Write(_)) => self.icr_writes += 1,
                    _ => panic!("unexpected access {:?}", op),
                },
                I2cAction::ReadIsr => input = self.next_isr(),
                I2cAction::ReadRxdr => input = self.rx.remove(0) as u32,
                I2cAction::Complete => return Ok(()),
                I2cAction::Fail(e) => return Err(e),
            }
        }
        panic!("transfer did not finish");
    }
}

fn cr2(op: &I2cAction) -> (u32, u32) {
    match op {
        I2cAction::Access(RegOp {
            reg: Register::I2c(_, I2cReg::Cr2),
            access: Access::Modify { clear, set },
        }) => (*clear, *set),
        _ => panic!("not a control register access: {:?}", op),
    }
}

#[test]
fn write_read_two_register_device() {
    let mut dev = Device::new(vec![TXIS | TC | RXNE], vec![0x01, 0x02]);
    let mut t = I2cTransfer::write_read(I2cId::I2c1, 0x40, &[0x00], 2);
    assert_eq!(dev.run(&mut t), Ok(()));
    assert_eq!(t.received(), &vec![0x01, 0x02]);
    assert_eq!(dev.starts, 2);
    assert_eq!(dev.txdr, vec![0x00]);
    // Read direction, count 2, address 0x40 << 1, automatic stop on.
    assert_eq!(dev.cr2, 0x0200_0000 | (2 << 16) | 0x400 | 0x80);
    assert_eq!(t.phase(), Phase::Succeeded);
}

#[test]
fn empty_write_is_a_probe() {
    let mut dev = Device::new(vec![0], vec![]);
    let mut t = I2cTransfer::write(I2cId::I2c2, 0x3c, &[]);
    assert_eq!(dev.run(&mut t), Ok(()));
    assert_eq!(dev.starts, 1);
    assert!(dev.txdr.is_empty());
    assert_eq!(dev.trace.len(), 4);
    assert_eq!(cr2(&dev.trace[0]), (0x3ff | 0x00ff_0000 | 0x400 | 0x0200_0000, (0x3c << 1) | 0x0200_0000));
    assert_eq!(
        dev.trace[2],
        I2cAction::Access(RegOp {
            reg: Register::I2c(I2cId::I2c2, I2cReg::Icr),
            access: Access::Write(0x30)
        })
    );
}

#[test]
fn write_sends_every_byte() {
    let mut dev = Device::new(vec![TXIS], vec![]);
    let mut t = I2cTransfer::write(I2cId::I2c1, 0x50, &[1, 2, 3]);
    assert_eq!(dev.run(&mut t), Ok(()));
    assert_eq!(dev.txdr, vec![1, 2, 3]);
    assert_eq!(dev.starts, 1);
    assert_eq!(dev.cr2, (3 << 16) | (0x50 << 1) | 0x0200_0000);
    assert_eq!(dev.icr_writes, 1);
}

#[test]
fn write_waits_for_transmit_ready() {
    let mut dev = Device::new(vec![0, 0, 0, TXIS], vec![]);
    let mut t = I2cTransfer::write(I2cId::I2c1, 0x50, &[9]);
    assert_eq!(dev.run(&mut t), Ok(()));
    assert_eq!(dev.txdr, vec![9]);
    let polls = dev.trace.iter().filter(|a| **a == I2cAction::ReadIsr).count();
    // Four reads before the byte goes out, one after it.
    assert_eq!(polls, 5);
}

#[test]
fn write_nack_aborts_remaining_bytes() {
    // Transmit-ready for the first byte, then the target refuses it.
    let mut dev = Device::new(vec![TXIS, TXIS | NACKF], vec![]);
    let mut t = I2cTransfer::write(I2cId::I2c1, 0x50, &[1, 2, 3]);
    assert_eq!(dev.run(&mut t), Err(Error::NACK));
    assert_eq!(dev.txdr, vec![1]);
    assert_eq!(dev.icr_writes, 1);
    assert_eq!(t.phase(), Phase::Failed(Error::NACK));
}

#[test]
fn write_read_nack_on_address_skips_read_phase() {
    let mut dev = Device::new(vec![NACKF], vec![0xAA]);
    let mut t = I2cTransfer::write_read(I2cId::I2c1, 0x40, &[0x00], 1);
    assert_eq!(dev.run(&mut t), Err(Error::NACK));
    assert_eq!(dev.starts, 1);
    assert!(dev.txdr.is_empty());
    assert!(t.received().is_empty());
    assert_eq!(dev.cr2 & 0x400, 0);
    assert_eq!(dev.rx, vec![0xAA]);
}

#[test]
fn write_read_nack_on_data_skips_read_phase() {
    let mut dev = Device::new(vec![TXIS, TXIS, TXIS | NACKF], vec![0xAA]);
    let mut t = I2cTransfer::write_read(I2cId::I2c1, 0x40, &[0x00, 0x01], 1);
    assert_eq!(dev.run(&mut t), Err(Error::NACK));
    assert_eq!(dev.starts, 1);
    assert_eq!(dev.txdr, vec![0x00]);
    assert_eq!(dev.cr2 & 0x400, 0);
    assert_eq!(dev.rx, vec![0xAA]);
}

#[test]
fn overrun_is_a_distinct_error() {
    assert_ne!(Error::OVERRUN, Error::NACK);
}

#[test]
fn i2c1_setup_sequence() {
    let mut ops = Vec::new();
    let gpioa = GpioBlock::new(stm32f030_hal::regs::Port::A).split(&mut ops);
    ops.clear();
    let scl = gpioa.pin9.into_alternate_af4(&mut ops);
    let sda = gpioa.pin10.into_alternate_af4(&mut ops);
    ops.clear();
    let i2c = I2c::i2c1(7u8, (scl, sda), KiloHertz(100).to_hertz(), &mut ops);
    assert_eq!(i2c.id(), I2cId::I2c1);
    assert_eq!(*i2c.i2c(), 7u8);
    let m = |reg, clear, set| RegOp { reg, access: Access::Modify { clear, set } };
    assert_eq!(
        ops,
        vec![
            m(Register::Rcc(RccReg::Apb1enr), 0, 1 << 21),
            m(Register::Rcc(RccReg::Apb1rstr), 0, 1 << 21),
            m(Register::Rcc(RccReg::Apb1rstr), 1 << 21, 0),
            m(Register::I2c(I2cId::I2c1, I2cReg::Cr1), 1, 0),
            RegOp {
                reg: Register::I2c(I2cId::I2c1, I2cReg::Timingr),
                access: Access::Write(0x1042_FBFF)
            },
            m(Register::I2c(I2cId::I2c1, I2cReg::Cr1), 0, 1),
        ]
    );
    let (p, (scl, sda)) = i2c.release();
    assert_eq!(p, 7u8);
    assert_eq!(scl.id().index, 9);
    assert_eq!(sda.id().index, 10);
}

#[test]
fn i2c2_setup_uses_its_clock_bit() {
    let mut ops = Vec::new();
    let gpiob = GpioBlock::new(stm32f030_hal::regs::Port::B).split(&mut ops);
    let scl = gpiob.pin10.into_alternate_af1(&mut ops);
    let sda = gpiob.pin11.into_alternate_af1(&mut ops);
    ops.clear();
    let i2c = I2c::i2c2((), (scl, sda), Hertz(400_000), &mut ops);
    assert_eq!(i2c.id(), I2cId::I2c2);
    assert_eq!(ops[0].access, Access::Modify { clear: 0, set: 1 << 22 });
    assert_eq!(ops[4].access, Access::Write(0x0031_F9FF));
}

#[test]
fn bus_handle_transfers_use_its_instance() {
    let mut ops = Vec::new();
    let gpiob = GpioBlock::new(stm32f030_hal::regs::Port::B).split(&mut ops);
    let scl = gpiob.pin10.into_alternate_af1(&mut ops);
    let sda = gpiob.pin11.into_alternate_af1(&mut ops);
    let i2c = I2c::i2c2((), (scl, sda), Hertz(100_000), &mut ops);
    let mut t = i2c.write_read(0x40, &[0x00], 2);
    let mut dev = Device::new(vec![TXIS | TC | RXNE], vec![0x01, 0x02]);
    assert_eq!(dev.run(&mut t), Ok(()));
    assert_eq!(t.received(), &vec![0x01, 0x02]);
    assert_eq!(dev.starts, 2);
    assert!(dev.trace.iter().all(|a| match a {
        I2cAction::Access(op) => op.reg != Register::I2c(I2cId::I2c1, I2cReg::Cr2),
        _ => true,
    }));
    let mut w = i2c.write(0x40, &[0xAB]);
    let mut dev = Device::new(vec![TXIS], vec![]);
    assert_eq!(dev.run(&mut w), Ok(()));
    assert_eq!(dev.txdr, vec![0xAB]);
}
