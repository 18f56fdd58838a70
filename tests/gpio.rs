use stm32f030_hal::gpio::{GpioBlock, GpioExt, PinId};
use stm32f030_hal::regs::{Access, GpioReg, Port, RccReg, RegOp, Register};

fn gpio_modify(port: Port, reg: GpioReg, clear: u32, set: u32) -> RegOp {
    RegOp { reg: Register::Gpio(port, reg), access: Access::Modify { clear, set } }
}

/// Applies set/reset register writes to an output data register word.
fn apply_bsrr(odr: u32, ops: &[RegOp]) -> u32 {
    let mut odr = odr;
    for op in ops {
        if let (Register::Gpio(_, GpioReg::Bsrr), Access::Write(w)) = (op.reg, op.access) {
            odr = (odr & !(w >> 16)) | (w & 0xffff);
        }
    }
    odr
}

#[test]
fn split_enables_port_clock() {
    let mut ops = Vec::new();
    let parts = GpioBlock::new(Port::B).split(&mut ops);
    assert_eq!(
        ops,
        vec![RegOp {
            reg: Register::Rcc(RccReg::Ahbenr),
            access: Access::Modify { clear: 0, set: 1 << 18 }
        }]
    );
    assert_eq!(parts.pin7.id(), PinId { port: Port::B, index: 7 });
}

#[test]
fn push_pull_transition_rewrites_pin_fields() {
    let mut ops = Vec::new();
    let parts = GpioBlock::new(Port::A).split(&mut ops);
    ops.clear();
    let pin = parts.pin5.into_push_pull_output(&mut ops);
    assert_eq!(pin.id(), PinId { port: Port::A, index: 5 });
    assert_eq!(
        ops,
        vec![
            gpio_modify(Port::A, GpioReg::Pupdr, 0b11 << 10, 0),
            gpio_modify(Port::A, GpioReg::Otyper, 1 << 5, 0),
            gpio_modify(Port::A, GpioReg::Moder, 0b11 << 10, 0b01 << 10),
        ]
    );
}

#[test]
fn open_drain_and_inputs() {
    let mut ops = Vec::new();
    let parts = GpioBlock::new(Port::C).split(&mut ops);
    ops.clear();
    let mut od = parts.pin15.into_open_drain_output(&mut ops);
    assert_eq!(ops[1], gpio_modify(Port::C, GpioReg::Otyper, 1 << 15, 1 << 15));
    assert_eq!(ops[2], gpio_modify(Port::C, GpioReg::Moder, 0b11 << 30, 0b01 << 30));
    ops.clear();
    od.internal_pull_up(true, &mut ops);
    assert_eq!(ops, vec![gpio_modify(Port::C, GpioReg::Pupdr, 0b11 << 30, 0b01 << 30)]);
    assert!(od.is_high(1 << 15));
    assert!(od.is_low(!(1u32 << 15)));

    ops.clear();
    let down = parts.pin0.into_pull_down_input(&mut ops);
    assert_eq!(
        ops,
        vec![
            gpio_modify(Port::C, GpioReg::Pupdr, 0b11, 0b10),
            gpio_modify(Port::C, GpioReg::Moder, 0b11, 0),
        ]
    );
    assert!(down.is_low(0));
    ops.clear();
    let up = parts.pin1.into_pull_up_input(&mut ops);
    assert_eq!(ops[0], gpio_modify(Port::C, GpioReg::Pupdr, 0b11 << 2, 0b01 << 2));
    assert!(up.is_high(0b10));
    ops.clear();
    let floating = up.into_floating_input(&mut ops);
    assert_eq!(ops[0], gpio_modify(Port::C, GpioReg::Pupdr, 0b11 << 2, 0));
    assert_eq!(floating.id().index, 1);
}

#[test]
fn alternate_function_low_and_high_registers() {
    let mut ops = Vec::new();
    let parts = GpioBlock::new(Port::A).split(&mut ops);
    ops.clear();
    let _scl = parts.pin9.into_alternate_af4(&mut ops);
    assert_eq!(
        ops,
        vec![
            gpio_modify(Port::A, GpioReg::Afrh, 0xF << 4, 4 << 4),
            gpio_modify(Port::A, GpioReg::Moder, 0b11 << 18, 0b10 << 18),
        ]
    );
    ops.clear();
    let tx = parts.pin2.into_alternate_af1(&mut ops);
    assert_eq!(ops[0], gpio_modify(Port::A, GpioReg::Afrl, 0xF << 8, 1 << 8));
    ops.clear();
    let mut tx = tx.set_open_drain(&mut ops);
    assert_eq!(ops, vec![gpio_modify(Port::A, GpioReg::Otyper, 1 << 2, 1 << 2)]);
    ops.clear();
    tx.internal_pull_up(false, &mut ops);
    assert_eq!(ops, vec![gpio_modify(Port::A, GpioReg::Pupdr, 0b11 << 4, 0)]);
    ops.clear();
    let _a7 = parts.pin7.into_alternate_af7(&mut ops);
    assert_eq!(ops[0], gpio_modify(Port::A, GpioReg::Afrl, 0xF << 28, 7 << 28));
}

#[test]
fn push_pull_high_speed_variant() {
    let mut ops = Vec::new();
    let parts = GpioBlock::new(Port::F).split(&mut ops);
    ops.clear();
    let _pin = parts.pin1.into_push_pull_output_hs(&mut ops);
    assert_eq!(ops.len(), 4);
    // The pin's own two-bit speed field (bits 2 and 3) becomes high speed;
    // pin 0's field (bits 0 and 1) is not touched.
    assert_eq!(ops[2], gpio_modify(Port::F, GpioReg::Ospeedr, 0b11 << 2, 0b11 << 2));
    assert_eq!(ops[3], gpio_modify(Port::F, GpioReg::Moder, 0b11 << 2, 0b01 << 2));
}

#[test]
fn set_high_then_low_reads_back() {
    let mut ops = Vec::new();
    let parts = GpioBlock::new(Port::A).split(&mut ops);
    ops.clear();
    let mut led = parts.pin4.into_push_pull_output(&mut ops);
    ops.clear();
    let odr: u32 = 0b1000_0001;
    led.set_high(&mut ops);
    assert_eq!(
        ops,
        vec![RegOp { reg: Register::Gpio(Port::A, GpioReg::Bsrr), access: Access::Write(1 << 4) }]
    );
    let odr = apply_bsrr(odr, &ops);
    assert!(led.is_set_high(odr));
    assert!(!led.is_set_low(odr));
    assert_eq!(odr, 0b1001_0001);
    ops.clear();
    led.set_low(&mut ops);
    assert_eq!(ops[0].access, Access::Write(1 << 20));
    let odr = apply_bsrr(odr, &ops);
    assert!(!led.is_set_high(odr));
    assert!(led.is_set_low(odr));
    assert_eq!(odr, 0b1000_0001);
}

#[test]
fn erased_pin_set_and_read() {
    let mut ops = Vec::new();
    let parts = GpioBlock::new(Port::B).split(&mut ops);
    ops.clear();
    let mut pin = parts.pin12.into_push_pull_output(&mut ops).downgrade();
    ops.clear();
    pin.set_high(&mut ops);
    let odr = apply_bsrr(0, &ops);
    assert!(pin.is_set_high(odr));
    ops.clear();
    pin.set_low(&mut ops);
    let odr = apply_bsrr(odr, &ops);
    assert!(pin.is_set_low(odr));
    assert_eq!(pin.get_id(), 12);
    let input = parts.pin3.downgrade();
    assert!(input.is_high(1 << 3));
    assert!(input.is_low(1 << 4));
}

#[test]
fn downgrade_keeps_index_for_every_pin() {
    let mut ops = Vec::new();
    let p = GpioBlock::new(Port::A).split(&mut ops);
    let inputs = [
        p.pin0.downgrade(), p.pin1.downgrade(), p.pin2.downgrade(), p.pin3.downgrade(),
        p.pin4.downgrade(), p.pin5.downgrade(), p.pin6.downgrade(), p.pin7.downgrade(),
        p.pin8.downgrade(), p.pin9.downgrade(), p.pin10.downgrade(), p.pin11.downgrade(),
        p.pin12.downgrade(), p.pin13.downgrade(), p.pin14.downgrade(), p.pin15.downgrade(),
    ];
    for (k, pin) in inputs.iter().enumerate() {
        assert_eq!(pin.get_id() as usize, k);
        assert_eq!(pin.id(), PinId { port: Port::A, index: k as u8 });
    }
    let q = GpioBlock::new(Port::B).split(&mut ops);
    let out = q.pin13.into_open_drain_output(&mut ops).downgrade();
    assert_eq!(out.get_id(), 13);
    assert_eq!(out.id().port, Port::B);
}
