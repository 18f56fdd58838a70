//! Inter-integrated circuit bus in master mode: bus timing, peripheral set-up
//! and the bus handle.
use vstd::prelude::*;
use crate::gpio::{Alternate, GpioPin, PinId, AF1, AF4};
use crate::rcc::{acquire, acquire_ops};
use crate::regs::{field, modify, write_word, Access, I2cId, I2cReg, Port, RccReg, RegOp, Register};
use crate::time::Hertz;
use crate::transfer::{write_init, write_read_init, I2cTransfer};

verus! {

/// I2C error
#[derive(Clone, Copy, PartialEq, Eq, Structural, Debug)]
pub enum Error {
    /// Receive overrun; the engine does not detect it
    OVERRUN,
    /// The addressed device did not acknowledge
    NACK,
}

/// The peripheral clock the bus timing is derived from, in hertz.
pub const SOURCE_CLOCK_HZ: u32 = 8_000_000;

/// The highest bus frequency that is timed as standard mode, in hertz.
pub const STANDARD_MODE_MAX_HZ: u32 = 100_000;

/// The fields of the bus timing register.
#[derive(Clone, Copy, PartialEq, Eq, Structural, Debug)]
pub struct TimingParameters {
    /// Clock prescaler (4 bits).
    pub presc: u8,
    /// Data setup time (4 bits).
    pub scldel: u8,
    /// Data hold time (4 bits).
    pub sdadel: u8,
    /// Clock high period (8 bits).
    pub sclh: u8,
    /// Clock low period (8 bits).
    pub scll: u8,
}

/// Is `freq` timed as standard mode rather than fast mode?
pub open spec fn is_standard_mode(freq: u32) -> bool {
    freq <= STANDARD_MODE_MAX_HZ
}

/// The prescaler chosen for `freq`.
pub open spec fn presc_for(freq: u32) -> u32 {
    if is_standard_mode(freq) {
        1
    } else {
        0
    }
}

/// The source clock shifted right by the prescaler and then by one more bit:
/// a quarter of it in standard mode, half of it in fast mode.
pub open spec fn divided_source(freq: u32) -> int {
    if is_standard_mode(freq) {
        SOURCE_CLOCK_HZ as int / 4
    } else {
        SOURCE_CLOCK_HZ as int / 2
    }
}

/// The clock low count before it is stored in its 8-bit field: the divided
/// source clock over the frequency, less one, or 255 if that is larger. A
/// larger count is kept as it is, and only its low eight bits are stored.
///
/// This is a lower bound, not a cap: below about 7.8 kHz the count exceeds
/// 255 and is not clamped. Whether a cap at 255 was intended is an open
/// question, so the bound is computed as stated rather than reinterpreted.
pub open spec fn scl_low_bound(freq: u32) -> int {
    let q = divided_source(freq) / freq as int - 1;
    if q > 255 {
        q
    } else {
        255
    }
}

/// The clock low field for `freq`: the bound, truncated to 8 bits.
pub open spec fn scl_low_for(freq: u32) -> u8 {
    scl_low_bound(freq) as u8
}

/// How much shorter the clock high period is than the low one.
pub open spec fn scl_high_offset(freq: u32) -> u8 {
    if is_standard_mode(freq) {
        4
    } else {
        6
    }
}

/// The frequencies whose timing can be computed: positive, at most half the
/// source clock, and leaving a clock low field no smaller than the high
/// period's offset.
pub open spec fn timing_defined(freq: u32) -> bool {
    &&& 0 < freq <= SOURCE_CLOCK_HZ / 2
    &&& scl_low_for(freq) >= scl_high_offset(freq)
}

/// The timing parameters for a bus frequency of `freq` hertz.
pub open spec fn timing_for(freq: u32) -> TimingParameters {
    TimingParameters {
        presc: presc_for(freq) as u8,
        scldel: if is_standard_mode(freq) {
            4
        } else {
            3
        },
        sdadel: if is_standard_mode(freq) {
            2
        } else {
            1
        },
        sclh: (scl_low_for(freq) - scl_high_offset(freq)) as u8,
        scll: scl_low_for(freq),
    }
}

/// The timing register word that holds `t`.
pub open spec fn timingr_word(t: TimingParameters) -> u32 {
    ((t.presc as u32) << 28u32) | ((t.scldel as u32) << 20u32) | ((t.sdadel as u32) << 16u32) | (
    (t.sclh as u32) << 8u32) | (t.scll as u32)
}

fn scl_low_count(freq: u32) -> (r: u8)
    requires
        0 < freq <= SOURCE_CLOCK_HZ / 2,
    ensures
        r == scl_low_for(freq),
{
    let presc: u32 = if freq <= STANDARD_MODE_MAX_HZ { 1 } else { 0 };
    let half: u32 = (SOURCE_CLOCK_HZ >> presc) >> 1;
    assert(presc == 1 ==> half == 2_000_000u32) by (bit_vector)
        requires
            half == (8_000_000u32 >> presc) >> 1u32,
    ;
    assert(presc == 0 ==> half == 4_000_000u32) by (bit_vector)
        requires
            half == (8_000_000u32 >> presc) >> 1u32,
    ;
    assert(half / freq >= 1) by (nonlinear_arith)
        requires
            0 < freq <= half,
    ;
    let q: u32 = half / freq - 1;
    if q > 255 {
        #[verifier::truncate]
        (q as u8)
    } else {
        255
    }
}

/// Can the timing for `freq` be computed?
pub fn timing_supported(freq: u32) -> (r: bool)
    ensures
        r == timing_defined(freq),
{
    if freq == 0 || freq > SOURCE_CLOCK_HZ / 2 {
        return false;
    }
    let offset: u8 = if freq <= STANDARD_MODE_MAX_HZ { 4 } else { 6 };
    scl_low_count(freq) >= offset
}

/// Computes the timing parameters for a bus frequency of `freq` hertz.
pub fn timing_parameters(freq: u32) -> (r: TimingParameters)
    requires
        timing_defined(freq),
    ensures
        r == timing_for(freq),
{
    let scll = scl_low_count(freq);
    if freq <= STANDARD_MODE_MAX_HZ {
        TimingParameters { presc: 1, scldel: 4, sdadel: 2, sclh: scll - 4, scll }
    } else {
        TimingParameters { presc: 0, scldel: 3, sdadel: 1, sclh: scll - 6, scll }
    }
}

impl TimingParameters {
    /// The timing register word that holds these parameters. Each field can
    /// be read back from its place in the word.
    pub fn register_value(&self) -> (r: u32)
        requires
            self.presc < 16,
            self.scldel < 16,
            self.sdadel < 16,
        ensures
            r == timingr_word(*self),
            field(r, 28, 15) == self.presc,
            field(r, 20, 15) == self.scldel,
            field(r, 16, 15) == self.sdadel,
            field(r, 8, 255) == self.sclh,
            field(r, 0, 255) == self.scll,
    {
        let p: u32 = self.presc as u32;
        let cd: u32 = self.scldel as u32;
        let dd: u32 = self.sdadel as u32;
        let h: u32 = self.sclh as u32;
        let l: u32 = self.scll as u32;
        let r: u32 = (p << 28) | (cd << 20) | (dd << 16) | (h << 8) | l;
        assert(((r >> 28u32) & 15) == p && ((r >> 20u32) & 15) == cd && ((r >> 16u32) & 15) == dd
            && ((r >> 8u32) & 255) == h && ((r >> 0u32) & 255) == l) by (bit_vector)
            requires
                p < 16,
                cd < 16,
                dd < 16,
                h < 256,
                l < 256,
                r == (p << 28u32) | (cd << 20u32) | (dd << 16u32) | (h << 8u32) | l,
        ;
        r
    }
}


/// Peripheral enable bit of control register 1.
pub const CR1_PE: u32 = 0x1;

/// Target address field of control register 2.
pub const CR2_SADD: u32 = 0x3ff;

/// Transfer direction bit of control register 2: set for a read.
pub const CR2_RD_WRN: u32 = 0x400;

/// Start generation bit of control register 2.
pub const CR2_START: u32 = 0x2000;

/// Byte count field of control register 2.
pub const CR2_NBYTES: u32 = 0x00ff_0000;

/// Automatic stop bit of control register 2.
pub const CR2_AUTOEND: u32 = 0x0200_0000;

/// Transmit-ready flag of the status register.
pub const ISR_TXIS: u32 = 0x2;

/// Receive-ready flag of the status register.
pub const ISR_RXNE: u32 = 0x4;

/// Not-acknowledge flag of the status register.
pub const ISR_NACKF: u32 = 0x10;

/// Stop-detected flag of the status register.
pub const ISR_STOPF: u32 = 0x20;

/// Transfer-complete flag of the status register.
pub const ISR_TC: u32 = 0x40;

/// Not-acknowledge clear bit of the clear register.
pub const ICR_NACKCF: u32 = 0x10;

/// Stop clear bit of the clear register.
pub const ICR_STOPCF: u32 = 0x20;

/// The bit of the APB1 enable and reset registers that belongs to a peripheral.
pub open spec fn i2c_clock_bit(id: I2cId) -> u32 {
    match id {
        I2cId::I2c1 => 21,
        I2cId::I2c2 => 22,
    }
}

/// Which pins, in which alternate function, can carry a peripheral's clock
/// (`scl`) and data (`sda`) lines.
pub open spec fn valid_binding(id: I2cId, scl: PinId, sda: PinId, af: u32) -> bool {
    match id {
        I2cId::I2c1 => af == 4 && scl == (PinId { port: Port::A, index: 9 }) && sda == (PinId {
            port: Port::A,
            index: 10,
        }),
        I2cId::I2c2 => af == 1 && scl == (PinId { port: Port::B, index: 10 }) && sda == (PinId {
            port: Port::B,
            index: 11,
        }),
    }
}

/// An access to a register of peripheral `id`.
pub open spec fn i2c_op(id: I2cId, reg: I2cReg, access: Access) -> RegOp {
    RegOp { reg: Register::I2c(id, reg), access }
}

/// The accesses that bring peripheral `id` up at bus frequency `freq`: clock
/// and reset, peripheral disabled, timing written, peripheral enabled.
pub open spec fn setup_ops(id: I2cId, freq: u32) -> Seq<RegOp> {
    acquire_ops(RccReg::Apb1enr, RccReg::Apb1rstr, i2c_clock_bit(id)) + seq![
        i2c_op(id, I2cReg::Cr1, Access::Modify { clear: CR1_PE, set: 0 }),
        i2c_op(id, I2cReg::Timingr, Access::Write(timingr_word(timing_for(freq)))),
        i2c_op(id, I2cReg::Cr1, Access::Modify { clear: 0, set: CR1_PE }),
    ]
}

/// I2C abstraction: a peripheral bound to its pins
pub struct I2c<I2C, PINS> {
    i2c: I2C,
    pins: PINS,
    id: I2cId,
}

impl<I2C, PINS> I2c<I2C, PINS> {
    /// The peripheral instance this bus drives.
    pub closed spec fn instance(&self) -> I2cId {
        self.id
    }

    /// The peripheral handle held.
    pub closed spec fn peripheral(&self) -> I2C {
        self.i2c
    }

    /// The pins held.
    pub closed spec fn bus_pins(&self) -> PINS {
        self.pins
    }

    /// The peripheral instance this bus drives.
    pub fn id(&self) -> (r: I2cId)
        ensures
            r == self.instance(),
    {
        self.id
    }

    /// Borrows the peripheral handle.
    pub fn i2c(&self) -> (r: &I2C)
        ensures
            *r == self.peripheral(),
    {
        &self.i2c
    }

    /// A transfer on this bus that writes `bytes` to the 7-bit address
    /// `addr`; the hardware stops the bus after the last byte
    pub fn write(&self, addr: u8, bytes: &[u8]) -> (r: I2cTransfer)
        requires
            bytes@.len() <= 255,
        ensures
            r@ == write_init(self.instance(), addr, bytes@),
            r.wf(),
    {
        I2cTransfer::write(self.id, addr, bytes)
    }

    /// A transfer on this bus that writes `bytes` to the 7-bit address
    /// `addr`, then after a repeated start reads `read_len` bytes from it
    pub fn write_read(&self, addr: u8, bytes: &[u8], read_len: usize) -> (r: I2cTransfer)
        requires
            bytes@.len() <= 255,
            read_len <= 255,
        ensures
            r@ == write_read_init(self.instance(), addr, bytes@, read_len as nat),
            r.wf(),
    {
        I2cTransfer::write_read(self.id, addr, bytes, read_len)
    }

    /// Releases the peripheral and the pins
    pub fn release(self) -> (r: (I2C, PINS))
        ensures
            r.0 == self.peripheral(),
            r.1 == self.bus_pins(),
    {
        (self.i2c, self.pins)
    }
}

fn setup(id: I2cId, speed: Hertz, ops: &mut Vec<RegOp>)
    requires
        timing_defined(speed.0),
    ensures
        final(ops)@ == old(ops)@ + setup_ops(id, speed.0),
{
    let bit: u32 = match id {
        I2cId::I2c1 => 21,
        I2cId::I2c2 => 22,
    };
    acquire(RccReg::Apb1enr, RccReg::Apb1rstr, bit, ops);
    ops.push(modify(Register::I2c(id, I2cReg::Cr1), CR1_PE, 0));
    let t = timing_parameters(speed.0);
    ops.push(write_word(Register::I2c(id, I2cReg::Timingr), t.register_value()));
    ops.push(modify(Register::I2c(id, I2cReg::Cr1), 0, CR1_PE));
    assert(ops@ =~= old(ops)@ + setup_ops(id, speed.0));
}

impl<I2C> I2c<I2C, (GpioPin<Alternate<AF4>>, GpioPin<Alternate<AF4>>)> {
    /// Binds the first I2C peripheral to its clock and data pins and brings it
    /// up at bus frequency `speed`
    pub fn i2c1(
        i2c: I2C,
        pins: (GpioPin<Alternate<AF4>>, GpioPin<Alternate<AF4>>),
        speed: Hertz,
        ops: &mut Vec<RegOp>,
    ) -> (r: Self)
        requires
            valid_binding(I2cId::I2c1, pins.0@, pins.1@, 4),
            timing_defined(speed.0),
        ensures
            r.instance() == I2cId::I2c1,
            r.peripheral() == i2c,
            r.bus_pins() == pins,
            final(ops)@ == old(ops)@ + setup_ops(I2cId::I2c1, speed.0),
    {
        setup(I2cId::I2c1, speed, ops);
        I2c { i2c, pins, id: I2cId::I2c1 }
    }
}

impl<I2C> I2c<I2C, (GpioPin<Alternate<AF1>>, GpioPin<Alternate<AF1>>)> {
    /// Binds the second I2C peripheral to its clock and data pins and brings
    /// it up at bus frequency `speed`
    pub fn i2c2(
        i2c: I2C,
        pins: (GpioPin<Alternate<AF1>>, GpioPin<Alternate<AF1>>),
        speed: Hertz,
        ops: &mut Vec<RegOp>,
    ) -> (r: Self)
        requires
            valid_binding(I2cId::I2c2, pins.0@, pins.1@, 1),
            timing_defined(speed.0),
        ensures
            r.instance() == I2cId::I2c2,
            r.peripheral() == i2c,
            r.bus_pins() == pins,
            final(ops)@ == old(ops)@ + setup_ops(I2cId::I2c2, speed.0),
    {
        setup(I2cId::I2c2, speed, ops);
        I2c { i2c, pins, id: I2cId::I2c2 }
    }
}

/// The timing of every frequency that can be computed fits the register's
/// fields, and the standard-mode branch is taken exactly up to 100 kHz.
pub proof fn lemma_timing_fits(freq: u32)
    requires
        timing_defined(freq),
    ensures
        timing_for(freq).presc < 16,
        timing_for(freq).scldel < 16,
        timing_for(freq).sdadel < 16,
        timing_for(freq).presc == 1 <==> freq <= 100_000,
        freq <= 100_000 ==> timing_for(freq).scldel == 4 && timing_for(freq).sdadel == 2,
        freq > 100_000 ==> timing_for(freq).scldel == 3 && timing_for(freq).sdadel == 1,
{
}

} // verus!
