//! Driver for the MMA7660FC three-axis accelerometer, a 6-bit sensor on an
//! I2C bus.
//!
//! The sensor keeps each axis in a register of its own, as a 6-bit
//! two's-complement number in bits 0 to 5. It accepts a change of its mode
//! register only while it is in standby, so every change of mode first writes
//! the register with the mode bits cleared.

use crate::bus::I2cLink;
use crate::bus::I2cTransfer;
use crate::bus::I2cTransport;
use vstd::prelude::*;

verus! {

/// X axis output register.
pub const REG_XOUT: u8 = 0x00;

/// Y axis output register.
pub const REG_YOUT: u8 = 0x01;

/// Z axis output register.
pub const REG_ZOUT: u8 = 0x02;

/// Mode register. Bit 0 is set while the sensor measures.
pub const REG_MODE: u8 = 0x07;

/// The address the sensor answers to unless it is strapped otherwise.
pub const DEFAULT_I2C_ADDRESS: u8 = 0x4C;

/// What the sensor is doing.
#[derive(Debug, Clone, Copy, PartialEq, Eq, Structural)]
pub enum Mode {
    /// Low power. No new samples are taken.
    Standby,
    /// Measuring.
    Active,
}

/// One reading of the three axes. Each component lies in `-32 ..= 31`.
#[derive(Debug, Clone, Copy, PartialEq, Eq, Structural)]
pub struct Acceleration {
    pub x: i8,
    pub y: i8,
    pub z: i8,
}

/// The signed value of the 6-bit two's-complement field in the low bits of
/// `raw`. Bits 6 and 7 (the alert flag and a reserved bit) play no part.
pub open spec fn spec_decode6(raw: u8) -> i8 {
    let field = raw as int % 64;
    if field >= 32 {
        (field - 64) as i8
    } else {
        field as i8
    }
}

/// The 6-bit two's-complement field that stands for `value`, in bits 0 to 5
/// of a byte whose bits 6 and 7 are clear.
pub open spec fn spec_encode6(value: i8) -> u8 {
    (value as int % 64) as u8
}

/// The content of the mode register that puts the sensor into `mode`, given
/// that the register holds `current`: the two low bits are replaced, the
/// other six are kept.
pub open spec fn spec_mode_value(current: u8, mode: Mode) -> u8 {
    match mode {
        Mode::Standby => current & 0xFC,
        Mode::Active => (current & 0xFC) | 0x01,
    }
}

/// Decodes the content of an axis register into its signed reading.
#[verifier::when_used_as_spec(spec_decode6)]
pub fn decode6(raw: u8) -> (value: i8)
    ensures
        value == spec_decode6(raw),
        -32 <= value <= 31,
{
    let field: u8 = raw & 0x3F;
    assert(field == raw % 64 && (field & 0x20 != 0 <==> field >= 32)) by (bit_vector)
        requires
            field == raw & 0x3F,
    ;
    if (field & 0x20) != 0 {
        (field as i8) - 64
    } else {
        field as i8
    }
}

/// Encodes a reading into the 6-bit field of an axis register. Readings
/// outside `-32 ..= 31` are reduced modulo 64.
#[verifier::when_used_as_spec(spec_encode6)]
pub fn encode6(value: i8) -> (raw: u8)
    ensures
        raw == spec_encode6(value),
        raw <= 63,
{
    let shifted: i16 = value as i16 + 128;
    (shifted % 64) as u8
}

/// Computes what to write to the mode register to put the sensor into
/// `mode`, from what the register holds now.
#[verifier::when_used_as_spec(spec_mode_value)]
pub fn mode_value(current: u8, mode: Mode) -> (value: u8)
    ensures
        value == spec_mode_value(current, mode),
        value / 4 == current / 4,
        value % 4 == (if mode == Mode::Active { 1int } else { 0int }),
{
    let cleared: u8 = current & 0xFC;
    assert(cleared / 4 == current / 4 && cleared % 4 == 0 && (cleared | 0x01) / 4 == current / 4
        && (cleared | 0x01) % 4 == 1) by (bit_vector)
        requires
            cleared == current & 0xFC,
    ;
    match mode {
        Mode::Standby => cleared,
        Mode::Active => cleared | 0x01,
    }
}

impl Acceleration {
    /// Whether every component is a value that a 6-bit field can hold.
    pub open spec fn in_range(self) -> bool {
        &&& -32 <= self.x <= 31
        &&& -32 <= self.y <= 31
        &&& -32 <= self.z <= 31
    }

    /// The reading that the three axis registers stand for.
    pub open spec fn spec_from_raw(x_raw: u8, y_raw: u8, z_raw: u8) -> Acceleration {
        Acceleration { x: decode6(x_raw), y: decode6(y_raw), z: decode6(z_raw) }
    }

    /// Decodes the contents of the three axis registers.
    #[verifier::when_used_as_spec(spec_from_raw)]
    pub fn from_raw(x_raw: u8, y_raw: u8, z_raw: u8) -> (reading: Acceleration)
        ensures
            reading == Acceleration::spec_from_raw(x_raw, y_raw, z_raw),
            reading.in_range(),
    {
        Acceleration { x: decode6(x_raw), y: decode6(y_raw), z: decode6(z_raw) }
    }
}

impl Default for Acceleration {
    /// The reading of a sensor at rest in free fall: zero on every axis.
    fn default() -> (reading: Acceleration)
        ensures
            reading == (Acceleration { x: 0, y: 0, z: 0 }),
            reading.in_range(),
    {
        Acceleration { x: 0, y: 0, z: 0 }
    }
}

/// Whether `transfer` asks the device at `address` for the one byte in
/// `register`.
pub open spec fn is_register_read<E>(transfer: I2cTransfer<E>, address: u8, register: u8) -> bool {
    &&& transfer.address == address
    &&& transfer.written =~= seq![register]
    &&& transfer.read is Some
    &&& transfer.read->0.len() == 1
}

/// Whether `transfer` stores `value` into `register` of the device at
/// `address`.
pub open spec fn is_register_write<E>(
    transfer: I2cTransfer<E>,
    address: u8,
    register: u8,
    value: u8,
) -> bool {
    &&& transfer.address == address
    &&& transfer.written =~= seq![register, value]
    &&& transfer.read is None
}

/// What a register read yields to its caller: the byte that came back, or
/// the transport's error.
pub open spec fn read_outcome<E>(transfer: I2cTransfer<E>) -> Result<u8, E> {
    match transfer.result {
        Ok(_) => Ok(transfer.read->0[0]),
        Err(e) => Err(e),
    }
}

/// Whether `run` is what a change of mode sends to the device at `address`,
/// and `result` what it then reports.
///
/// The mode register is read. Its content with the mode bits cleared is
/// written back, whatever the target. Only then, and only for
/// `Mode::Active`, the content with bit 0 set is written. The first
/// transaction that fails ends the run, and its error is the result.
pub open spec fn set_mode_run<E>(
    address: u8,
    mode: Mode,
    run: Seq<I2cTransfer<E>>,
    result: Result<(), E>,
) -> bool {
    &&& run.len() >= 1
    &&& is_register_read(run[0], address, REG_MODE)
    &&& match read_outcome(run[0]) {
        Err(e) => run.len() == 1 && result == Err::<(), E>(e),
        Ok(current) => {
            &&& run.len() >= 2
            &&& is_register_write(run[1], address, REG_MODE, mode_value(current, Mode::Standby))
            &&& match (run[1].result, mode) {
                (Err(e), _) => run.len() == 2 && result == Err::<(), E>(e),
                (Ok(_), Mode::Standby) => run.len() == 2 && result == Ok::<(), E>(()),
                (Ok(_), Mode::Active) => {
                    &&& run.len() == 3
                    &&& is_register_write(
                        run[2],
                        address,
                        REG_MODE,
                        mode_value(current, Mode::Active),
                    )
                    &&& result == run[2].result
                },
            }
        },
    }
}

/// Whether `run` is what one poll of the three axes sends to the device at
/// `address`, and `result` what it then reports.
///
/// The X, Y and Z registers are read in that order, each in a transaction
/// of its own. The first read that fails ends the run, and its error is the
/// result: no partial reading is given.
pub open spec fn get_acceleration_run<E>(
    address: u8,
    run: Seq<I2cTransfer<E>>,
    result: Result<Acceleration, E>,
) -> bool {
    &&& run.len() >= 1
    &&& is_register_read(run[0], address, REG_XOUT)
    &&& match read_outcome(run[0]) {
        Err(e) => run.len() == 1 && result == Err::<Acceleration, E>(e),
        Ok(x_raw) => {
            &&& run.len() >= 2
            &&& is_register_read(run[1], address, REG_YOUT)
            &&& match read_outcome(run[1]) {
                Err(e) => run.len() == 2 && result == Err::<Acceleration, E>(e),
                Ok(y_raw) => {
                    &&& run.len() == 3
                    &&& is_register_read(run[2], address, REG_ZOUT)
                    &&& match read_outcome(run[2]) {
                        Err(e) => result == Err::<Acceleration, E>(e),
                        Ok(z_raw) => result == Ok::<Acceleration, E>(
                            Acceleration::from_raw(x_raw, y_raw, z_raw),
                        ),
                    }
                },
            }
        },
    }
}

/// Whether `transfer` stores a byte into the mode register of the device at
/// `address`.
pub open spec fn is_mode_write<E>(transfer: I2cTransfer<E>, address: u8) -> bool {
    &&& transfer.address == address
    &&& transfer.written.len() == 2
    &&& transfer.written[0] == REG_MODE
    &&& transfer.read is None
}

/// Whether `transfer` writes the mode register with both mode bits clear,
/// which puts the sensor into standby.
pub open spec fn clears_mode_bits<E>(transfer: I2cTransfer<E>, address: u8) -> bool {
    is_mode_write(transfer, address) && transfer.written[1] % 4 == 0
}

/// Whether `transfer` writes the mode register with bit 0 set, which starts
/// the measurement.
pub open spec fn sets_active_bit<E>(transfer: I2cTransfer<E>, address: u8) -> bool {
    is_mode_write(transfer, address) && transfer.written[1] % 2 == 1
}

/// The register that holds the axis with the given index: 0 for X, 1 for Y,
/// 2 for Z.
pub open spec fn axis_register(axis: int) -> u8 {
    if axis == 0 {
        REG_XOUT
    } else if axis == 1 {
        REG_YOUT
    } else {
        REG_ZOUT
    }
}

/// Every byte decodes to a reading that a 6-bit field can hold, and the two
/// bits above the field change nothing.
pub proof fn lemma_decode6_in_range(raw: u8)
    ensures
        -32 <= decode6(raw) <= 31,
        decode6(raw) == decode6(raw & 0x3F),
{
    assert(raw & 0x3F == raw % 64) by (bit_vector);
}

/// Encoding a decoded register content gives back its low six bits: the
/// decoder loses nothing of the field it reads.
pub proof fn lemma_decode6_round_trip(raw: u8)
    ensures
        encode6(decode6(raw)) == raw & 0x3F,
{
    assert(raw & 0x3F == raw % 64) by (bit_vector);
}

/// Decoding an encoded reading gives the reading back.
pub proof fn lemma_encode6_round_trip(value: i8)
    requires
        -32 <= value <= 31,
    ensures
        encode6(value) <= 63,
        decode6(encode6(value)) == value,
{
}

/// No two 6-bit fields decode to the same reading.
pub proof fn lemma_decode6_injective(a: u8, b: u8)
    requires
        a <= 63,
        b <= 63,
        decode6(a) == decode6(b),
    ensures
        a == b,
{
}

/// In every change to `Mode::Active`, whatever the mode register held
/// before, each write that sets the active bit comes strictly after a write
/// that clears the mode bits. The first write of the change, if it gets
/// that far, is the one that clears them, and a change that succeeds ends
/// with the write that sets the active bit.
pub proof fn lemma_standby_write_precedes_active_write<E>(
    address: u8,
    run: Seq<I2cTransfer<E>>,
    result: Result<(), E>,
)
    requires
        set_mode_run(address, Mode::Active, run, result),
    ensures
        forall|k: int|
            0 <= k < run.len() && sets_active_bit(#[trigger] run[k], address) ==> exists|j: int|
                0 <= j < k && clears_mode_bits(#[trigger] run[j], address),
        run.len() >= 2 ==> clears_mode_bits(run[1], address),
        result is Ok ==> run.len() == 3 && sets_active_bit(run[2], address),
{
    if run.len() >= 2 {
        let current = run[0].read->0[0];
        let standby = mode_value(current, Mode::Standby);
        let active = mode_value(current, Mode::Active);
        assert(standby % 4 == 0 && active % 2 == 1) by (bit_vector)
            requires
                standby == current & 0xFC,
                active == (current & 0xFC) | 0x01,
        ;
        assert(clears_mode_bits(run[1], address));
        assert(!sets_active_bit(run[1], address));
    }
    assert(!sets_active_bit(run[0], address));
}

/// One poll reads the axes in the order X, Y, Z and nothing else: the
/// transactions are the first one, two or three of these reads, all but the
/// last of them succeeded, and a poll in which no read fails makes exactly
/// three.
pub proof fn lemma_get_acceleration_reads_in_order<E>(
    address: u8,
    run: Seq<I2cTransfer<E>>,
    result: Result<Acceleration, E>,
)
    requires
        get_acceleration_run(address, run, result),
    ensures
        1 <= run.len() <= 3,
        forall|i: int|
            0 <= i < run.len() ==> is_register_read(#[trigger] run[i], address, axis_register(i)),
        forall|i: int| 0 <= i < run.len() - 1 ==> (#[trigger] run[i]).result is Ok,
        run.len() == 3 <==> run[0].result is Ok && run[1].result is Ok,
        result is Ok <==> run.len() == 3 && run[2].result is Ok,
{
}

/// The sensor, reached through an I2C transport that the driver owns.
pub struct Mma7660fc<I2C: I2cTransport> {
    i2c: I2cLink<I2C>,
    address: u8,
}

impl<I2C: I2cTransport> Mma7660fc<I2C> {
    /// The link that holds the driver's transport.
    pub closed spec fn link(&self) -> I2cLink<I2C> {
        self.i2c
    }

    /// The bus address of the sensor. It never changes.
    pub closed spec fn address(&self) -> u8 {
        self.address
    }

    /// Every transaction that the driver has made so far, oldest first.
    pub open spec fn transfers(&self) -> Seq<I2cTransfer<I2C::Error>> {
        self.link().transfers()
    }

    /// Whether `self` is `earlier` after some further transactions: the same
    /// address, and a record that only grew.
    pub open spec fn continues(&self, earlier: &Self) -> bool {
        &&& self.address() == earlier.address()
        &&& earlier.transfers().is_prefix_of(self.transfers())
    }

    /// The transactions made since the driver was in the state `earlier`.
    pub open spec fn sent_since(&self, earlier: &Self) -> Seq<I2cTransfer<I2C::Error>> {
        self.transfers().skip(earlier.transfers().len() as int)
    }

    /// Makes a driver for the sensor at `address`. Nothing is sent.
    pub fn new(i2c: I2C, address: u8) -> (driver: Self)
        ensures
            driver.link().transport() == i2c,
            driver.address() == address,
            driver.transfers() == Seq::<I2cTransfer<I2C::Error>>::empty(),
    {
        Mma7660fc { i2c: I2cLink::new(i2c), address }
    }

    /// Gives the transport back. Nothing is sent.
    pub fn release(self) -> (i2c: I2C)
        ensures
            i2c == self.link().transport(),
    {
        self.i2c.release()
    }

    /// Stores `value` into `register`, in one transaction.
    pub fn write_register(&mut self, register: u8, value: u8) -> (result: Result<(), I2C::Error>)
        ensures
            final(self).continues(old(self)),
            final(self).sent_since(old(self)).len() == 1,
            is_register_write(
                final(self).sent_since(old(self))[0],
                old(self).address(),
                register,
                value,
            ),
            result == final(self).sent_since(old(self))[0].result,
    {
        let bytes: [u8; 2] = [register, value];
        self.i2c.write(self.address, &bytes)
    }

    /// Fetches the byte in `register`, in one transaction that first sends
    /// the register's number.
    pub fn read_register(&mut self, register: u8) -> (result: Result<u8, I2C::Error>)
        ensures
            final(self).continues(old(self)),
            final(self).sent_since(old(self)).len() == 1,
            is_register_read(final(self).sent_since(old(self))[0], old(self).address(), register),
            result == read_outcome(final(self).sent_since(old(self))[0]),
    {
        let command: [u8; 1] = [register];
        let mut buffer: [u8; 1] = [0u8; 1];
        match self.i2c.write_read(self.address, &command, &mut buffer) {
            Ok(()) => Ok(buffer[0]),
            Err(e) => Err(e),
        }
    }

    /// Puts the sensor into `mode`.
    ///
    /// The sensor takes a new configuration only in standby, so the mode
    /// bits are always cleared first, also when the sensor is in standby
    /// already.
    pub fn set_mode(&mut self, mode: Mode) -> (result: Result<(), I2C::Error>)
        ensures
            final(self).continues(old(self)),
            set_mode_run(old(self).address(), mode, final(self).sent_since(old(self)), result),
    {
        let current = match self.read_register(REG_MODE) {
            Ok(value) => value,
            Err(e) => {
                return Err(e);
            },
        };
        match self.write_register(REG_MODE, mode_value(current, Mode::Standby)) {
            Ok(()) => {},
            Err(e) => {
                return Err(e);
            },
        }
        match mode {
            Mode::Standby => Ok(()),
            Mode::Active => self.write_register(REG_MODE, mode_value(current, Mode::Active)),
        }
    }

    /// Polls the three axes.
    ///
    /// In standby the sensor answers with the last values it held, or zero.
    pub fn get_acceleration(&mut self) -> (result: Result<Acceleration, I2C::Error>)
        ensures
            final(self).continues(old(self)),
            get_acceleration_run(old(self).address(), final(self).sent_since(old(self)), result),
            result matches Ok(reading) ==> reading.in_range(),
    {
        let x_raw = match self.read_register(REG_XOUT) {
            Ok(value) => value,
            Err(e) => {
                return Err(e);
            },
        };
        let y_raw = match self.read_register(REG_YOUT) {
            Ok(value) => value,
            Err(e) => {
                return Err(e);
            },
        };
        let z_raw = match self.read_register(REG_ZOUT) {
            Ok(value) => value,
            Err(e) => {
                return Err(e);
            },
        };
        Ok(Acceleration::from_raw(x_raw, y_raw, z_raw))
    }

    /// Decodes the content of an axis register into its signed reading.
    pub fn convert_to_signed(&self, raw_value: u8) -> (value: i8)
        ensures
            value == decode6(raw_value),
            -32 <= value <= 31,
    {
        decode6(raw_value)
    }
}

} // verus!
