//! Driver for the ADXL367 three-axis accelerometer, a 14-bit sensor on an
//! SPI bus.
//!
//! Every access to the sensor is one SPI transaction that starts with an
//! opcode and a register address. A write carries the value after them. A
//! read is followed, within the same transaction, by a read phase in which
//! the sensor sends the register and, as long as the transaction lasts, the
//! registers after it.

use crate::bus::SpiLink;
use crate::bus::SpiTransfer;
use crate::bus::SpiTransport;
use vstd::prelude::*;

verus! {

/// Analog Devices identifier register. It always holds `EXPECTED_DEVID_AD`.
pub const DEVID_AD: u8 = 0x00;

/// MEMS identifier register. It always holds `EXPECTED_DEVID_MST`.
pub const DEVID_MST: u8 = 0x01;

/// Part identifier register.
pub const PARTID: u8 = 0x02;

/// Low byte of the X axis, the first of the six data registers.
pub const XDATA_L: u8 = 0x0E;

/// Power control register. Bit 1 starts the measurement.
pub const POWER_CTL: u8 = 0x2D;

/// The opcode that starts a register write.
pub const WRITE_OPCODE: u8 = 0x0A;

/// The opcode that starts a register read.
pub const READ_OPCODE: u8 = 0x0B;

/// What `DEVID_AD` holds on a genuine part.
pub const EXPECTED_DEVID_AD: u8 = 0xAD;

/// What `DEVID_MST` holds on a genuine part.
pub const EXPECTED_DEVID_MST: u8 = 0x1D;

/// The content of `POWER_CTL` that starts the measurement.
pub const MEASURE_MODE: u8 = 0x02;

/// What the identity registers said during initialisation.
#[derive(Debug, Clone, Copy, PartialEq, Eq, Structural)]
pub enum IdentityCheck {
    /// Both registers held the expected values.
    Verified,
    /// At least one register held something else. The values read are kept.
    Mismatch { analog_id: u8, mems_id: u8 },
}

/// What initialisation does when the identity registers are not those of
/// the expected part.
#[derive(Debug, Clone, Copy, PartialEq, Eq, Structural)]
pub enum IdentityPolicy {
    /// Start the measurement all the same, and report the mismatch.
    Proceed,
    /// Write nothing to the device, and fail.
    FailClosed,
}

/// Why initialisation failed.
#[derive(Debug, PartialEq, Eq)]
pub enum InitError<E> {
    /// A transaction failed. The transport's error is kept.
    Bus(E),
    /// The identity registers were read, and were not those of the expected
    /// part. Nothing was written.
    IdentityMismatch { analog_id: u8, mems_id: u8 },
}

/// The signed 16-bit number whose little-endian bytes are `low`, `high`.
pub open spec fn spec_i16_from_le(low: u8, high: u8) -> i16 {
    let unsigned = low as int + 256 * high as int;
    if unsigned >= 32768 {
        (unsigned - 65536) as i16
    } else {
        unsigned as i16
    }
}

/// The sample that six data registers stand for: X, Y and Z, each a
/// little-endian pair. The device fills only the low 14 bits of each pair;
/// the two bits above them are taken as they come.
pub open spec fn spec_decode_sample(bytes: Seq<u8>) -> (i16, i16, i16) {
    (
        i16_from_le(bytes[0], bytes[1]),
        i16_from_le(bytes[2], bytes[3]),
        i16_from_le(bytes[4], bytes[5]),
    )
}

/// Whether the identity registers hold what a genuine part holds.
pub open spec fn spec_identity_matches(analog_id: u8, mems_id: u8) -> bool {
    analog_id == EXPECTED_DEVID_AD && mems_id == EXPECTED_DEVID_MST
}

/// The verdict on a pair of identity registers.
pub open spec fn spec_check_identity(analog_id: u8, mems_id: u8) -> IdentityCheck {
    if identity_matches(analog_id, mems_id) {
        IdentityCheck::Verified
    } else {
        IdentityCheck::Mismatch { analog_id, mems_id }
    }
}

/// Assembles a signed 16-bit number from its little-endian bytes.
#[verifier::when_used_as_spec(spec_i16_from_le)]
pub fn i16_from_le(low: u8, high: u8) -> (value: i16)
    ensures
        value == spec_i16_from_le(low, high),
{
    let unsigned: u16 = (high as u16) * 256 + low as u16;
    if unsigned >= 32768 {
        (unsigned as i32 - 65536) as i16
    } else {
        unsigned as i16
    }
}

/// Decodes the six data registers into the sample they stand for.
pub fn decode_sample(bytes: &[u8; 6]) -> (sample: (i16, i16, i16))
    ensures
        sample == spec_decode_sample(bytes@),
{
    (
        i16_from_le(bytes[0], bytes[1]),
        i16_from_le(bytes[2], bytes[3]),
        i16_from_le(bytes[4], bytes[5]),
    )
}

/// Tells whether the identity registers hold what a genuine part holds:
/// `0xAD` and `0x1D`. Any other pair is a mismatch.
#[verifier::when_used_as_spec(spec_identity_matches)]
pub fn identity_matches(analog_id: u8, mems_id: u8) -> (matches: bool)
    ensures
        matches == spec_identity_matches(analog_id, mems_id),
        matches <==> analog_id == 0xAD && mems_id == 0x1D,
{
    analog_id == EXPECTED_DEVID_AD && mems_id == EXPECTED_DEVID_MST
}

/// Gives the verdict on a pair of identity registers.
#[verifier::when_used_as_spec(spec_check_identity)]
pub fn check_identity(analog_id: u8, mems_id: u8) -> (check: IdentityCheck)
    ensures
        check == spec_check_identity(analog_id, mems_id),
        check is Verified <==> analog_id == 0xAD && mems_id == 0x1D,
        check is Mismatch ==> check->analog_id == analog_id && check->mems_id == mems_id,
{
    if identity_matches(analog_id, mems_id) {
        IdentityCheck::Verified
    } else {
        IdentityCheck::Mismatch { analog_id, mems_id }
    }
}

/// Whether `transfer` stores `value` into `register`: the write opcode, the
/// register and the value, and no read phase.
pub open spec fn is_register_write<E>(transfer: SpiTransfer<E>, register: u8, value: u8) -> bool {
    &&& transfer.written =~= seq![WRITE_OPCODE, register, value]
    &&& transfer.read is None
}

/// Whether `transfer` asks for `count` registers from `register` on: the
/// read opcode and the register, then a read phase of `count` bytes.
pub open spec fn is_register_read<E>(transfer: SpiTransfer<E>, register: u8, count: nat) -> bool {
    &&& transfer.written =~= seq![READ_OPCODE, register]
    &&& transfer.read is Some
    &&& transfer.read->0.len() == count
}

/// What the read of one register yields to its caller: the byte that came
/// back, or the transport's error.
pub open spec fn read_outcome<E>(transfer: SpiTransfer<E>) -> Result<u8, E> {
    match transfer.result {
        Ok(_) => Ok(transfer.read->0[0]),
        Err(e) => Err(e),
    }
}

/// Whether `run` is what the reading of one sample sends, and `result` what
/// it then reports: one burst of six registers from `XDATA_L` on, decoded
/// if the transaction succeeded.
pub open spec fn acceleration_raw_run<E>(
    run: Seq<SpiTransfer<E>>,
    result: Result<(i16, i16, i16), E>,
) -> bool {
    &&& run.len() == 1
    &&& is_register_read(run[0], XDATA_L, 6)
    &&& result == match run[0].result {
        Ok(_) => Ok::<(i16, i16, i16), E>(spec_decode_sample(run[0].read->0)),
        Err(e) => Err::<(i16, i16, i16), E>(e),
    }
}

/// Whether `run` is what the reading of the identity sends, and `result`
/// what it then reports.
///
/// The analog, MEMS and part identifier registers are read in that order,
/// each in a transaction of its own. The first read that fails ends the
/// run, and its error is the result.
pub open spec fn device_id_run<E>(run: Seq<SpiTransfer<E>>, result: Result<(u8, u8, u8), E>) -> bool {
    &&& run.len() >= 1
    &&& is_register_read(run[0], DEVID_AD, 1)
    &&& match read_outcome(run[0]) {
        Err(e) => run.len() == 1 && result == Err::<(u8, u8, u8), E>(e),
        Ok(analog_id) => {
            &&& run.len() >= 2
            &&& is_register_read(run[1], DEVID_MST, 1)
            &&& match read_outcome(run[1]) {
                Err(e) => run.len() == 2 && result == Err::<(u8, u8, u8), E>(e),
                Ok(mems_id) => {
                    &&& run.len() == 3
                    &&& is_register_read(run[2], PARTID, 1)
                    &&& match read_outcome(run[2]) {
                        Err(e) => result == Err::<(u8, u8, u8), E>(e),
                        Ok(part_id) => result == Ok::<(u8, u8, u8), E>(
                            (analog_id, mems_id, part_id),
                        ),
                    }
                },
            }
        },
    }
}

/// Whether `run` is what initialisation under `policy` sends, and `result`
/// what it then reports.
///
/// The analog and MEMS identifier registers are read, in that order. A read
/// that fails ends the run. If the identity is not the expected one and the
/// policy is `FailClosed`, the run ends there, with nothing written. In
/// every other case the power control register is written with the
/// measurement bit set, and the verdict on the identity is the result.
pub open spec fn init_run<E>(
    policy: IdentityPolicy,
    run: Seq<SpiTransfer<E>>,
    result: Result<IdentityCheck, InitError<E>>,
) -> bool {
    &&& run.len() >= 1
    &&& is_register_read(run[0], DEVID_AD, 1)
    &&& match read_outcome(run[0]) {
        Err(e) => run.len() == 1 && result == Err::<IdentityCheck, InitError<E>>(
            InitError::Bus(e),
        ),
        Ok(analog_id) => {
            &&& run.len() >= 2
            &&& is_register_read(run[1], DEVID_MST, 1)
            &&& match read_outcome(run[1]) {
                Err(e) => run.len() == 2 && result == Err::<IdentityCheck, InitError<E>>(
                    InitError::Bus(e),
                ),
                Ok(mems_id) => if policy == IdentityPolicy::FailClosed && !identity_matches(
                    analog_id,
                    mems_id,
                ) {
                    &&& run.len() == 2
                    &&& result == Err::<IdentityCheck, InitError<E>>(
                        InitError::IdentityMismatch { analog_id, mems_id },
                    )
                } else {
                    &&& run.len() == 3
                    &&& is_register_write(run[2], POWER_CTL, MEASURE_MODE)
                    &&& result == match run[2].result {
                        Ok(_) => Ok::<IdentityCheck, InitError<E>>(
                            check_identity(analog_id, mems_id),
                        ),
                        Err(e) => Err::<IdentityCheck, InitError<E>>(InitError::Bus(e)),
                    }
                },
            }
        },
    }
}

/// The result of an initialisation that cannot end in a mismatch, with the
/// transport's error wrapped as initialisation reports it.
pub open spec fn as_init_result<E>(result: Result<IdentityCheck, E>) -> Result<
    IdentityCheck,
    InitError<E>,
> {
    match result {
        Ok(check) => Ok(check),
        Err(e) => Err(InitError::Bus(e)),
    }
}

/// The verdict that initialisation reports is the verdict on the two
/// registers it read: `Verified` if and only if the analog identifier is
/// `0xAD` and the MEMS identifier is `0x1D`. Under `Proceed` a mismatch
/// never fails the initialisation; under `FailClosed` it always does, and
/// then nothing was written. The only write that initialisation ever makes
/// is its third transaction.
pub proof fn lemma_init_reports_identity<E>(
    policy: IdentityPolicy,
    run: Seq<SpiTransfer<E>>,
    result: Result<IdentityCheck, InitError<E>>,
)
    requires
        init_run(policy, run, result),
    ensures
        result matches Ok(check) ==> run.len() == 3 && (check is Verified <==> run[0].read->0[0]
            == 0xAD && run[1].read->0[0] == 0x1D),
        result matches Ok(check) && check is Mismatch ==> policy == IdentityPolicy::Proceed,
        result matches Err(error) && error is IdentityMismatch ==> policy
            == IdentityPolicy::FailClosed && run.len() == 2 && !(run[0].read->0[0] == 0xAD
            && run[1].read->0[0] == 0x1D),
        forall|i: int| 0 <= i < run.len() && (#[trigger] run[i]).read is None ==> i == 2,
{
}

/// The sensor, reached through an SPI transport that the driver owns.
pub struct Adxl367<SPI: SpiTransport> {
    spi: SpiLink<SPI>,
}

impl<SPI: SpiTransport> Adxl367<SPI> {
    /// The link that holds the driver's transport.
    pub closed spec fn link(&self) -> SpiLink<SPI> {
        self.spi
    }

    /// Every transaction that the driver has made so far, oldest first.
    pub open spec fn transfers(&self) -> Seq<SpiTransfer<SPI::Error>> {
        self.link().transfers()
    }

    /// Whether `self` is `earlier` after some further transactions: a record
    /// that only grew.
    pub open spec fn continues(&self, earlier: &Self) -> bool {
        earlier.transfers().is_prefix_of(self.transfers())
    }

    /// The transactions made since the driver was in the state `earlier`.
    pub open spec fn sent_since(&self, earlier: &Self) -> Seq<SpiTransfer<SPI::Error>> {
        self.transfers().skip(earlier.transfers().len() as int)
    }

    /// Makes a driver for the sensor behind `spi`. Nothing is sent.
    pub fn new(spi: SPI) -> (driver: Self)
        ensures
            driver.link().transport() == spi,
            driver.transfers() == Seq::<SpiTransfer<SPI::Error>>::empty(),
    {
        Adxl367 { spi: SpiLink::new(spi) }
    }

    /// Gives the transport back. Nothing is sent.
    pub fn release(self) -> (spi: SPI)
        ensures
            spi == self.link().transport(),
    {
        self.spi.release()
    }

    /// Stores `value` into the register at `address`, in one transaction.
    pub fn write_register(&mut self, address: u8, value: u8) -> (result: Result<(), SPI::Error>)
        ensures
            final(self).continues(old(self)),
            final(self).sent_since(old(self)).len() == 1,
            is_register_write(final(self).sent_since(old(self))[0], address, value),
            result == final(self).sent_since(old(self))[0].result,
    {
        let bytes: [u8; 3] = [WRITE_OPCODE, address, value];
        self.spi.write(&bytes)
    }

    /// Fetches the register at `address`, in one transaction: the opcode and
    /// the address go out, then one byte comes back.
    pub fn read_register(&mut self, address: u8) -> (result: Result<u8, SPI::Error>)
        ensures
            final(self).continues(old(self)),
            final(self).sent_since(old(self)).len() == 1,
            is_register_read(final(self).sent_since(old(self))[0], address, 1),
            result == read_outcome(final(self).sent_since(old(self))[0]),
    {
        let command: [u8; 2] = [READ_OPCODE, address];
        let mut buffer: [u8; 1] = [0u8; 1];
        match self.spi.write_then_read(&command, &mut buffer) {
            Ok(()) => Ok(buffer[0]),
            Err(e) => Err(e),
        }
    }

    /// Fills `buffer` with the registers from `address` on, in one burst:
    /// a single transaction, in which the sensor counts the address up by
    /// itself.
    pub fn read_multiple_registers(&mut self, address: u8, buffer: &mut [u8]) -> (result: Result<
        (),
        SPI::Error,
    >)
        ensures
            final(self).continues(old(self)),
            final(self).sent_since(old(self)).len() == 1,
            is_register_read(final(self).sent_since(old(self))[0], address, final(buffer)@.len()),
            final(self).sent_since(old(self))[0].read == Some(final(buffer)@),
            result == final(self).sent_since(old(self))[0].result,
    {
        let command: [u8; 2] = [READ_OPCODE, address];
        self.spi.write_then_read(&command, buffer)
    }

    /// Reads one sample: the three axes as the device holds them, without
    /// scaling.
    pub fn acceleration_raw(&mut self) -> (result: Result<(i16, i16, i16), SPI::Error>)
        ensures
            final(self).continues(old(self)),
            acceleration_raw_run(final(self).sent_since(old(self)), result),
    {
        let mut buffer: [u8; 6] = [0u8; 6];
        match self.read_multiple_registers(XDATA_L, &mut buffer) {
            Ok(()) => Ok(decode_sample(&buffer)),
            Err(e) => Err(e),
        }
    }

    /// Reads the analog, MEMS and part identifiers.
    pub fn device_id(&mut self) -> (result: Result<(u8, u8, u8), SPI::Error>)
        ensures
            final(self).continues(old(self)),
            device_id_run(final(self).sent_since(old(self)), result),
    {
        let analog_id = match self.read_register(DEVID_AD) {
            Ok(value) => value,
            Err(e) => {
                return Err(e);
            },
        };
        let mems_id = match self.read_register(DEVID_MST) {
            Ok(value) => value,
            Err(e) => {
                return Err(e);
            },
        };
        let part_id = match self.read_register(PARTID) {
            Ok(value) => value,
            Err(e) => {
                return Err(e);
            },
        };
        Ok((analog_id, mems_id, part_id))
    }

    /// Checks the identity of the device, then starts the measurement
    /// whatever the check found. Until this has succeeded the sensor stays
    /// in standby. The verdict is returned, so that the caller can act on a
    /// mismatch.
    pub fn init(&mut self) -> (result: Result<IdentityCheck, SPI::Error>)
        ensures
            final(self).continues(old(self)),
            init_run(
                IdentityPolicy::Proceed,
                final(self).sent_since(old(self)),
                as_init_result(result),
            ),
    {
        let analog_id = match self.read_register(DEVID_AD) {
            Ok(value) => value,
            Err(e) => {
                return Err(e);
            },
        };
        let mems_id = match self.read_register(DEVID_MST) {
            Ok(value) => value,
            Err(e) => {
                return Err(e);
            },
        };
        let check = check_identity(analog_id, mems_id);
        match self.write_register(POWER_CTL, MEASURE_MODE) {
            Ok(()) => Ok(check),
            Err(e) => Err(e),
        }
    }

    /// Checks the identity of the device and starts the measurement, as
    /// `policy` says: under `Proceed` as `init` does, under `FailClosed`
    /// only if the identity is the expected one.
    pub fn init_with(&mut self, policy: IdentityPolicy) -> (result: Result<
        IdentityCheck,
        InitError<SPI::Error>,
    >)
        ensures
            final(self).continues(old(self)),
            init_run(policy, final(self).sent_since(old(self)), result),
    {
        match policy {
            IdentityPolicy::Proceed => match self.init() {
                Ok(check) => Ok(check),
                Err(e) => Err(InitError::Bus(e)),
            },
            IdentityPolicy::FailClosed => {
                let analog_id = match self.read_register(DEVID_AD) {
                    Ok(value) => value,
                    Err(e) => {
                        return Err(InitError::Bus(e));
                    },
                };
                let mems_id = match self.read_register(DEVID_MST) {
                    Ok(value) => value,
                    Err(e) => {
                        return Err(InitError::Bus(e));
                    },
                };
                if !identity_matches(analog_id, mems_id) {
                    return Err(InitError::IdentityMismatch { analog_id, mems_id });
                }
                match self.write_register(POWER_CTL, MEASURE_MODE) {
                    Ok(()) => Ok(IdentityCheck::Verified),
                    Err(e) => Err(InitError::Bus(e)),
                }
            },
        }
    }
}

} // verus!
