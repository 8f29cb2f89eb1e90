//! The transports that the drivers talk through, and the record of what was
//! sent over them.
//!
//! A driver never touches a peripheral itself. It is handed a transport: a
//! value that can make one transaction at a time on an I2C bus, with one SPI
//! device or on a one-wire line. A transport promises nothing about how a
//! transaction ends or what comes back: that is the device's to decide.
//!
//! The driver holds the transport inside a link. The link passes every
//! transaction on to the transport unchanged and notes it, with its outcome,
//! in a record. The record is ghost state: it exists in contracts and proofs
//! and costs nothing at run time. The drivers' contracts are stated over it,
//! so they say exactly which bytes went to which device in which order, and
//! what was made of each answer.

use vstd::prelude::*;

verus! {

/// One bit on a one-wire line: the line is high for `high_ns` nanoseconds,
/// then low for `low_ns`.
#[derive(Debug, Clone, Copy, PartialEq, Eq, Structural)]
pub struct PulsePair {
    pub high_ns: u32,
    pub low_ns: u32,
}

/// What one pixel takes on a one-wire line: 24 pulse pairs, the first of
/// them for the most significant bit.
pub type PulseFrame = [PulsePair; 24];

/// One transaction on an I2C bus, as seen from the controller.
pub struct I2cTransfer<E> {
    /// The 7-bit address of the device that was addressed.
    pub address: u8,
    /// The bytes sent in the write phase.
    pub written: Seq<u8>,
    /// What the read buffer held when the transaction ended, or `None` for a
    /// transaction without a read phase.
    pub read: Option<Seq<u8>>,
    /// How the transport reported the transaction to have ended.
    pub result: Result<(), E>,
}

/// One transaction with a device on an SPI bus, from the assertion of its
/// chip select to the release.
pub struct SpiTransfer<E> {
    /// The bytes clocked out in the write phase.
    pub written: Seq<u8>,
    /// What the read buffer held when the transaction ended, or `None` for a
    /// transaction without a read phase.
    pub read: Option<Seq<u8>>,
    /// How the transport reported the transaction to have ended.
    pub result: Result<(), E>,
}

/// One frame handed to a pulse generator.
pub struct PulseTransmission<E> {
    /// The pulse pairs of the frame, in the order in which they go out.
    pub frame: Seq<PulsePair>,
    /// How the generator reported the transmission to have ended.
    pub result: Result<(), E>,
}

/// An I2C controller that addresses devices by a 7-bit address.
///
/// Each call is one bus transaction and blocks until it has ended.
pub trait I2cTransport {
    /// What the transport reports when a transaction fails.
    type Error;

    /// Sends `bytes` to the device at `address`.
    fn write(&mut self, address: u8, bytes: &[u8]) -> Result<(), Self::Error>;

    /// Sends `bytes` to the device at `address`, then reads enough bytes to
    /// fill `buffer`, without releasing the bus in between.
    fn write_read(&mut self, address: u8, bytes: &[u8], buffer: &mut [u8]) -> Result<
        (),
        Self::Error,
    >;
}

/// One device on an SPI bus, selected by its own chip-select line.
///
/// Each call is one bus transaction, with the chip select held for the whole
/// of it, and blocks until it has ended.
pub trait SpiTransport {
    /// What the transport reports when a transaction fails.
    type Error;

    /// Clocks `bytes` out to the device.
    fn write(&mut self, bytes: &[u8]) -> Result<(), Self::Error>;

    /// Clocks `bytes` out to the device, then reads enough bytes to fill
    /// `buffer`, without releasing the chip select in between.
    fn write_then_read(&mut self, bytes: &[u8], buffer: &mut [u8]) -> Result<(), Self::Error>;
}

/// A pulse generator that drives a one-wire line.
///
/// The line has no clock: the receiver tells the bits apart by the length of
/// the pulses alone, and takes any gap for the end of the data. So a frame
/// is handed over whole, and the call blocks until all of it has gone out.
pub trait PulseTransport {
    /// What the generator reports when a transmission fails.
    type Error;

    /// Sends `frame` as one uninterrupted burst.
    fn transmit(&mut self, frame: &PulseFrame) -> Result<(), Self::Error>;
}

/// An I2C transport together with the record of the transactions made
/// through it.
pub struct I2cLink<T: I2cTransport> {
    transport: T,
    record: Ghost<Seq<I2cTransfer<T::Error>>>,
}

impl<T: I2cTransport> I2cLink<T> {
    /// The transport behind the link.
    pub closed spec fn transport(&self) -> T {
        self.transport
    }

    /// Every transaction made through the link so far, oldest first.
    pub closed spec fn transfers(&self) -> Seq<I2cTransfer<T::Error>> {
        self.record@
    }

    /// Puts `transport` behind a link with an empty record.
    pub fn new(transport: T) -> (link: Self)
        ensures
            link.transport() == transport,
            link.transfers() == Seq::<I2cTransfer<T::Error>>::empty(),
    {
        I2cLink { transport, record: Ghost(Seq::empty()) }
    }

    /// Gives the transport back.
    pub fn release(self) -> (transport: T)
        ensures
            transport == self.transport(),
    {
        self.transport
    }

    /// Sends `bytes` to the device at `address` in one transaction, and
    /// notes the transaction.
    pub fn write(&mut self, address: u8, bytes: &[u8]) -> (result: Result<(), T::Error>)
        ensures
            final(self).transfers() == old(self).transfers().push(
                (I2cTransfer { address, written: bytes@, read: None, result }),
            ),
    {
        let result = self.transport.write(address, bytes);
        self.record = Ghost(
            self.record@.push(I2cTransfer { address, written: bytes@, read: None, result }),
        );
        result
    }

    /// Sends `bytes` to the device at `address`, then reads enough bytes to
    /// fill `buffer`, in one transaction, and notes the transaction.
    pub fn write_read(&mut self, address: u8, bytes: &[u8], buffer: &mut [u8]) -> (result: Result<
        (),
        T::Error,
    >)
        ensures
            final(self).transfers() == old(self).transfers().push(
                (I2cTransfer { address, written: bytes@, read: Some(final(buffer)@), result }),
            ),
    {
        let result = self.transport.write_read(address, bytes, buffer);
        self.record = Ghost(
            self.record@.push(
                I2cTransfer { address, written: bytes@, read: Some(buffer@), result },
            ),
        );
        result
    }
}

/// An SPI transport together with the record of the transactions made
/// through it.
pub struct SpiLink<T: SpiTransport> {
    transport: T,
    record: Ghost<Seq<SpiTransfer<T::Error>>>,
}

impl<T: SpiTransport> SpiLink<T> {
    /// The transport behind the link.
    pub closed spec fn transport(&self) -> T {
        self.transport
    }

    /// Every transaction made through the link so far, oldest first.
    pub closed spec fn transfers(&self) -> Seq<SpiTransfer<T::Error>> {
        self.record@
    }

    /// Puts `transport` behind a link with an empty record.
    pub fn new(transport: T) -> (link: Self)
        ensures
            link.transport() == transport,
            link.transfers() == Seq::<SpiTransfer<T::Error>>::empty(),
    {
        SpiLink { transport, record: Ghost(Seq::empty()) }
    }

    /// Gives the transport back.
    pub fn release(self) -> (transport: T)
        ensures
            transport == self.transport(),
    {
        self.transport
    }

    /// Clocks `bytes` out to the device in one transaction, and notes the
    /// transaction.
    pub fn write(&mut self, bytes: &[u8]) -> (result: Result<(), T::Error>)
        ensures
            final(self).transfers() == old(self).transfers().push(
                (SpiTransfer { written: bytes@, read: None, result }),
            ),
    {
        let result = self.transport.write(bytes);
        self.record = Ghost(self.record@.push(SpiTransfer { written: bytes@, read: None, result }));
        result
    }

    /// Clocks `bytes` out to the device, then reads enough bytes to fill
    /// `buffer`, in one transaction, and notes the transaction.
    pub fn write_then_read(&mut self, bytes: &[u8], buffer: &mut [u8]) -> (result: Result<
        (),
        T::Error,
    >)
        ensures
            final(self).transfers() == old(self).transfers().push(
                (SpiTransfer { written: bytes@, read: Some(final(buffer)@), result }),
            ),
    {
        let result = self.transport.write_then_read(bytes, buffer);
        self.record = Ghost(
            self.record@.push(SpiTransfer { written: bytes@, read: Some(buffer@), result }),
        );
        result
    }
}

/// A pulse generator together with the record of the frames sent through
/// it.
pub struct PulseLink<T: PulseTransport> {
    transport: T,
    record: Ghost<Seq<PulseTransmission<T::Error>>>,
}

impl<T: PulseTransport> PulseLink<T> {
    /// The generator behind the link.
    pub closed spec fn transport(&self) -> T {
        self.transport
    }

    /// Every frame sent through the link so far, oldest first.
    pub closed spec fn transmissions(&self) -> Seq<PulseTransmission<T::Error>> {
        self.record@
    }

    /// Puts `transport` behind a link with an empty record.
    pub fn new(transport: T) -> (link: Self)
        ensures
            link.transport() == transport,
            link.transmissions() == Seq::<PulseTransmission<T::Error>>::empty(),
    {
        PulseLink { transport, record: Ghost(Seq::empty()) }
    }

    /// Gives the generator back.
    pub fn release(self) -> (transport: T)
        ensures
            transport == self.transport(),
    {
        self.transport
    }

    /// Sends `frame` as one uninterrupted burst, and notes the transmission.
    pub fn transmit(&mut self, frame: &PulseFrame) -> (result: Result<(), T::Error>)
        ensures
            final(self).transmissions() == old(self).transmissions().push(
                (PulseTransmission { frame: frame@, result }),
            ),
    {
        let result = self.transport.transmit(frame);
        self.record = Ghost(self.record@.push(PulseTransmission { frame: frame@, result }));
        result
    }
}

} // verus!
