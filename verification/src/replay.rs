//! Transports that answer from a script instead of driving a peripheral.
//!
//! A scripted transport is given, in advance, the answer to each transaction
//! that will be made through it, and keeps a record of the transactions as
//! they come. With one in place of the hardware a driver runs on any machine,
//! and what it sent can be read back afterwards.

use crate::bus::I2cTransfer;
use crate::bus::I2cTransport;
use crate::bus::PulseFrame;
use crate::bus::PulseTransmission;
use crate::bus::PulseTransport;
use crate::bus::SpiTransfer;
use crate::bus::SpiTransport;
use vstd::prelude::*;
use vstd::slice::slice_to_vec;

verus! {

/// Why a scripted transaction failed.
#[derive(Debug, Clone, Copy, PartialEq, Eq, Structural)]
pub enum BusFault {
    /// The device did not acknowledge.
    NoAcknowledge,
    /// The device did not answer in time.
    Timeout,
    /// What came back was not a well-formed frame.
    Framing,
}

/// The answer to one transaction.
#[derive(Debug, PartialEq, Eq)]
pub enum Reply {
    /// The transaction succeeds. If it has a read phase, these bytes come
    /// back.
    Data(Vec<u8>),
    /// The transaction fails.
    Fault(BusFault),
}

impl View for Reply {
    type V = Result<Seq<u8>, BusFault>;

    open spec fn view(&self) -> Result<Seq<u8>, BusFault> {
        match self {
            Reply::Data(data) => Ok(data@),
            Reply::Fault(fault) => Err(*fault),
        }
    }
}

/// What a read buffer holds after `data` came back: the bytes of `data`
/// from the start, as far as both reach, and behind them what the buffer
/// held before.
pub open spec fn overlay(buffer: Seq<u8>, data: Seq<u8>) -> Seq<u8> {
    Seq::new(
        buffer.len(),
        |i: int|
            if i < data.len() {
                data[i]
            } else {
                buffer[i]
            },
    )
}

/// How a transaction ends that was given `reply`.
pub open spec fn outcome(reply: Result<Seq<u8>, BusFault>) -> Result<(), BusFault> {
    match reply {
        Ok(_) => Ok(()),
        Err(fault) => Err(fault),
    }
}

/// What a read buffer holds after a transaction that was given `reply`. A
/// failed transaction leaves the buffer as it was.
pub open spec fn filled(buffer: Seq<u8>, reply: Result<Seq<u8>, BusFault>) -> Seq<u8> {
    match reply {
        Ok(data) => overlay(buffer, data),
        Err(_) => buffer,
    }
}

/// The answers to a series of transactions, given out one per transaction.
pub struct Script {
    replies: Vec<Reply>,
    position: usize,
}

impl Script {
    /// All the answers, those given out already and those to come.
    pub closed spec fn replies(&self) -> Seq<Result<Seq<u8>, BusFault>> {
        Seq::new(self.replies@.len(), |i: int| self.replies@[i]@)
    }

    /// How many answers have been given out.
    pub closed spec fn position(&self) -> nat {
        self.position as nat
    }

    /// The answer to the next transaction. A script that has run out answers
    /// as a device that is not there: with a timeout.
    pub open spec fn next_reply(&self) -> Result<Seq<u8>, BusFault> {
        if self.position() < self.replies().len() {
            self.replies()[self.position() as int]
        } else {
            Err(BusFault::Timeout)
        }
    }

    /// Whether `self` is `earlier` after one more transaction.
    pub open spec fn follows(&self, earlier: &Self) -> bool {
        &&& self.replies() == earlier.replies()
        &&& self.position() == if earlier.position() < earlier.replies().len() {
            earlier.position() + 1
        } else {
            earlier.position()
        }
    }

    /// Makes a script that gives out `replies` in order.
    pub fn new(replies: Vec<Reply>) -> (script: Self)
        ensures
            script.replies() == Seq::new(replies@.len(), |i: int| replies@[i]@),
            script.position() == 0,
    {
        Script { replies, position: 0 }
    }

    /// Tells how many answers are left.
    pub fn remaining(&self) -> (count: usize)
        ensures
            count == if self.position() < self.replies().len() {
                self.replies().len() - self.position()
            } else {
                0
            },
    {
        if self.position < self.replies.len() {
            self.replies.len() - self.position
        } else {
            0
        }
    }

    /// Answers a transaction that has no read phase.
    pub fn acknowledge(&mut self) -> (result: Result<(), BusFault>)
        ensures
            final(self).follows(old(self)),
            result == outcome(old(self).next_reply()),
    {
        if self.position >= self.replies.len() {
            return Err(BusFault::Timeout);
        }
        let result = match &self.replies[self.position] {
            Reply::Data(_) => Ok(()),
            Reply::Fault(fault) => Err(*fault),
        };
        self.position = self.position + 1;
        result
    }

    /// Answers a transaction that reads into `buffer`.
    pub fn fill(&mut self, buffer: &mut [u8]) -> (result: Result<(), BusFault>)
        ensures
            final(self).follows(old(self)),
            result == outcome(old(self).next_reply()),
            final(buffer)@ == filled(old(buffer)@, old(self).next_reply()),
    {
        if self.position >= self.replies.len() {
            return Err(BusFault::Timeout);
        }
        let result = match &self.replies[self.position] {
            Reply::Data(data) => {
                let count = if data.len() < buffer.len() {
                    data.len()
                } else {
                    buffer.len()
                };
                let mut i: usize = 0;
                while i < count
                    invariant
                        i <= count,
                        count <= data@.len(),
                        count <= buffer@.len(),
                        buffer@.len() == old(buffer)@.len(),
                        forall|j: int| 0 <= j < i ==> buffer@[j] == data@[j],
                        forall|j: int| i <= j < buffer@.len() ==> buffer@[j] == old(buffer)@[j],
                    decreases count - i,
                {
                    buffer[i] = data[i];
                    i = i + 1;
                }
                assert(buffer@ =~= overlay(old(buffer)@, data@));
                Ok(())
            },
            Reply::Fault(fault) => Err(*fault),
        };
        self.position = self.position + 1;
        result
    }
}

/// The record of one transaction on a scripted I2C bus.
#[derive(Debug, PartialEq, Eq)]
pub struct I2cExchange {
    /// The address of the device that was addressed.
    pub address: u8,
    /// The bytes sent in the write phase.
    pub written: Vec<u8>,
    /// What the read buffer held afterwards, or `None` for a transaction
    /// without a read phase.
    pub read: Option<Vec<u8>>,
    /// How the transaction ended.
    pub result: Result<(), BusFault>,
}

impl View for I2cExchange {
    type V = I2cTransfer<BusFault>;

    open spec fn view(&self) -> I2cTransfer<BusFault> {
        I2cTransfer {
            address: self.address,
            written: self.written@,
            read: match self.read {
                Some(data) => Some(data@),
                None => None,
            },
            result: self.result,
        }
    }
}

/// The record of one transaction on a scripted SPI bus.
#[derive(Debug, PartialEq, Eq)]
pub struct SpiExchange {
    /// The bytes clocked out in the write phase.
    pub written: Vec<u8>,
    /// What the read buffer held afterwards, or `None` for a transaction
    /// without a read phase.
    pub read: Option<Vec<u8>>,
    /// How the transaction ended.
    pub result: Result<(), BusFault>,
}

impl View for SpiExchange {
    type V = SpiTransfer<BusFault>;

    open spec fn view(&self) -> SpiTransfer<BusFault> {
        SpiTransfer {
            written: self.written@,
            read: match self.read {
                Some(data) => Some(data@),
                None => None,
            },
            result: self.result,
        }
    }
}

/// An I2C bus whose devices answer from a script.
pub struct ReplayI2c {
    script: Script,
    log: Vec<I2cExchange>,
}

impl ReplayI2c {
    /// Every transaction made so far, oldest first.
    pub closed spec fn transfers(&self) -> Seq<I2cTransfer<BusFault>> {
        Seq::new(self.log@.len(), |i: int| self.log@[i]@)
    }

    /// The script that the bus answers from.
    pub closed spec fn script(&self) -> Script {
        self.script
    }

    /// Makes a bus that answers the transactions to come with `replies`, in
    /// order. Nothing has been sent over it.
    pub fn new(replies: Vec<Reply>) -> (bus: Self)
        ensures
            bus.script().replies() == Seq::new(replies@.len(), |i: int| replies@[i]@),
            bus.script().position() == 0,
            bus.transfers() == Seq::<I2cTransfer<BusFault>>::empty(),
    {
        let bus = ReplayI2c { script: Script::new(replies), log: Vec::new() };
        assert(bus.transfers() =~= Seq::<I2cTransfer<BusFault>>::empty());
        bus
    }

    /// Gives the record of the transactions made so far, oldest first.
    pub fn exchanges(&self) -> (log: &Vec<I2cExchange>)
        ensures
            log@.len() == self.transfers().len(),
            forall|i: int| 0 <= i < log@.len() ==> (#[trigger] log@[i])@ == self.transfers()[i],
    {
        &self.log
    }
}

impl I2cTransport for ReplayI2c {
    type Error = BusFault;

    fn write(&mut self, address: u8, bytes: &[u8]) -> (result: Result<(), BusFault>)
        ensures
            final(self).script().follows(&old(self).script()),
            result == outcome(old(self).script().next_reply()),
            final(self).transfers() == old(self).transfers().push(
                (I2cTransfer { address, written: bytes@, read: None, result }),
            ),
    {
        let result = self.script.acknowledge();
        self.log.push(I2cExchange { address, written: slice_to_vec(bytes), read: None, result });
        assert(self.transfers() =~= old(self).transfers().push(
            (I2cTransfer { address, written: bytes@, read: None, result }),
        ));
        result
    }

    fn write_read(&mut self, address: u8, bytes: &[u8], buffer: &mut [u8]) -> (result: Result<
        (),
        BusFault,
    >)
        ensures
            final(self).script().follows(&old(self).script()),
            result == outcome(old(self).script().next_reply()),
            final(buffer)@ == filled(old(buffer)@, old(self).script().next_reply()),
            final(self).transfers() == old(self).transfers().push(
                (I2cTransfer { address, written: bytes@, read: Some(final(buffer)@), result }),
            ),
    {
        let result = self.script.fill(buffer);
        self.log.push(
            I2cExchange {
                address,
                written: slice_to_vec(bytes),
                read: Some(slice_to_vec(buffer)),
                result,
            },
        );
        assert(self.transfers() =~= old(self).transfers().push(
            (I2cTransfer { address, written: bytes@, read: Some(buffer@), result }),
        ));
        result
    }
}

/// A device on an SPI bus that answers from a script.
pub struct ReplaySpi {
    script: Script,
    log: Vec<SpiExchange>,
}

impl ReplaySpi {
    /// Every transaction made so far, oldest first.
    pub closed spec fn transfers(&self) -> Seq<SpiTransfer<BusFault>> {
        Seq::new(self.log@.len(), |i: int| self.log@[i]@)
    }

    /// The script that the device answers from.
    pub closed spec fn script(&self) -> Script {
        self.script
    }

    /// Makes a device that answers the transactions to come with `replies`,
    /// in order. Nothing has been sent to it.
    pub fn new(replies: Vec<Reply>) -> (bus: Self)
        ensures
            bus.script().replies() == Seq::new(replies@.len(), |i: int| replies@[i]@),
            bus.script().position() == 0,
            bus.transfers() == Seq::<SpiTransfer<BusFault>>::empty(),
    {
        let bus = ReplaySpi { script: Script::new(replies), log: Vec::new() };
        assert(bus.transfers() =~= Seq::<SpiTransfer<BusFault>>::empty());
        bus
    }

    /// Gives the record of the transactions made so far, oldest first.
    pub fn exchanges(&self) -> (log: &Vec<SpiExchange>)
        ensures
            log@.len() == self.transfers().len(),
            forall|i: int| 0 <= i < log@.len() ==> (#[trigger] log@[i])@ == self.transfers()[i],
    {
        &self.log
    }
}

impl SpiTransport for ReplaySpi {
    type Error = BusFault;

    fn write(&mut self, bytes: &[u8]) -> (result: Result<(), BusFault>)
        ensures
            final(self).script().follows(&old(self).script()),
            result == outcome(old(self).script().next_reply()),
            final(self).transfers() == old(self).transfers().push(
                (SpiTransfer { written: bytes@, read: None, result }),
            ),
    {
        let result = self.script.acknowledge();
        self.log.push(SpiExchange { written: slice_to_vec(bytes), read: None, result });
        assert(self.transfers() =~= old(self).transfers().push(
            (SpiTransfer { written: bytes@, read: None, result }),
        ));
        result
    }

    fn write_then_read(&mut self, bytes: &[u8], buffer: &mut [u8]) -> (result: Result<
        (),
        BusFault,
    >)
        ensures
            final(self).script().follows(&old(self).script()),
            result == outcome(old(self).script().next_reply()),
            final(buffer)@ == filled(old(buffer)@, old(self).script().next_reply()),
            final(self).transfers() == old(self).transfers().push(
                (SpiTransfer { written: bytes@, read: Some(final(buffer)@), result }),
            ),
    {
        let result = self.script.fill(buffer);
        self.log.push(
            SpiExchange { written: slice_to_vec(bytes), read: Some(slice_to_vec(buffer)), result },
        );
        assert(self.transfers() =~= old(self).transfers().push(
            (SpiTransfer { written: bytes@, read: Some(buffer@), result }),
        ));
        result
    }
}

/// The record of one frame handed to a scripted pulse generator.
#[derive(Debug, PartialEq, Eq)]
pub struct PulseExchange {
    /// The frame, in the order in which it went out.
    pub frame: PulseFrame,
    /// How the transmission ended.
    pub result: Result<(), BusFault>,
}

impl View for PulseExchange {
    type V = PulseTransmission<BusFault>;

    open spec fn view(&self) -> PulseTransmission<BusFault> {
        PulseTransmission { frame: self.frame@, result: self.result }
    }
}

/// A pulse generator that answers from a script.
pub struct ReplayPulse {
    script: Script,
    log: Vec<PulseExchange>,
}

impl ReplayPulse {
    /// Every frame sent so far, oldest first.
    pub closed spec fn transmissions(&self) -> Seq<PulseTransmission<BusFault>> {
        Seq::new(self.log@.len(), |i: int| self.log@[i]@)
    }

    /// The script that the generator answers from.
    pub closed spec fn script(&self) -> Script {
        self.script
    }

    /// Makes a generator that answers the transmissions to come with
    /// `replies`, in order. Nothing has been sent through it.
    pub fn new(replies: Vec<Reply>) -> (tx: Self)
        ensures
            tx.script().replies() == Seq::new(replies@.len(), |i: int| replies@[i]@),
            tx.script().position() == 0,
            tx.transmissions() == Seq::<PulseTransmission<BusFault>>::empty(),
    {
        let tx = ReplayPulse { script: Script::new(replies), log: Vec::new() };
        assert(tx.transmissions() =~= Seq::<PulseTransmission<BusFault>>::empty());
        tx
    }

    /// Gives the record of the frames sent so far, oldest first.
    pub fn exchanges(&self) -> (log: &Vec<PulseExchange>)
        ensures
            log@.len() == self.transmissions().len(),
            forall|i: int|
                0 <= i < log@.len() ==> (#[trigger] log@[i])@ == self.transmissions()[i],
    {
        &self.log
    }
}

impl PulseTransport for ReplayPulse {
    type Error = BusFault;

    fn transmit(&mut self, frame: &PulseFrame) -> (result: Result<(), BusFault>)
        ensures
            final(self).script().follows(&old(self).script()),
            result == outcome(old(self).script().next_reply()),
            final(self).transmissions() == old(self).transmissions().push(
                (PulseTransmission { frame: frame@, result }),
            ),
    {
        let result = self.script.acknowledge();
        self.log.push(PulseExchange { frame: *frame, result });
        assert(self.transmissions() =~= old(self).transmissions().push(
            (PulseTransmission { frame: frame@, result }),
        ));
        result
    }
}

} // verus!
