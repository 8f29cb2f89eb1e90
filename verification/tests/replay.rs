use periph_drivers::bus::{
    I2cLink, I2cTransport, PulseLink, PulsePair, PulseTransport, SpiLink, SpiTransport,
};
use periph_drivers::replay::{
    BusFault, I2cExchange, PulseExchange, ReplayI2c, ReplayPulse, ReplaySpi, Reply, Script,
    SpiExchange,
};

#[test]
fn script_gives_out_its_replies_in_order() {
    let mut script = Script::new(vec![
        Reply::Data(vec![1, 2]),
        Reply::Fault(BusFault::Framing),
        Reply::Data(vec![]),
    ]);
    assert_eq!(script.remaining(), 3);
    let mut buffer = [0u8; 2];
    assert_eq!(script.fill(&mut buffer), Ok(()));
    assert_eq!(buffer, [1, 2]);
    assert_eq!(script.remaining(), 2);
    assert_eq!(script.acknowledge(), Err(BusFault::Framing));
    assert_eq!(script.acknowledge(), Ok(()));
    assert_eq!(script.remaining(), 0);
}

#[test]
fn script_that_ran_out_times_out() {
    let mut script = Script::new(Vec::new());
    assert_eq!(script.remaining(), 0);
    assert_eq!(script.acknowledge(), Err(BusFault::Timeout));
    let mut buffer = [9u8; 2];
    assert_eq!(script.fill(&mut buffer), Err(BusFault::Timeout));
    assert_eq!(buffer, [9, 9]);
    assert_eq!(script.remaining(), 0);
}

#[test]
fn fill_copies_as_far_as_both_reach() {
    let mut script = Script::new(vec![
        Reply::Data(vec![1]),
        Reply::Data(vec![1, 2, 3, 4, 5]),
        Reply::Data(vec![]),
        Reply::Fault(BusFault::NoAcknowledge),
    ]);
    let mut buffer = [7u8; 3];
    assert_eq!(script.fill(&mut buffer), Ok(()));
    assert_eq!(buffer, [1, 7, 7]);
    assert_eq!(script.fill(&mut buffer), Ok(()));
    assert_eq!(buffer, [1, 2, 3]);
    assert_eq!(script.fill(&mut buffer), Ok(()));
    assert_eq!(buffer, [1, 2, 3]);
    assert_eq!(script.fill(&mut buffer), Err(BusFault::NoAcknowledge));
    assert_eq!(buffer, [1, 2, 3]);
}

#[test]
fn replay_i2c_records_every_transaction() {
    let mut bus = ReplayI2c::new(vec![
        Reply::Data(vec![]),
        Reply::Data(vec![0xAA, 0xBB]),
        Reply::Fault(BusFault::NoAcknowledge),
    ]);
    assert!(bus.exchanges().is_empty());
    assert_eq!(bus.write(0x4C, &[0x07, 0x01]), Ok(()));
    let mut buffer = [0u8; 2];
    assert_eq!(bus.write_read(0x4C, &[0x00], &mut buffer), Ok(()));
    assert_eq!(buffer, [0xAA, 0xBB]);
    assert_eq!(bus.write(0x10, &[]), Err(BusFault::NoAcknowledge));
    assert_eq!(bus.write_read(0x10, &[0x01], &mut buffer), Err(BusFault::Timeout));
    assert_eq!(
        bus.exchanges(),
        &vec![
            I2cExchange { address: 0x4C, written: vec![0x07, 0x01], read: None, result: Ok(()) },
            I2cExchange {
                address: 0x4C,
                written: vec![0x00],
                read: Some(vec![0xAA, 0xBB]),
                result: Ok(()),
            },
            I2cExchange {
                address: 0x10,
                written: vec![],
                read: None,
                result: Err(BusFault::NoAcknowledge),
            },
            I2cExchange {
                address: 0x10,
                written: vec![0x01],
                read: Some(vec![0xAA, 0xBB]),
                result: Err(BusFault::Timeout),
            },
        ]
    );
}

#[test]
fn replay_spi_records_every_transaction() {
    let mut spi = ReplaySpi::new(vec![
        Reply::Data(vec![]),
        Reply::Data(vec![0xAD]),
        Reply::Fault(BusFault::Framing),
    ]);
    assert!(spi.exchanges().is_empty());
    assert_eq!(spi.write(&[0x0A, 0x2D, 0x02]), Ok(()));
    let mut buffer = [0u8; 1];
    assert_eq!(spi.write_then_read(&[0x0B, 0x00], &mut buffer), Ok(()));
    assert_eq!(buffer, [0xAD]);
    assert_eq!(spi.write_then_read(&[0x0B, 0x01], &mut buffer), Err(BusFault::Framing));
    assert_eq!(buffer, [0xAD]);
    assert_eq!(spi.write(&[0x0A]), Err(BusFault::Timeout));
    assert_eq!(
        spi.exchanges(),
        &vec![
            SpiExchange { written: vec![0x0A, 0x2D, 0x02], read: None, result: Ok(()) },
            SpiExchange { written: vec![0x0B, 0x00], read: Some(vec![0xAD]), result: Ok(()) },
            SpiExchange {
                written: vec![0x0B, 0x01],
                read: Some(vec![0xAD]),
                result: Err(BusFault::Framing),
            },
            SpiExchange { written: vec![0x0A], read: None, result: Err(BusFault::Timeout) },
        ]
    );
}

#[test]
fn replay_pulse_records_every_frame() {
    let mut tx = ReplayPulse::new(vec![Reply::Data(vec![]), Reply::Fault(BusFault::NoAcknowledge)]);
    assert!(tx.exchanges().is_empty());
    let first = [PulsePair { high_ns: 1, low_ns: 2 }; 24];
    let mut second = [PulsePair { high_ns: 3, low_ns: 4 }; 24];
    second[23] = PulsePair { high_ns: 5, low_ns: 6 };
    assert_eq!(tx.transmit(&first), Ok(()));
    assert_eq!(tx.transmit(&second), Err(BusFault::NoAcknowledge));
    assert_eq!(tx.transmit(&first), Err(BusFault::Timeout));
    assert_eq!(
        tx.exchanges(),
        &vec![
            PulseExchange { frame: first, result: Ok(()) },
            PulseExchange { frame: second, result: Err(BusFault::NoAcknowledge) },
            PulseExchange { frame: first, result: Err(BusFault::Timeout) },
        ]
    );
}

#[test]
fn links_pass_every_transaction_on_unchanged() {
    let mut i2c = I2cLink::new(ReplayI2c::new(vec![
        Reply::Data(vec![]),
        Reply::Data(vec![0x11, 0x22]),
        Reply::Fault(BusFault::Framing),
    ]));
    assert_eq!(i2c.write(0x4C, &[1, 2, 3]), Ok(()));
    let mut buffer = [0u8; 2];
    assert_eq!(i2c.write_read(0x4C, &[9], &mut buffer), Ok(()));
    assert_eq!(buffer, [0x11, 0x22]);
    assert_eq!(i2c.write(0x33, &[4]), Err(BusFault::Framing));
    let bus = i2c.release();
    assert_eq!(
        bus.exchanges(),
        &vec![
            I2cExchange { address: 0x4C, written: vec![1, 2, 3], read: None, result: Ok(()) },
            I2cExchange {
                address: 0x4C,
                written: vec![9],
                read: Some(vec![0x11, 0x22]),
                result: Ok(()),
            },
            I2cExchange {
                address: 0x33,
                written: vec![4],
                read: None,
                result: Err(BusFault::Framing),
            },
        ]
    );

    let mut spi = SpiLink::new(ReplaySpi::new(vec![Reply::Data(vec![]), Reply::Data(vec![7])]));
    assert_eq!(spi.write(&[0x0A, 1, 2]), Ok(()));
    let mut byte = [0u8; 1];
    assert_eq!(spi.write_then_read(&[0x0B, 1], &mut byte), Ok(()));
    assert_eq!(byte, [7]);
    assert_eq!(spi.write(&[0x0A, 1, 2]), Err(BusFault::Timeout));
    assert_eq!(spi.release().exchanges().len(), 3);

    let mut line = PulseLink::new(ReplayPulse::new(vec![Reply::Data(vec![])]));
    let frame = [PulsePair { high_ns: 700, low_ns: 600 }; 24];
    assert_eq!(line.transmit(&frame), Ok(()));
    assert_eq!(line.release().exchanges(), &vec![PulseExchange { frame, result: Ok(()) }]);
}
