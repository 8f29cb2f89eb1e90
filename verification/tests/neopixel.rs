use periph_drivers::bus::{PulseFrame, PulseLink, PulsePair};
use periph_drivers::neopixel::{
    encode_frame, neopixel, one_pulse, pixel_frame, zero_pulse, Rgb, T0H_NS, T0L_NS, T1H_NS,
    T1L_NS,
};
use periph_drivers::replay::{BusFault, PulseExchange, ReplayPulse, Reply};

const ONE: PulsePair = PulsePair { high_ns: 700, low_ns: 600 };
const ZERO: PulsePair = PulsePair { high_ns: 350, low_ns: 800 };

fn bits_of(frame: &PulseFrame, one: PulsePair, zero: PulsePair) -> String {
    let mut bits = String::new();
    for (position, pair) in frame.iter().enumerate() {
        if position > 0 && position % 8 == 0 {
            bits.push(' ');
        }
        if *pair == one {
            bits.push('1');
        } else {
            assert_eq!(*pair, zero);
            bits.push('0');
        }
    }
    bits
}

#[test]
fn timing_is_the_leds() {
    assert_eq!(T1H_NS, 700);
    assert_eq!(T1L_NS, 600);
    assert_eq!(T0H_NS, 350);
    assert_eq!(T0L_NS, 800);
    assert_eq!(one_pulse(), ONE);
    assert_eq!(zero_pulse(), ZERO);
}

#[test]
fn rgb_new_keeps_the_channels() {
    let rgb = Rgb::new(1, 2, 4);
    assert_eq!(rgb, Rgb { r: 1, g: 2, b: 4 });
}

#[test]
fn color_packs_green_red_blue() {
    assert_eq!(u32::from(Rgb::new(1, 2, 4)), 0x020104);
    assert_eq!(u32::from(Rgb::new(0, 0, 0)), 0);
    assert_eq!(u32::from(Rgb::new(255, 255, 255)), 0x00FF_FFFF);
    assert_eq!(u32::from(Rgb::new(0xAA, 0xBB, 0xCC)), 0x00BB_AACC);
    assert_eq!(u32::from(Rgb::new(255, 0, 0)), 0x0000_FF00);
    assert_eq!(u32::from(Rgb::new(0, 255, 0)), 0x00FF_0000);
    assert_eq!(u32::from(Rgb::new(0, 0, 255)), 0x0000_00FF);
    let packed: u32 = Rgb::new(3, 5, 7).into();
    assert_eq!(packed, 0x050307);
}

#[test]
fn frame_of_1_2_4_is_the_documented_pattern() {
    let frame = pixel_frame(Rgb::new(1, 2, 4));
    assert_eq!(frame.len(), 24);
    assert_eq!(bits_of(&frame, ONE, ZERO), "00000010 00000001 00000100");
    for (position, pair) in frame.iter().enumerate() {
        if position == 6 || position == 15 || position == 21 {
            assert_eq!(*pair, PulsePair { high_ns: 700, low_ns: 600 });
        } else {
            assert_eq!(*pair, PulsePair { high_ns: 350, low_ns: 800 });
        }
    }
}

#[test]
fn frame_sends_the_most_significant_bit_first() {
    let frame = encode_frame(0x0080_0000, ONE, ZERO);
    assert_eq!(bits_of(&frame, ONE, ZERO), "10000000 00000000 00000000");
    let frame = encode_frame(0x0000_0001, ONE, ZERO);
    assert_eq!(bits_of(&frame, ONE, ZERO), "00000000 00000000 00000001");
}

#[test]
fn frame_sends_green_then_red_then_blue() {
    assert_eq!(bits_of(&pixel_frame(Rgb::new(0, 0x80, 0)), ONE, ZERO), "10000000 00000000 00000000");
    assert_eq!(bits_of(&pixel_frame(Rgb::new(0x80, 0, 0)), ONE, ZERO), "00000000 10000000 00000000");
    assert_eq!(bits_of(&pixel_frame(Rgb::new(0, 0, 0x80)), ONE, ZERO), "00000000 00000000 10000000");
    assert_eq!(bits_of(&pixel_frame(Rgb::new(0, 0, 1)), ONE, ZERO), "00000000 00000000 00000001");
    for bit in 0..8usize {
        let value = 1u8 << bit;
        assert_eq!(pixel_frame(Rgb::new(0, value, 0))[7 - bit], ONE);
        assert_eq!(pixel_frame(Rgb::new(value, 0, 0))[15 - bit], ONE);
        assert_eq!(pixel_frame(Rgb::new(0, 0, value))[23 - bit], ONE);
    }
}

#[test]
fn frame_of_black_and_white() {
    assert_eq!(pixel_frame(Rgb::new(0, 0, 0)), [ZERO; 24]);
    assert_eq!(pixel_frame(Rgb::new(255, 255, 255)), [ONE; 24]);
}

#[test]
fn frame_matches_each_bit_of_the_color() {
    for color in [0u32, 1, 0x020104, 0x00AB_CDEF, 0x00FF_FFFF, 0x0055_AA33, 0x0080_0001] {
        let frame = encode_frame(color, ONE, ZERO);
        assert_eq!(frame.len(), 24);
        for position in 0..24 {
            let bit = (color >> (23 - position)) & 1 == 1;
            assert_eq!(frame[position], if bit { ONE } else { ZERO });
        }
    }
}

#[test]
fn frame_ignores_what_lies_above_bit_23() {
    assert_eq!(encode_frame(0xFF02_0104, ONE, ZERO), encode_frame(0x0002_0104, ONE, ZERO));
    assert_eq!(encode_frame(0xFF00_0000, ONE, ZERO), [ZERO; 24]);
    assert_eq!(encode_frame(u32::MAX, ONE, ZERO), [ONE; 24]);
}

#[test]
fn frame_uses_the_timing_it_is_given() {
    let one = PulsePair { high_ns: 800, low_ns: 450 };
    let zero = PulsePair { high_ns: 400, low_ns: 850 };
    let frame = encode_frame(0x00A0_0005, one, zero);
    assert_eq!(bits_of(&frame, one, zero), "10100000 00000000 00000101");
}

#[test]
fn pixel_frame_is_the_frame_of_the_packed_color() {
    for (r, g, b) in [(1u8, 2u8, 4u8), (0, 0, 0), (255, 128, 64), (17, 34, 68)] {
        let rgb = Rgb::new(r, g, b);
        assert_eq!(pixel_frame(rgb), encode_frame(u32::from(rgb), ONE, ZERO));
    }
}

#[test]
fn frame_has_24_entries_for_every_channel_value() {
    for value in 0..=255u8 {
        let frame = pixel_frame(Rgb::new(value, value.wrapping_mul(7), !value));
        assert_eq!(frame.len(), 24);
        for pair in frame.iter() {
            assert!(*pair == ONE || *pair == ZERO);
        }
    }
}

#[test]
fn neopixel_hands_the_frame_over_in_one_piece() {
    let mut link = PulseLink::new(ReplayPulse::new(vec![Reply::Data(vec![])]));
    assert_eq!(neopixel(Rgb::new(1, 2, 4), &mut link), Ok(()));
    let tx = link.release();
    assert_eq!(
        tx.exchanges(),
        &vec![PulseExchange { frame: pixel_frame(Rgb::new(1, 2, 4)), result: Ok(()) }]
    );
    assert_eq!(bits_of(&tx.exchanges()[0].frame, ONE, ZERO), "00000010 00000001 00000100");
}

#[test]
fn neopixel_surfaces_the_fault_and_does_not_try_again() {
    let mut link = PulseLink::new(ReplayPulse::new(vec![
        Reply::Fault(BusFault::Framing),
        Reply::Data(vec![]),
    ]));
    assert_eq!(neopixel(Rgb::new(9, 9, 9), &mut link), Err(BusFault::Framing));
    assert_eq!(neopixel(Rgb::new(0, 0, 0), &mut link), Ok(()));
    assert_eq!(neopixel(Rgb::new(0, 0, 0), &mut link), Err(BusFault::Timeout));
    let tx = link.release();
    assert_eq!(tx.exchanges().len(), 3);
    assert_eq!(tx.exchanges()[0].frame, pixel_frame(Rgb::new(9, 9, 9)));
    assert_eq!(tx.exchanges()[0].result, Err(BusFault::Framing));
    assert_eq!(tx.exchanges()[1].result, Ok(()));
}
