//! Pulse encoder for one-wire addressable LEDs of the WS2812 kind.
//!
//! Such an LED has no clock line. It takes 24 bits per pixel, the most
//! significant first, and tells a one from a zero by how long the line stays
//! high and then low. A pixel is therefore sent as one frame of 24 pulse
//! pairs, built whole before any of it goes out.

use crate::bus::PulseFrame;
use crate::bus::PulseLink;
use crate::bus::PulsePair;
use crate::bus::PulseTransmission;
use crate::bus::PulseTransport;
use vstd::prelude::*;
use vstd::std_specs::convert::FromSpecImpl;

verus! {

/// How long the line is high for a one bit, in nanoseconds.
pub const T1H_NS: u32 = 700;

/// How long the line is low for a one bit, in nanoseconds.
pub const T1L_NS: u32 = 600;

/// How long the line is high for a zero bit, in nanoseconds.
pub const T0H_NS: u32 = 350;

/// How long the line is low for a zero bit, in nanoseconds.
pub const T0L_NS: u32 = 800;

/// A colour by its three channels.
#[derive(Debug, Clone, Copy, PartialEq, Eq, Structural)]
pub struct Rgb {
    pub r: u8,
    pub g: u8,
    pub b: u8,
}

/// The colour as the LED takes it: green in bits 16 to 23, red in bits 8 to
/// 15, blue in bits 0 to 7, and nothing above.
pub open spec fn packed_color(rgb: Rgb) -> u32 {
    (rgb.g as int * 65536 + rgb.r as int * 256 + rgb.b as int) as u32
}

/// Whether bit `index` of `color` is set, bit 0 being the least significant.
pub open spec fn color_bit(color: u32, index: u32) -> bool {
    color & (1u32 << index) != 0
}

/// Whether bit `index` of the channel value `channel` is set, bit 0 being
/// the least significant.
pub open spec fn channel_bit(channel: u8, index: u32) -> bool {
    channel & (1u8 << index) != 0
}

/// The frame that sends the low 24 bits of `color`: at each position from
/// the start, the pair for the bit that many places below bit 23.
pub open spec fn spec_encode_frame(color: u32, one: PulsePair, zero: PulsePair) -> Seq<PulsePair> {
    Seq::new(
        24,
        |position: int|
            if color_bit(color, (23 - position) as u32) {
                one
            } else {
                zero
            },
    )
}

/// The frame that shows `rgb` on one LED, with the timing that the LED
/// expects.
pub open spec fn spec_pixel_frame(rgb: Rgb) -> Seq<PulsePair> {
    spec_encode_frame(packed_color(rgb), one_pulse(), zero_pulse())
}

/// The pulse pair of a one bit.
pub open spec fn spec_one_pulse() -> PulsePair {
    PulsePair { high_ns: T1H_NS, low_ns: T1L_NS }
}

/// The pulse pair of a zero bit.
pub open spec fn spec_zero_pulse() -> PulsePair {
    PulsePair { high_ns: T0H_NS, low_ns: T0L_NS }
}

/// The frame of a colour sends green first, then red, then blue, and each
/// channel from its most significant bit down: bit `bit` of green stands at
/// position `7 - bit`, that of red at `15 - bit`, that of blue at
/// `23 - bit`.
pub proof fn lemma_pixel_frame_sends_green_red_blue(rgb: Rgb, bit: u32)
    requires
        bit < 8,
    ensures
        spec_pixel_frame(rgb)[7 - bit] == (if channel_bit(rgb.g, bit) {
            one_pulse()
        } else {
            zero_pulse()
        }),
        spec_pixel_frame(rgb)[15 - bit] == (if channel_bit(rgb.r, bit) {
            one_pulse()
        } else {
            zero_pulse()
        }),
        spec_pixel_frame(rgb)[23 - bit] == (if channel_bit(rgb.b, bit) {
            one_pulse()
        } else {
            zero_pulse()
        }),
{
    let green = rgb.g;
    let red = rgb.r;
    let blue = rgb.b;
    let packed = packed_color(rgb);
    let green_index = (16 + bit) as u32;
    let red_index = (8 + bit) as u32;
    assert(packed == green as u32 * 65536 + red as u32 * 256 + blue as u32);
    assert({
        &&& (packed & (1u32 << green_index) != 0) == (green & (1u8 << bit) != 0)
        &&& (packed & (1u32 << red_index) != 0) == (red & (1u8 << bit) != 0)
        &&& (packed & (1u32 << bit) != 0) == (blue & (1u8 << bit) != 0)
    }) by (bit_vector)
        requires
            bit < 8,
            green_index == 16 + bit,
            red_index == 8 + bit,
            packed == green as u32 * 65536 + red as u32 * 256 + blue as u32,
    ;
    assert((23 - (7 - bit)) as u32 == green_index);
    assert((23 - (15 - bit)) as u32 == red_index);
    assert((23 - (23 - bit)) as u32 == bit);
}

impl Rgb {
    /// Makes a colour from its channels.
    pub fn new(r: u8, g: u8, b: u8) -> (rgb: Self)
        ensures
            rgb == (Rgb { r, g, b }),
    {
        Self { r, g, b }
    }
}

impl From<Rgb> for u32 {
    /// Packs the colour as the LED takes it.
    fn from(rgb: Rgb) -> (color: u32) {
        let green: u32 = rgb.g as u32;
        let red: u32 = rgb.r as u32;
        let blue: u32 = rgb.b as u32;
        assert((green << 16) | (red << 8) | blue == green * 65536 + red * 256 + blue)
            by (bit_vector)
            requires
                green < 256,
                red < 256,
                blue < 256,
        ;
        (green << 16) | (red << 8) | blue
    }
}

impl FromSpecImpl<Rgb> for u32 {
    open spec fn obeys_from_spec() -> bool {
        true
    }

    open spec fn from_spec(rgb: Rgb) -> u32 {
        packed_color(rgb)
    }
}

/// The pulse pair of a one bit.
#[verifier::when_used_as_spec(spec_one_pulse)]
pub fn one_pulse() -> (pair: PulsePair)
    ensures
        pair == spec_one_pulse(),
{
    PulsePair { high_ns: T1H_NS, low_ns: T1L_NS }
}

/// The pulse pair of a zero bit.
#[verifier::when_used_as_spec(spec_zero_pulse)]
pub fn zero_pulse() -> (pair: PulsePair)
    ensures
        pair == spec_zero_pulse(),
{
    PulsePair { high_ns: T0H_NS, low_ns: T0L_NS }
}

/// Builds the frame that sends the low 24 bits of `color`, most significant
/// bit first, with `one` for each set bit and `zero` for each clear one.
pub fn encode_frame(color: u32, one: PulsePair, zero: PulsePair) -> (frame: PulseFrame)
    ensures
        frame@ == spec_encode_frame(color, one, zero),
        frame@.len() == 24,
        forall|position: int|
            0 <= position < 24 ==> #[trigger] frame@[position] == (if color_bit(
                color,
                (23 - position) as u32,
            ) {
                one
            } else {
                zero
            }),
{
    let mut frame: PulseFrame = [zero; 24];
    let mut position: usize = 0;
    while position < 24
        invariant
            position <= 24,
            forall|done: int|
                0 <= done < position ==> frame@[done] == spec_encode_frame(color, one, zero)[done],
        decreases 24 - position,
    {
        let index: u32 = 23 - position as u32;
        let mask: u32 = 1u32 << index;
        let pair = if color & mask != 0 {
            one
        } else {
            zero
        };
        frame[position] = pair;
        position = position + 1;
    }
    frame
}

/// Builds the frame that shows `rgb` on one LED, with the timing that the
/// LED expects: 700 ns high and 600 ns low for a one, 350 ns high and 800 ns
/// low for a zero.
pub fn pixel_frame(rgb: Rgb) -> (frame: PulseFrame)
    ensures
        frame@ == spec_pixel_frame(rgb),
        frame@.len() == 24,
        forall|position: int|
            0 <= position < 24 ==> #[trigger] frame@[position] == (if color_bit(
                packed_color(rgb),
                (23 - position) as u32,
            ) {
                PulsePair { high_ns: 700, low_ns: 600 }
            } else {
                PulsePair { high_ns: 350, low_ns: 800 }
            }),
{
    let color: u32 = u32::from(rgb);
    encode_frame(color, one_pulse(), zero_pulse())
}

/// Shows `rgb` on the LED behind `tx`: builds the frame and hands it over in
/// one piece. Nothing else is sent, and a failure is not tried again.
pub fn neopixel<TX: PulseTransport>(rgb: Rgb, tx: &mut PulseLink<TX>) -> (result: Result<
    (),
    TX::Error,
>)
    ensures
        final(tx).transmissions() == old(tx).transmissions().push(
            (PulseTransmission { frame: spec_pixel_frame(rgb), result }),
        ),
{
    let frame = pixel_frame(rgb);
    tx.transmit(&frame)
}

} // verus!
