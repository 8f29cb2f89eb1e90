//! Register-level drivers for two accelerometers, and a pulse encoder for
//! one-wire addressable LEDs.
//!
//! * [`mma7660fc`]: a 6-bit accelerometer on an I2C bus. Mode control and a
//!   poll of the three axes.
//! * [`adxl367`]: a 14-bit accelerometer on an SPI bus. Register framing,
//!   burst reads, identity check and start of the measurement.
//! * [`neopixel`]: turns a colour into the frame of timed pulses that a
//!   one-wire LED takes, and hands the frame over in one piece.
//! * [`bus`]: the transports that the drivers are handed, and the links
//!   that keep the record of what went through them.
//! * [`replay`]: transports that answer from a script, for running the
//!   drivers without the hardware.
//!
//! No function here panics. Every function states what it returns and, for
//! the drivers, which transactions it makes, in which order, with which
//! bytes, and what it makes of each answer. All of it is verified with Verus.

pub mod adxl367;
pub mod bus;
pub mod mma7660fc;
pub mod neopixel;
pub mod replay;
