//! Remote I/O expansion board core: a host sends short binary commands over a
//! serial link; the device answers with digital pin reads/writes, analog
//! conversions and a fixed-format acknowledgement, while a status LED driven
//! by a bit-timed single-wire encoder reflects the operating phase.
//!
//! This crate holds the verified logic: the protocol codec, the exclusive
//! pin-resource manager over a loopback pin model, the LED signal encoder and
//! the per-request dispatch step. The serial, GPIO and LED peripherals
//! themselves live outside the library and exchange plain values with it.

pub mod com;
pub mod consts;
pub mod dispatch;
pub mod neopixel;
pub mod pins;
