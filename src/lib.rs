//! Firmware core for a chain of addressable RGB LEDs: pulse timing, the
//! pulse-code encoder, the channel driver, the colour animator, a cooperative
//! scheduler model, the heap arena and the provisioning read.
pub mod animator;
pub mod color;
pub mod driver;
pub mod encoder;
pub mod heap;
pub mod provision;
pub mod scheduler;
pub mod timing;
