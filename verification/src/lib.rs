//! Register-level driver core for the HK32F0301MxxC family.
//!
//! The crate decides what is written to which register and in which order;
//! it never touches a register itself.  Every operation that needs the
//! hardware is handed out as a [`bus::Sequencer`]: the caller performs the
//! bus accesses the sequencer asks for and feeds back what it has read.

pub mod adc;
pub mod bus;
pub mod delay;
pub mod prelude;
pub mod rcc;
pub mod serial;
pub mod time;
pub mod timers;
