//! Interrupt-driven input capture on a four-channel hardware timer, over a
//! bit-exact model of the timer's register block.
//!
//! A task that wants the time of the next edge on a timer input starts a
//! wait. The wait arms the interrupt of its channel and stays pending until
//! the interrupt handler has cleared the channel's interrupt enable bit;
//! then it resolves to the counter value that the hardware latched at the
//! edge. Ending the wait disarms the channel again.
//!
//! The register block is a value, [`regs::TimerRegs`]: the driver's
//! operations are functions on it whose contracts say bit for bit what they
//! leave in it, and [`laws`] states what follows for every block.
//!
//! - [`bits`] and [`regs`]: words, bits and fields, and the register block.
//! - [`channel`] and [`config`]: channels, interrupt sources, and the typed
//!   values of the register fields.
//! - [`layout`]: where each field lives.
//! - [`hardware`]: what the hardware does to the block on an event.
//! - [`low_level`]: the timer adapter.
//! - [`codec`]: one channel's fields as typed values, for a capture input
//!   and for a compare output.
//! - [`interrupt`]: the waker table and the interrupt handler.
//! - [`driver`]: the input capture driver and its waits.

pub mod bits;
pub mod channel;
pub mod codec;
pub mod config;
pub mod driver;
pub mod hardware;
pub mod interrupt;
pub mod laws;
pub mod layout;
pub mod low_level;
pub mod regs;
