//! Hardware-facing core of a small bare-metal kernel: an I/O-port write log,
//! a spinlock, a VGA text console and the PIC initialization sequence.
//!
//! Every effect on the machine is modelled as data: port writes are recorded
//! in a [`port::PortLog`] and screen cells live in a [`vga::Buffer`]; the
//! kernel binary replays them onto the real ports and the memory at 0xB8000.
pub mod console_laws;
pub mod pic;
pub mod port;
pub mod spin;
pub mod vga;
