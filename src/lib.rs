//! Interrupt and I/O core of a small x86_64 kernel: the text-mode display
//! model, the input handoff queue and scancode decoder, the layout and fault
//! policy of the interrupt dispatch table, and the serial line's decisions.

pub mod hid;
pub mod init;
pub mod uart;
pub mod vga;
