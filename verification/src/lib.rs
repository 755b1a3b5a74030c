//! Serial port line discipline: the portable vocabulary of a serial line's
//! settings and their encoding in the control structure that the terminal
//! driver of the operating system keeps for a device.
//!
//! A device handle fetches the structure from its device, reads or changes
//! one setting, and pushes the whole structure back. This library is what
//! happens in between, on the structure in memory:
//!
//! - [`linux`] and [`macos`] are the constant tables of the two platforms,
//!   and [`platform`] and [`baud`] look a name up in the table of a platform;
//! - [`termios`] holds the control structure and reads and writes it flag by
//!   flag and slot by slot;
//! - [`settings`] reads and writes it setting by setting, and [`raw`] puts it
//!   into raw mode;
//! - [`options`] says with which access a device is opened, and [`error`]
//!   what can go wrong and how the status of a system call is read;
//! - [`laws`] states what holds of all of these together, and [`bits`] holds
//!   the algebra of flag words that the proofs rest on.
//!
//! Every function is verified against a contract over the mathematical value
//! of the structure, [`ControlStructure`]. No function panics, and none asks
//! anything of its caller but [`error::syscall_result`], which is not to be
//! handed a positive status: no system call on the attributes returns one.

#![allow(non_camel_case_types)]

pub mod baud;
pub mod bits;
pub mod error;
pub mod laws;
pub mod linux;
pub mod macos;
pub mod options;
pub mod platform;
pub mod raw;
pub mod settings;
pub mod termios;

pub use crate::baud::BaudRate;
pub use crate::error::Error;
pub use crate::options::{Access, OpenOptions};
pub use crate::platform::{Char, Field, Flag, Platform, When};
pub use crate::settings::Settings;
pub use crate::termios::{ControlStructure, Termios};

use vstd::prelude::*;

verus! {

/// For how long a read blocks.
#[derive(Clone, Copy, Debug, PartialEq, Eq, Structural)]
pub struct BlockingMode {
    /// A read blocks until at least this many bytes have arrived.
    pub bytes: u8,
    /// A read waits this many tenths of a second for a byte.
    pub deciseconds: u8,
}

/// Number of data bits per character.
#[derive(Clone, Copy, Debug, PartialEq, Eq, Structural)]
pub enum DataBits {
    Five,
    Six,
    Seven,
    Eight,
}

/// Which speed field a change of baud rate touches.
#[derive(Clone, Copy, Debug, PartialEq, Eq, Structural)]
pub enum Direction {
    Both,
    Input,
    Output,
}

/// Flow control.
#[derive(Clone, Copy, Debug, PartialEq, Eq, Structural)]
pub enum FlowControl {
    Hardware,
    /// No flow control.
    Off,
    Software,
}

/// Parity checking.
#[derive(Clone, Copy, Debug, PartialEq, Eq, Structural)]
pub enum Parity {
    Even,
    /// No parity bit.
    Off,
    Odd,
}

/// Number of stop bits per character.
#[derive(Clone, Copy, Debug, PartialEq, Eq, Structural)]
pub enum StopBits {
    One,
    Two,
}

} // verus!
