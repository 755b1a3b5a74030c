//! The constant table of macOS: 64-bit flag words, and speed codes that are
//! the nominal rate itself.

use vstd::prelude::*;

verus! {

/// Largest value of a flag word or speed code (`unsigned long`).
pub const WORD_MAX: u64 = 0xFFFF_FFFF_FFFF_FFFF;

/// Number of slots in the control-character array.
pub const NCCS: usize = 20;

/// Slot of the minimum number of bytes a read waits for.
pub const VMIN: usize = 16;

/// Slot of the read timeout, in tenths of a second.
pub const VTIME: usize = 17;

/// Timing of a change of the attributes: at once.
pub const TCSANOW: i32 = 0;

// Input flags.
pub const IGNBRK: u64 = 0x0001;
pub const BRKINT: u64 = 0x0002;
pub const PARMRK: u64 = 0x0008;
pub const ISTRIP: u64 = 0x0020;
pub const INLCR: u64 = 0x0040;
pub const IGNCR: u64 = 0x0080;
pub const ICRNL: u64 = 0x0100;
pub const IXON: u64 = 0x0200;
pub const IXOFF: u64 = 0x0400;
pub const IXANY: u64 = 0x0800;

// Output flags.
pub const OPOST: u64 = 0x0001;

// Control flags.
pub const CSIZE: u64 = 0x0300;
pub const CS5: u64 = 0x0000;
pub const CS6: u64 = 0x0100;
pub const CS7: u64 = 0x0200;
pub const CS8: u64 = 0x0300;
pub const CSTOPB: u64 = 0x0400;
pub const PARENB: u64 = 0x1000;
pub const PARODD: u64 = 0x2000;
pub const CRTSCTS: u64 = 0x0003_0000;

// Local flags.
pub const ECHO: u64 = 0x0008;
pub const ECHONL: u64 = 0x0010;
pub const ISIG: u64 = 0x0080;
pub const ICANON: u64 = 0x0100;
pub const IEXTEN: u64 = 0x0400;

// Speed codes.
pub const B0: u64 = 0;
pub const B50: u64 = 50;
pub const B75: u64 = 75;
pub const B110: u64 = 110;
pub const B134: u64 = 134;
pub const B150: u64 = 150;
pub const B200: u64 = 200;
pub const B300: u64 = 300;
pub const B600: u64 = 600;
pub const B1200: u64 = 1200;
pub const B1800: u64 = 1800;
pub const B2400: u64 = 2400;
pub const B4800: u64 = 4800;
pub const B7200: u64 = 7200;
pub const B9600: u64 = 9600;
pub const B14400: u64 = 14400;
pub const B19200: u64 = 19200;
pub const B28800: u64 = 28800;
pub const B38400: u64 = 38400;
pub const B57600: u64 = 57600;
pub const B76800: u64 = 76800;
pub const B115200: u64 = 115200;
pub const B230400: u64 = 230400;

} // verus!
