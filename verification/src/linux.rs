//! The constant table of Linux: 32-bit flag words and speed codes, the
//! extended speeds above 38400 baud marked by one high bit of the code.

use vstd::prelude::*;

verus! {

/// Largest value of a flag word or speed code (`unsigned int`).
pub const WORD_MAX: u64 = 0xFFFF_FFFF;

/// Number of slots in the control-character array.
pub const NCCS: usize = 32;

/// Slot of the minimum number of bytes a read waits for.
pub const VMIN: usize = 6;

/// Slot of the read timeout, in tenths of a second.
pub const VTIME: usize = 5;

/// Timing of a change of the attributes: at once.
pub const TCSANOW: i32 = 0;

// Input flags.
pub const IGNBRK: u64 = 0x0001;
pub const BRKINT: u64 = 0x0002;
pub const PARMRK: u64 = 0x0008;
pub const ISTRIP: u64 = 0x0020;
pub const INLCR: u64 = 0x0040;
pub const IGNCR: u64 = 0x0080;
pub const ICRNL: u64 = 0x0100;
pub const IXON: u64 = 0x0400;
pub const IXANY: u64 = 0x0800;
pub const IXOFF: u64 = 0x1000;

// Output flags.
pub const OPOST: u64 = 0x0001;

// Control flags.
pub const CSIZE: u64 = 0x0030;
pub const CS5: u64 = 0x0000;
pub const CS6: u64 = 0x0010;
pub const CS7: u64 = 0x0020;
pub const CS8: u64 = 0x0030;
pub const CSTOPB: u64 = 0x0040;
pub const PARENB: u64 = 0x0100;
pub const PARODD: u64 = 0x0200;
pub const CRTSCTS: u64 = 0x8000_0000;

// Local flags.
pub const ISIG: u64 = 0x0001;
pub const ICANON: u64 = 0x0002;
pub const ECHO: u64 = 0x0008;
pub const ECHONL: u64 = 0x0040;
pub const IEXTEN: u64 = 0x8000;

// Speed codes.
pub const B0: u64 = 0x0000;
pub const B50: u64 = 0x0001;
pub const B75: u64 = 0x0002;
pub const B110: u64 = 0x0003;
pub const B134: u64 = 0x0004;
pub const B150: u64 = 0x0005;
pub const B200: u64 = 0x0006;
pub const B300: u64 = 0x0007;
pub const B600: u64 = 0x0008;
pub const B1200: u64 = 0x0009;
pub const B1800: u64 = 0x000A;
pub const B2400: u64 = 0x000B;
pub const B4800: u64 = 0x000C;
pub const B9600: u64 = 0x000D;
pub const B19200: u64 = 0x000E;
pub const B38400: u64 = 0x000F;
pub const B57600: u64 = 0x1001;
pub const B115200: u64 = 0x1002;
pub const B230400: u64 = 0x1003;
pub const B460800: u64 = 0x1004;
pub const B500000: u64 = 0x1005;
pub const B576000: u64 = 0x1006;
pub const B921600: u64 = 0x1007;
pub const B1000000: u64 = 0x1008;
pub const B1152000: u64 = 0x1009;
pub const B1500000: u64 = 0x100A;
pub const B2000000: u64 = 0x100B;
pub const B2500000: u64 = 0x100C;
pub const B3000000: u64 = 0x100D;
pub const B3500000: u64 = 0x100E;
pub const B4000000: u64 = 0x100F;

} // verus!
