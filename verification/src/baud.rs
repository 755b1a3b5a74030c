//! Baud rates: the nominal speeds of a serial line and the opaque codes by
//! which each platform stores them.

use vstd::prelude::*;
use crate::linux;
use crate::macos;
use crate::platform::Platform;

verus! {

/// A nominal transmission speed, named by its rate in baud. No platform knows
/// every rate: the table of a platform gives a code to those it supports.
#[derive(Clone, Copy, Debug, PartialEq, Eq, Structural)]
pub enum BaudRate {
    B0,
    B50,
    B75,
    B110,
    B134,
    B150,
    B200,
    B300,
    B600,
    B1200,
    B1800,
    B2400,
    B4800,
    B7200,
    B9600,
    B14400,
    B19200,
    B28800,
    B38400,
    B57600,
    B76800,
    B115200,
    B230400,
    B460800,
    B500000,
    B576000,
    B921600,
    B1000000,
    B1152000,
    B1500000,
    B2000000,
    B2500000,
    B3000000,
    B3500000,
    B4000000,
}

impl BaudRate {
    /// The code that stands for the rate on the platform, where its table has
    /// the rate.
    pub open spec fn spec_code(self, platform: Platform) -> Option<u64> {
        match platform {
            Platform::Linux => match self {
                BaudRate::B0 => Some(linux::B0),
                BaudRate::B50 => Some(linux::B50),
                BaudRate::B75 => Some(linux::B75),
                BaudRate::B110 => Some(linux::B110),
                BaudRate::B134 => Some(linux::B134),
                BaudRate::B150 => Some(linux::B150),
                BaudRate::B200 => Some(linux::B200),
                BaudRate::B300 => Some(linux::B300),
                BaudRate::B600 => Some(linux::B600),
                BaudRate::B1200 => Some(linux::B1200),
                BaudRate::B1800 => Some(linux::B1800),
                BaudRate::B2400 => Some(linux::B2400),
                BaudRate::B4800 => Some(linux::B4800),
                BaudRate::B9600 => Some(linux::B9600),
                BaudRate::B19200 => Some(linux::B19200),
                BaudRate::B38400 => Some(linux::B38400),
                BaudRate::B57600 => Some(linux::B57600),
                BaudRate::B115200 => Some(linux::B115200),
                BaudRate::B230400 => Some(linux::B230400),
                BaudRate::B460800 => Some(linux::B460800),
                BaudRate::B500000 => Some(linux::B500000),
                BaudRate::B576000 => Some(linux::B576000),
                BaudRate::B921600 => Some(linux::B921600),
                BaudRate::B1000000 => Some(linux::B1000000),
                BaudRate::B1152000 => Some(linux::B1152000),
                BaudRate::B1500000 => Some(linux::B1500000),
                BaudRate::B2000000 => Some(linux::B2000000),
                BaudRate::B2500000 => Some(linux::B2500000),
                BaudRate::B3000000 => Some(linux::B3000000),
                BaudRate::B3500000 => Some(linux::B3500000),
                BaudRate::B4000000 => Some(linux::B4000000),
                BaudRate::B7200 | BaudRate::B14400 | BaudRate::B28800 | BaudRate::B76800 => None,
            },
            Platform::MacOs => match self {
                BaudRate::B0 => Some(macos::B0),
                BaudRate::B50 => Some(macos::B50),
                BaudRate::B75 => Some(macos::B75),
                BaudRate::B110 => Some(macos::B110),
                BaudRate::B134 => Some(macos::B134),
                BaudRate::B150 => Some(macos::B150),
                BaudRate::B200 => Some(macos::B200),
                BaudRate::B300 => Some(macos::B300),
                BaudRate::B600 => Some(macos::B600),
                BaudRate::B1200 => Some(macos::B1200),
                BaudRate::B1800 => Some(macos::B1800),
                BaudRate::B2400 => Some(macos::B2400),
                BaudRate::B4800 => Some(macos::B4800),
                BaudRate::B7200 => Some(macos::B7200),
                BaudRate::B9600 => Some(macos::B9600),
                BaudRate::B14400 => Some(macos::B14400),
                BaudRate::B19200 => Some(macos::B19200),
                BaudRate::B28800 => Some(macos::B28800),
                BaudRate::B38400 => Some(macos::B38400),
                BaudRate::B57600 => Some(macos::B57600),
                BaudRate::B76800 => Some(macos::B76800),
                BaudRate::B115200 => Some(macos::B115200),
                BaudRate::B230400 => Some(macos::B230400),
                BaudRate::B460800 | BaudRate::B500000 | BaudRate::B576000 | BaudRate::B921600 | BaudRate::B1000000 | BaudRate::B1152000 | BaudRate::B1500000 | BaudRate::B2000000 | BaudRate::B2500000 | BaudRate::B3000000 | BaudRate::B3500000 | BaudRate::B4000000 => None,
            },
        }
    }

    /// The code that stands for the rate on the platform; `None` where the
    /// platform's table does not have the rate.
    #[verifier::when_used_as_spec(spec_code)]
    pub fn code(self, platform: Platform) -> (code: Option<u64>)
        ensures
            code == self.spec_code(platform),
            code matches Some(c) ==> c <= platform.spec_word_max(),
    {
        match platform {
            Platform::Linux => match self {
                BaudRate::B0 => Some(linux::B0),
                BaudRate::B50 => Some(linux::B50),
                BaudRate::B75 => Some(linux::B75),
                BaudRate::B110 => Some(linux::B110),
                BaudRate::B134 => Some(linux::B134),
                BaudRate::B150 => Some(linux::B150),
                BaudRate::B200 => Some(linux::B200),
                BaudRate::B300 => Some(linux::B300),
                BaudRate::B600 => Some(linux::B600),
                BaudRate::B1200 => Some(linux::B1200),
                BaudRate::B1800 => Some(linux::B1800),
                BaudRate::B2400 => Some(linux::B2400),
                BaudRate::B4800 => Some(linux::B4800),
                BaudRate::B9600 => Some(linux::B9600),
                BaudRate::B19200 => Some(linux::B19200),
                BaudRate::B38400 => Some(linux::B38400),
                BaudRate::B57600 => Some(linux::B57600),
                BaudRate::B115200 => Some(linux::B115200),
                BaudRate::B230400 => Some(linux::B230400),
                BaudRate::B460800 => Some(linux::B460800),
                BaudRate::B500000 => Some(linux::B500000),
                BaudRate::B576000 => Some(linux::B576000),
                BaudRate::B921600 => Some(linux::B921600),
                BaudRate::B1000000 => Some(linux::B1000000),
                BaudRate::B1152000 => Some(linux::B1152000),
                BaudRate::B1500000 => Some(linux::B1500000),
                BaudRate::B2000000 => Some(linux::B2000000),
                BaudRate::B2500000 => Some(linux::B2500000),
                BaudRate::B3000000 => Some(linux::B3000000),
                BaudRate::B3500000 => Some(linux::B3500000),
                BaudRate::B4000000 => Some(linux::B4000000),
                BaudRate::B7200 | BaudRate::B14400 | BaudRate::B28800 | BaudRate::B76800 => None,
            },
            Platform::MacOs => match self {
                BaudRate::B0 => Some(macos::B0),
                BaudRate::B50 => Some(macos::B50),
                BaudRate::B75 => Some(macos::B75),
                BaudRate::B110 => Some(macos::B110),
                BaudRate::B134 => Some(macos::B134),
                BaudRate::B150 => Some(macos::B150),
                BaudRate::B200 => Some(macos::B200),
                BaudRate::B300 => Some(macos::B300),
                BaudRate::B600 => Some(macos::B600),
                BaudRate::B1200 => Some(macos::B1200),
                BaudRate::B1800 => Some(macos::B1800),
                BaudRate::B2400 => Some(macos::B2400),
                BaudRate::B4800 => Some(macos::B4800),
                BaudRate::B7200 => Some(macos::B7200),
                BaudRate::B9600 => Some(macos::B9600),
                BaudRate::B14400 => Some(macos::B14400),
                BaudRate::B19200 => Some(macos::B19200),
                BaudRate::B28800 => Some(macos::B28800),
                BaudRate::B38400 => Some(macos::B38400),
                BaudRate::B57600 => Some(macos::B57600),
                BaudRate::B76800 => Some(macos::B76800),
                BaudRate::B115200 => Some(macos::B115200),
                BaudRate::B230400 => Some(macos::B230400),
                BaudRate::B460800 | BaudRate::B500000 | BaudRate::B576000 | BaudRate::B921600 | BaudRate::B1000000 | BaudRate::B1152000 | BaudRate::B1500000 | BaudRate::B2000000 | BaudRate::B2500000 | BaudRate::B3000000 | BaudRate::B3500000 | BaudRate::B4000000 => None,
            },
        }
    }

    /// The rate that a code stands for on the platform: the rate of its table
    /// whose code it is, if there is one.
    pub open spec fn spec_from_code(platform: Platform, code: u64) -> Option<BaudRate> {
        if exists|rate: BaudRate| #[trigger] rate.spec_code(platform) == Some(code) {
            Some(choose|rate: BaudRate| #[trigger] rate.spec_code(platform) == Some(code))
        } else {
            None
        }
    }

    /// The rate that a code stands for on the platform; `None` where the code
    /// is none of the platform's table.
    pub fn from_code(platform: Platform, code: u64) -> (rate: Option<BaudRate>)
        ensures
            rate == Self::spec_from_code(platform, code),
            rate matches Some(decoded) ==> decoded.spec_code(platform) == Some(code),
            rate is None ==> forall|other: BaudRate| #[trigger]
                other.spec_code(platform) != Some(code),
    {
        let decoded = match platform {
            Platform::Linux => {
                if code == linux::B0 {
                    Some(BaudRate::B0)
                } else if code == linux::B50 {
                    Some(BaudRate::B50)
                } else if code == linux::B75 {
                    Some(BaudRate::B75)
                } else if code == linux::B110 {
                    Some(BaudRate::B110)
                } else if code == linux::B134 {
                    Some(BaudRate::B134)
                } else if code == linux::B150 {
                    Some(BaudRate::B150)
                } else if code == linux::B200 {
                    Some(BaudRate::B200)
                } else if code == linux::B300 {
                    Some(BaudRate::B300)
                } else if code == linux::B600 {
                    Some(BaudRate::B600)
                } else if code == linux::B1200 {
                    Some(BaudRate::B1200)
                } else if code == linux::B1800 {
                    Some(BaudRate::B1800)
                } else if code == linux::B2400 {
                    Some(BaudRate::B2400)
                } else if code == linux::B4800 {
                    Some(BaudRate::B4800)
                } else if code == linux::B9600 {
                    Some(BaudRate::B9600)
                } else if code == linux::B19200 {
                    Some(BaudRate::B19200)
                } else if code == linux::B38400 {
                    Some(BaudRate::B38400)
                } else if code == linux::B57600 {
                    Some(BaudRate::B57600)
                } else if code == linux::B115200 {
                    Some(BaudRate::B115200)
                } else if code == linux::B230400 {
                    Some(BaudRate::B230400)
                } else if code == linux::B460800 {
                    Some(BaudRate::B460800)
                } else if code == linux::B500000 {
                    Some(BaudRate::B500000)
                } else if code == linux::B576000 {
                    Some(BaudRate::B576000)
                } else if code == linux::B921600 {
                    Some(BaudRate::B921600)
                } else if code == linux::B1000000 {
                    Some(BaudRate::B1000000)
                } else if code == linux::B1152000 {
                    Some(BaudRate::B1152000)
                } else if code == linux::B1500000 {
                    Some(BaudRate::B1500000)
                } else if code == linux::B2000000 {
                    Some(BaudRate::B2000000)
                } else if code == linux::B2500000 {
                    Some(BaudRate::B2500000)
                } else if code == linux::B3000000 {
                    Some(BaudRate::B3000000)
                } else if code == linux::B3500000 {
                    Some(BaudRate::B3500000)
                } else if code == linux::B4000000 {
                    Some(BaudRate::B4000000)
                } else {
                    None
                }
            },
            Platform::MacOs => {
                if code == macos::B0 {
                    Some(BaudRate::B0)
                } else if code == macos::B50 {
                    Some(BaudRate::B50)
                } else if code == macos::B75 {
                    Some(BaudRate::B75)
                } else if code == macos::B110 {
                    Some(BaudRate::B110)
                } else if code == macos::B134 {
                    Some(BaudRate::B134)
                } else if code == macos::B150 {
                    Some(BaudRate::B150)
                } else if code == macos::B200 {
                    Some(BaudRate::B200)
                } else if code == macos::B300 {
                    Some(BaudRate::B300)
                } else if code == macos::B600 {
                    Some(BaudRate::B600)
                } else if code == macos::B1200 {
                    Some(BaudRate::B1200)
                } else if code == macos::B1800 {
                    Some(BaudRate::B1800)
                } else if code == macos::B2400 {
                    Some(BaudRate::B2400)
                } else if code == macos::B4800 {
                    Some(BaudRate::B4800)
                } else if code == macos::B7200 {
                    Some(BaudRate::B7200)
                } else if code == macos::B9600 {
                    Some(BaudRate::B9600)
                } else if code == macos::B14400 {
                    Some(BaudRate::B14400)
                } else if code == macos::B19200 {
                    Some(BaudRate::B19200)
                } else if code == macos::B28800 {
                    Some(BaudRate::B28800)
                } else if code == macos::B38400 {
                    Some(BaudRate::B38400)
                } else if code == macos::B57600 {
                    Some(BaudRate::B57600)
                } else if code == macos::B76800 {
                    Some(BaudRate::B76800)
                } else if code == macos::B115200 {
                    Some(BaudRate::B115200)
                } else if code == macos::B230400 {
                    Some(BaudRate::B230400)
                } else {
                    None
                }
            },
        };
        proof {
            match decoded {
                Some(rate) => lemma_code_table_inverse(platform, rate, code),
                None => {
                    assert forall|rate: BaudRate| #[trigger]
                        rate.spec_code(platform) != Some(code) by {}
                },
            }
        }
        decoded
    }

    /// Whether the platform's table has the rate.
    pub open spec fn spec_supported(self, platform: Platform) -> bool {
        self.spec_code(platform) is Some
    }

    /// Whether the platform's table has the rate.
    #[verifier::when_used_as_spec(spec_supported)]
    pub fn supported(self, platform: Platform) -> (yes: bool)
        ensures
            yes == self.spec_supported(platform),
    {
        self.code(platform).is_some()
    }
}

/// A code decodes to a rate exactly when the rate encodes to that code. So
/// no two rates of a platform's table share a code, and a code decodes to
/// nothing exactly when no rate of the table has it.
pub proof fn lemma_code_table_inverse(platform: Platform, rate: BaudRate, code: u64)
    ensures
        rate.spec_code(platform) == Some(code) <==> BaudRate::spec_from_code(platform, code)
            == Some(rate),
{
}

} // verus!
