//! The platform constant table: every named flag, control character and
//! width, looked up for the platform a control structure belongs to.

use vstd::prelude::*;
use crate::bits::{disjoint, lemma_single_bits_disjoint, single_bit, within};
use crate::DataBits;
use crate::linux;
use crate::macos;

verus! {

/// A family of operating systems with one layout of the control structure.
#[derive(Clone, Copy, Debug, PartialEq, Eq, Structural)]
pub enum Platform {
    /// Linux: 32-bit words, speeds coded in four bits and a marker.
    Linux,
    /// macOS: 64-bit words, a speed is its own code.
    MacOs,
}

/// One of the four flag words of the control structure.
#[derive(Clone, Copy, Debug, PartialEq, Eq, Structural)]
pub enum Field {
    Input,
    Output,
    Control,
    Local,
}

/// A named flag of the control structure.
#[derive(Clone, Copy, Debug, PartialEq, Eq, Structural)]
pub enum Flag {
    /// Input: ignore a break condition.
    IGNBRK,
    /// Input: a break condition raises an interrupt.
    BRKINT,
    /// Input: mark bytes that arrive with a parity or framing error.
    PARMRK,
    /// Input: strip the eighth bit.
    ISTRIP,
    /// Input: turn newline into carriage return.
    INLCR,
    /// Input: ignore carriage return.
    IGNCR,
    /// Input: turn carriage return into newline.
    ICRNL,
    /// Input: software flow control of the output.
    IXON,
    /// Input: software flow control of the input.
    IXOFF,
    /// Input: any byte restarts stopped output.
    IXANY,
    /// Output: process the output.
    OPOST,
    /// Control: two stop bits instead of one.
    CSTOPB,
    /// Control: generate and check parity.
    PARENB,
    /// Control: parity is odd instead of even.
    PARODD,
    /// Control: hardware flow control.
    CRTSCTS,
    /// Local: echo input.
    ECHO,
    /// Local: echo newline even where echo is off.
    ECHONL,
    /// Local: canonical, line-by-line input.
    ICANON,
    /// Local: control characters raise signals.
    ISIG,
    /// Local: extended input processing.
    IEXTEN,
}

/// A named slot of the control-character array.
#[derive(Clone, Copy, Debug, PartialEq, Eq, Structural)]
pub enum Char {
    /// Minimum number of bytes a read waits for.
    VMIN,
    /// Timeout of a read, in tenths of a second.
    VTIME,
}

/// When a change of the attributes takes effect.
#[derive(Clone, Copy, Debug, PartialEq, Eq, Structural)]
pub enum When {
    /// At once, without waiting for queued output to drain.
    Now,
}

/// Number of slots that a control structure keeps for control characters: as
/// many as the platform with the longest array has.
pub const CC_SLOTS: usize = 32;

impl Platform {
    /// Largest value that a flag word or a speed code takes on the platform.
    pub open spec fn spec_word_max(self) -> u64 {
        match self {
            Platform::Linux => linux::WORD_MAX,
            Platform::MacOs => macos::WORD_MAX,
        }
    }

    /// Largest value that a flag word or a speed code takes on the platform.
    #[verifier::when_used_as_spec(spec_word_max)]
    pub fn word_max(self) -> (max: u64)
        ensures
            max == self.spec_word_max(),
    {
        match self {
            Platform::Linux => linux::WORD_MAX,
            Platform::MacOs => macos::WORD_MAX,
        }
    }

    /// Number of control characters that the platform keeps.
    pub open spec fn spec_nccs(self) -> usize {
        match self {
            Platform::Linux => linux::NCCS,
            Platform::MacOs => macos::NCCS,
        }
    }

    /// Number of control characters that the platform keeps.
    #[verifier::when_used_as_spec(spec_nccs)]
    pub fn nccs(self) -> (n: usize)
        ensures
            n == self.spec_nccs(),
            n <= CC_SLOTS,
    {
        match self {
            Platform::Linux => linux::NCCS,
            Platform::MacOs => macos::NCCS,
        }
    }

    /// Mask of the character-size field in the control flags.
    pub open spec fn spec_csize(self) -> u64 {
        match self {
            Platform::Linux => linux::CSIZE,
            Platform::MacOs => macos::CSIZE,
        }
    }

    /// Mask of the character-size field in the control flags.
    #[verifier::when_used_as_spec(spec_csize)]
    pub fn csize(self) -> (mask: u64)
        ensures
            mask == self.spec_csize(),
    {
        match self {
            Platform::Linux => linux::CSIZE,
            Platform::MacOs => macos::CSIZE,
        }
    }
}

impl Flag {
    /// The flag word that holds the flag.
    pub open spec fn spec_field(self) -> Field {
        match self {
            Flag::IGNBRK | Flag::BRKINT | Flag::PARMRK | Flag::ISTRIP | Flag::INLCR
            | Flag::IGNCR | Flag::ICRNL | Flag::IXON | Flag::IXOFF | Flag::IXANY => Field::Input,
            Flag::OPOST => Field::Output,
            Flag::CSTOPB | Flag::PARENB | Flag::PARODD | Flag::CRTSCTS => Field::Control,
            Flag::ECHO | Flag::ECHONL | Flag::ICANON | Flag::ISIG | Flag::IEXTEN => Field::Local,
        }
    }

    /// The flag word that holds the flag.
    #[verifier::when_used_as_spec(spec_field)]
    pub fn field(self) -> (field: Field)
        ensures
            field == self.spec_field(),
    {
        match self {
            Flag::IGNBRK | Flag::BRKINT | Flag::PARMRK | Flag::ISTRIP | Flag::INLCR
            | Flag::IGNCR | Flag::ICRNL | Flag::IXON | Flag::IXOFF | Flag::IXANY => Field::Input,
            Flag::OPOST => Field::Output,
            Flag::CSTOPB | Flag::PARENB | Flag::PARODD | Flag::CRTSCTS => Field::Control,
            Flag::ECHO | Flag::ECHONL | Flag::ICANON | Flag::ISIG | Flag::IEXTEN => Field::Local,
        }
    }

    /// The bits of the flag in its word, on the given platform.
    pub open spec fn spec_mask(self, platform: Platform) -> u64 {
        match platform {
            Platform::Linux => match self {
                Flag::IGNBRK => linux::IGNBRK,
                Flag::BRKINT => linux::BRKINT,
                Flag::PARMRK => linux::PARMRK,
                Flag::ISTRIP => linux::ISTRIP,
                Flag::INLCR => linux::INLCR,
                Flag::IGNCR => linux::IGNCR,
                Flag::ICRNL => linux::ICRNL,
                Flag::IXON => linux::IXON,
                Flag::IXOFF => linux::IXOFF,
                Flag::IXANY => linux::IXANY,
                Flag::OPOST => linux::OPOST,
                Flag::CSTOPB => linux::CSTOPB,
                Flag::PARENB => linux::PARENB,
                Flag::PARODD => linux::PARODD,
                Flag::CRTSCTS => linux::CRTSCTS,
                Flag::ECHO => linux::ECHO,
                Flag::ECHONL => linux::ECHONL,
                Flag::ICANON => linux::ICANON,
                Flag::ISIG => linux::ISIG,
                Flag::IEXTEN => linux::IEXTEN,
            },
            Platform::MacOs => match self {
                Flag::IGNBRK => macos::IGNBRK,
                Flag::BRKINT => macos::BRKINT,
                Flag::PARMRK => macos::PARMRK,
                Flag::ISTRIP => macos::ISTRIP,
                Flag::INLCR => macos::INLCR,
                Flag::IGNCR => macos::IGNCR,
                Flag::ICRNL => macos::ICRNL,
                Flag::IXON => macos::IXON,
                Flag::IXOFF => macos::IXOFF,
                Flag::IXANY => macos::IXANY,
                Flag::OPOST => macos::OPOST,
                Flag::CSTOPB => macos::CSTOPB,
                Flag::PARENB => macos::PARENB,
                Flag::PARODD => macos::PARODD,
                Flag::CRTSCTS => macos::CRTSCTS,
                Flag::ECHO => macos::ECHO,
                Flag::ECHONL => macos::ECHONL,
                Flag::ICANON => macos::ICANON,
                Flag::ISIG => macos::ISIG,
                Flag::IEXTEN => macos::IEXTEN,
            },
        }
    }

    /// The bits of the flag in its word, on the given platform.
    #[verifier::when_used_as_spec(spec_mask)]
    pub fn mask(self, platform: Platform) -> (mask: u64)
        ensures
            mask == self.spec_mask(platform),
            mask != 0,
            mask <= platform.spec_word_max(),
    {
        match platform {
            Platform::Linux => match self {
                Flag::IGNBRK => linux::IGNBRK,
                Flag::BRKINT => linux::BRKINT,
                Flag::PARMRK => linux::PARMRK,
                Flag::ISTRIP => linux::ISTRIP,
                Flag::INLCR => linux::INLCR,
                Flag::IGNCR => linux::IGNCR,
                Flag::ICRNL => linux::ICRNL,
                Flag::IXON => linux::IXON,
                Flag::IXOFF => linux::IXOFF,
                Flag::IXANY => linux::IXANY,
                Flag::OPOST => linux::OPOST,
                Flag::CSTOPB => linux::CSTOPB,
                Flag::PARENB => linux::PARENB,
                Flag::PARODD => linux::PARODD,
                Flag::CRTSCTS => linux::CRTSCTS,
                Flag::ECHO => linux::ECHO,
                Flag::ECHONL => linux::ECHONL,
                Flag::ICANON => linux::ICANON,
                Flag::ISIG => linux::ISIG,
                Flag::IEXTEN => linux::IEXTEN,
            },
            Platform::MacOs => match self {
                Flag::IGNBRK => macos::IGNBRK,
                Flag::BRKINT => macos::BRKINT,
                Flag::PARMRK => macos::PARMRK,
                Flag::ISTRIP => macos::ISTRIP,
                Flag::INLCR => macos::INLCR,
                Flag::IGNCR => macos::IGNCR,
                Flag::ICRNL => macos::ICRNL,
                Flag::IXON => macos::IXON,
                Flag::IXOFF => macos::IXOFF,
                Flag::IXANY => macos::IXANY,
                Flag::OPOST => macos::OPOST,
                Flag::CSTOPB => macos::CSTOPB,
                Flag::PARENB => macos::PARENB,
                Flag::PARODD => macos::PARODD,
                Flag::CRTSCTS => macos::CRTSCTS,
                Flag::ECHO => macos::ECHO,
                Flag::ECHONL => macos::ECHONL,
                Flag::ICANON => macos::ICANON,
                Flag::ISIG => macos::ISIG,
                Flag::IEXTEN => macos::IEXTEN,
            },
        }
    }
}

impl When {
    /// The code by which the platform knows the timing.
    pub open spec fn spec_code(self, platform: Platform) -> i32 {
        match platform {
            Platform::Linux => linux::TCSANOW,
            Platform::MacOs => macos::TCSANOW,
        }
    }

    /// The code by which the platform knows the timing.
    #[verifier::when_used_as_spec(spec_code)]
    pub fn code(self, platform: Platform) -> (code: i32)
        ensures
            code == self.spec_code(platform),
    {
        match platform {
            Platform::Linux => linux::TCSANOW,
            Platform::MacOs => macos::TCSANOW,
        }
    }
}

impl Char {
    /// The slot of the control character in the array, on the given platform.
    pub open spec fn spec_index(self, platform: Platform) -> usize {
        match platform {
            Platform::Linux => match self {
                Char::VMIN => linux::VMIN,
                Char::VTIME => linux::VTIME,
            },
            Platform::MacOs => match self {
                Char::VMIN => macos::VMIN,
                Char::VTIME => macos::VTIME,
            },
        }
    }

    /// The slot of the control character in the array, on the given platform.
    #[verifier::when_used_as_spec(spec_index)]
    pub fn index(self, platform: Platform) -> (index: usize)
        ensures
            index == self.spec_index(platform),
            index < platform.spec_nccs(),
    {
        match platform {
            Platform::Linux => match self {
                Char::VMIN => linux::VMIN,
                Char::VTIME => linux::VTIME,
            },
            Platform::MacOs => match self {
                Char::VMIN => macos::VMIN,
                Char::VTIME => macos::VTIME,
            },
        }
    }
}

impl DataBits {
    /// The pattern of the character size in the size field of the control
    /// flags, on the given platform.
    pub open spec fn spec_pattern(self, platform: Platform) -> u64 {
        match platform {
            Platform::Linux => match self {
                DataBits::Five => linux::CS5,
                DataBits::Six => linux::CS6,
                DataBits::Seven => linux::CS7,
                DataBits::Eight => linux::CS8,
            },
            Platform::MacOs => match self {
                DataBits::Five => macos::CS5,
                DataBits::Six => macos::CS6,
                DataBits::Seven => macos::CS7,
                DataBits::Eight => macos::CS8,
            },
        }
    }

    /// The pattern of the character size in the size field of the control
    /// flags, on the given platform.
    #[verifier::when_used_as_spec(spec_pattern)]
    pub fn pattern(self, platform: Platform) -> (pattern: u64)
        ensures
            pattern == self.spec_pattern(platform),
            pattern <= platform.spec_word_max(),
    {
        match platform {
            Platform::Linux => match self {
                DataBits::Five => linux::CS5,
                DataBits::Six => linux::CS6,
                DataBits::Seven => linux::CS7,
                DataBits::Eight => linux::CS8,
            },
            Platform::MacOs => match self {
                DataBits::Five => macos::CS5,
                DataBits::Six => macos::CS6,
                DataBits::Seven => macos::CS7,
                DataBits::Eight => macos::CS8,
            },
        }
    }

    /// The character size that a content of the size field stands for.
    pub open spec fn spec_from_pattern(platform: Platform, pattern: u64) -> DataBits {
        if pattern == DataBits::Five.spec_pattern(platform) {
            DataBits::Five
        } else if pattern == DataBits::Six.spec_pattern(platform) {
            DataBits::Six
        } else if pattern == DataBits::Seven.spec_pattern(platform) {
            DataBits::Seven
        } else {
            DataBits::Eight
        }
    }

    /// The character size that a content of the size field stands for.
    pub fn from_pattern(platform: Platform, pattern: u64) -> (bits: DataBits)
        ensures
            bits == Self::spec_from_pattern(platform, pattern),
    {
        if pattern == DataBits::Five.pattern(platform) {
            DataBits::Five
        } else if pattern == DataBits::Six.pattern(platform) {
            DataBits::Six
        } else if pattern == DataBits::Seven.pattern(platform) {
            DataBits::Seven
        } else {
            DataBits::Eight
        }
    }
}

/// The size field has room for exactly the four character sizes: each
/// pattern lies within the field, no two sizes share a pattern, and whatever
/// the field holds is the pattern of the size that it decodes to.
pub proof fn lemma_size_field_exhaustive(platform: Platform, word: u64, bits: DataBits)
    ensures
        within(bits.spec_pattern(platform), platform.spec_csize()),
        DataBits::spec_from_pattern(platform, bits.spec_pattern(platform)) == bits,
        DataBits::spec_from_pattern(platform, word & platform.spec_csize()).spec_pattern(platform)
            == word & platform.spec_csize(),
{
    assert(within(linux::CS5, linux::CSIZE) && within(linux::CS6, linux::CSIZE) && within(
        linux::CS7,
        linux::CSIZE,
    ) && within(linux::CS8, linux::CSIZE)) by (bit_vector);
    assert(within(macos::CS5, macos::CSIZE) && within(macos::CS6, macos::CSIZE) && within(
        macos::CS7,
        macos::CSIZE,
    ) && within(macos::CS8, macos::CSIZE)) by (bit_vector);
    assert(word & linux::CSIZE == linux::CS5 || word & linux::CSIZE == linux::CS6 || word
        & linux::CSIZE == linux::CS7 || word & linux::CSIZE == linux::CS8) by (bit_vector);
    assert(word & macos::CSIZE == macos::CS5 || word & macos::CSIZE == macos::CS6 || word
        & macos::CSIZE == macos::CS7 || word & macos::CSIZE == macos::CS8) by (bit_vector);
}

/// No two flags of one word share a bit, so that setting or clearing one
/// flag tells nothing about another.
pub proof fn lemma_flags_separate(platform: Platform, a: Flag, b: Flag)
    requires
        a != b,
        a.spec_field() == b.spec_field(),
    ensures
        disjoint(a.spec_mask(platform), b.spec_mask(platform)),
{
    assert(single_bit(linux::IGNBRK) && single_bit(linux::BRKINT) && single_bit(linux::PARMRK)
        && single_bit(linux::ISTRIP) && single_bit(linux::INLCR) && single_bit(linux::IGNCR)
        && single_bit(linux::ICRNL) && single_bit(linux::IXON) && single_bit(linux::IXOFF)
        && single_bit(linux::IXANY) && single_bit(linux::OPOST) && single_bit(linux::CSTOPB)
        && single_bit(linux::PARENB) && single_bit(linux::PARODD) && single_bit(linux::CRTSCTS)
        && single_bit(linux::ECHO) && single_bit(linux::ECHONL) && single_bit(linux::ICANON)
        && single_bit(linux::ISIG) && single_bit(linux::IEXTEN)) by (bit_vector);
    assert(single_bit(macos::IGNBRK) && single_bit(macos::BRKINT) && single_bit(macos::PARMRK)
        && single_bit(macos::ISTRIP) && single_bit(macos::INLCR) && single_bit(macos::IGNCR)
        && single_bit(macos::ICRNL) && single_bit(macos::IXON) && single_bit(macos::IXOFF)
        && single_bit(macos::IXANY) && single_bit(macos::OPOST) && single_bit(macos::CSTOPB)
        && single_bit(macos::PARENB) && single_bit(macos::PARODD) && single_bit(macos::ECHO)
        && single_bit(macos::ECHONL) && single_bit(macos::ICANON) && single_bit(macos::ISIG)
        && single_bit(macos::IEXTEN)) by (bit_vector);
    // Hardware flow control has two bits on macOS, one for each direction.
    assert(disjoint(macos::CRTSCTS, macos::CSTOPB) && disjoint(macos::CSTOPB, macos::CRTSCTS)
        && disjoint(macos::CRTSCTS, macos::PARENB) && disjoint(macos::PARENB, macos::CRTSCTS)
        && disjoint(macos::CRTSCTS, macos::PARODD) && disjoint(macos::PARODD, macos::CRTSCTS))
        by (bit_vector);
    if single_bit(a.spec_mask(platform)) && single_bit(b.spec_mask(platform)) {
        lemma_single_bits_disjoint(a.spec_mask(platform), b.spec_mask(platform));
    }
}

/// The table keeps what the settings rely on: the flags of the control word
/// and the character-size field share no bit, so that no setting disturbs
/// another.
pub proof fn lemma_table_separates(platform: Platform)
    ensures
        forall|a: Flag, b: Flag|
            a != b && a.spec_field() == Field::Control && b.spec_field() == Field::Control
                ==> disjoint(#[trigger] a.spec_mask(platform), #[trigger] b.spec_mask(platform)),
        forall|a: Flag|
            a.spec_field() == Field::Control ==> disjoint(
                platform.spec_csize(),
                #[trigger] a.spec_mask(platform),
            ) && disjoint(a.spec_mask(platform), platform.spec_csize()),
{
    assert forall|a: Flag, b: Flag|
        a != b && a.spec_field() == Field::Control && b.spec_field()
            == Field::Control implies disjoint(
        #[trigger] a.spec_mask(platform),
        #[trigger] b.spec_mask(platform),
    ) by {
        lemma_flags_separate(platform, a, b);
    }
    assert(disjoint(linux::CSIZE, linux::CSTOPB) && disjoint(linux::CSIZE, linux::PARENB)
        && disjoint(linux::CSIZE, linux::PARODD) && disjoint(linux::CSIZE, linux::CRTSCTS)
        && disjoint(linux::CSTOPB, linux::CSIZE) && disjoint(linux::PARENB, linux::CSIZE)
        && disjoint(linux::PARODD, linux::CSIZE) && disjoint(linux::CRTSCTS, linux::CSIZE))
        by (bit_vector);
    assert(disjoint(macos::CSIZE, macos::CSTOPB) && disjoint(macos::CSIZE, macos::PARENB)
        && disjoint(macos::CSIZE, macos::PARODD) && disjoint(macos::CSIZE, macos::CRTSCTS)
        && disjoint(macos::CSTOPB, macos::CSIZE) && disjoint(macos::PARENB, macos::CSIZE)
        && disjoint(macos::PARODD, macos::CSIZE) && disjoint(macos::CRTSCTS, macos::CSIZE))
        by (bit_vector);
}

} // verus!
