//! The control structure of a terminal and its codec: flag by flag and slot
//! by slot, on the structure in memory.

use vstd::prelude::*;
use crate::bits::{holds, lemma_fits, with_bits, without_bits};
use crate::laws::{lemma_flag_alone, lemma_flag_read_back};
use crate::platform::{Char, Field, Flag, Platform, CC_SLOTS};

verus! {

/// The control structure as the operating system keeps it for one terminal,
/// held in words wide enough for every platform. The two speeds are what the
/// speed accessors of the platform report, wherever it keeps them.
#[derive(Clone, Copy, Debug, PartialEq, Eq)]
pub struct Termios {
    /// The platform whose table gives the bits their meaning.
    pub platform: Platform,
    /// Input flags.
    pub c_iflag: u64,
    /// Output flags.
    pub c_oflag: u64,
    /// Control flags.
    pub c_cflag: u64,
    /// Local flags.
    pub c_lflag: u64,
    /// Line discipline.
    pub c_line: u8,
    /// Control characters; the platform uses the first `platform.nccs()` slots.
    pub c_cc: [u8; CC_SLOTS],
    /// Code of the input speed.
    pub c_ispeed: u64,
    /// Code of the output speed.
    pub c_ospeed: u64,
}

/// The mathematical value of a control structure.
#[verifier::ext_equal]
pub struct ControlStructure {
    pub platform: Platform,
    pub input_flags: u64,
    pub output_flags: u64,
    pub control_flags: u64,
    pub local_flags: u64,
    pub line: u8,
    pub control_chars: Seq<u8>,
    pub input_speed: u64,
    pub output_speed: u64,
}

impl View for Termios {
    type V = ControlStructure;

    open spec fn view(&self) -> ControlStructure {
        ControlStructure {
            platform: self.platform,
            input_flags: self.c_iflag,
            output_flags: self.c_oflag,
            control_flags: self.c_cflag,
            local_flags: self.c_lflag,
            line: self.c_line,
            control_chars: self.c_cc@,
            input_speed: self.c_ispeed,
            output_speed: self.c_ospeed,
        }
    }
}

impl ControlStructure {
    /// The structure has a slot for every control character.
    pub open spec fn wf(self) -> bool {
        self.control_chars.len() == CC_SLOTS
    }

    /// Every flag word and speed code fits the word of the platform, so that
    /// the structure can be handed to the operating system as it is.
    pub open spec fn fits(self) -> bool {
        &&& self.input_flags <= self.platform.word_max()
        &&& self.output_flags <= self.platform.word_max()
        &&& self.control_flags <= self.platform.word_max()
        &&& self.local_flags <= self.platform.word_max()
        &&& self.input_speed <= self.platform.word_max()
        &&& self.output_speed <= self.platform.word_max()
    }

    /// The structure with nothing set: every word and every slot zero.
    pub open spec fn empty(platform: Platform) -> ControlStructure {
        ControlStructure {
            platform,
            input_flags: 0,
            output_flags: 0,
            control_flags: 0,
            local_flags: 0,
            line: 0,
            control_chars: Seq::new(CC_SLOTS as nat, |i: int| 0u8),
            input_speed: 0,
            output_speed: 0,
        }
    }

    /// One of the four flag words.
    pub open spec fn word(self, field: Field) -> u64 {
        match field {
            Field::Input => self.input_flags,
            Field::Output => self.output_flags,
            Field::Control => self.control_flags,
            Field::Local => self.local_flags,
        }
    }

    /// The structure with one flag word replaced.
    pub open spec fn with_word(self, field: Field, word: u64) -> ControlStructure {
        match field {
            Field::Input => ControlStructure { input_flags: word, ..self },
            Field::Output => ControlStructure { output_flags: word, ..self },
            Field::Control => ControlStructure { control_flags: word, ..self },
            Field::Local => ControlStructure { local_flags: word, ..self },
        }
    }

    /// Every bit of the flag is set.
    pub open spec fn contains(self, flag: Flag) -> bool {
        holds(self.word(flag.field()), flag.mask(self.platform))
    }

    /// The structure with the flag set.
    pub open spec fn with_flag(self, flag: Flag) -> ControlStructure {
        self.with_word(
            flag.field(),
            with_bits(self.word(flag.field()), flag.mask(self.platform)),
        )
    }

    /// The structure with the flag cleared.
    pub open spec fn without_flag(self, flag: Flag) -> ControlStructure {
        self.with_word(
            flag.field(),
            without_bits(self.word(flag.field()), flag.mask(self.platform)),
        )
    }

    /// The control character in a named slot.
    pub open spec fn control_char(self, slot: Char) -> u8 {
        self.control_chars[slot.index(self.platform) as int]
    }

    /// The structure with the control character of a named slot replaced.
    pub open spec fn with_control_char(self, slot: Char, value: u8) -> ControlStructure {
        ControlStructure {
            control_chars: self.control_chars.update(slot.index(self.platform) as int, value),
            ..self
        }
    }
}

impl Termios {
    /// A structure of the platform with nothing set.
    pub fn new(platform: Platform) -> (termios: Termios)
        ensures
            termios@ == ControlStructure::empty(platform),
            termios@.wf(),
            termios@.fits(),
    {
        Termios {
            platform,
            c_iflag: 0,
            c_oflag: 0,
            c_cflag: 0,
            c_lflag: 0,
            c_line: 0,
            c_cc: [0u8; CC_SLOTS],
            c_ispeed: 0,
            c_ospeed: 0,
        }
    }

    /// Whether every flag word and speed code fits the word of the platform.
    pub fn fits(&self) -> (yes: bool)
        ensures
            yes == self@.fits(),
    {
        let max = self.platform.word_max();
        self.c_iflag <= max && self.c_oflag <= max && self.c_cflag <= max && self.c_lflag <= max
            && self.c_ispeed <= max && self.c_ospeed <= max
    }

    /// Whether every bit of the flag is set.
    pub fn contains(&self, flag: Flag) -> (yes: bool)
        ensures
            yes == self@.contains(flag),
    {
        let mask = flag.mask(self.platform);
        let word = match flag.field() {
            Field::Input => self.c_iflag,
            Field::Output => self.c_oflag,
            Field::Control => self.c_cflag,
            Field::Local => self.c_lflag,
        };
        word & mask == mask
    }

    /// Sets the flag and leaves every other bit, and so every other flag, as
    /// it is.
    pub fn set(&mut self, flag: Flag)
        ensures
            final(self)@ == old(self)@.with_flag(flag),
            old(self)@.fits() ==> final(self)@.fits(),
            final(self)@.contains(flag),
            forall|other: Flag|
                other != flag ==> #[trigger] final(self)@.contains(other) == old(self)@.contains(
                    other,
                ),
    {
        proof {
            assert forall|other: Flag| other != flag implies #[trigger] self@.with_flag(
                flag,
            ).contains(other) == self@.contains(other) by {
                lemma_flag_alone(self@, flag, other);
            }
            lemma_flag_read_back(self@, flag);
            if self@.fits() {
                lemma_fits(
                    self@.word(flag.spec_field()),
                    flag.spec_mask(self.platform),
                    0,
                    self.platform.spec_word_max(),
                );
            }
        }
        let mask = flag.mask(self.platform);
        match flag.field() {
            Field::Input => self.c_iflag = self.c_iflag | mask,
            Field::Output => self.c_oflag = self.c_oflag | mask,
            Field::Control => self.c_cflag = self.c_cflag | mask,
            Field::Local => self.c_lflag = self.c_lflag | mask,
        }
    }

    /// Clears the flag and leaves every other bit, and so every other flag,
    /// as it is.
    pub fn clear(&mut self, flag: Flag)
        ensures
            final(self)@ == old(self)@.without_flag(flag),
            old(self)@.fits() ==> final(self)@.fits(),
            !final(self)@.contains(flag),
            forall|other: Flag|
                other != flag ==> #[trigger] final(self)@.contains(other) == old(self)@.contains(
                    other,
                ),
    {
        proof {
            assert forall|other: Flag| other != flag implies #[trigger] self@.without_flag(
                flag,
            ).contains(other) == self@.contains(other) by {
                lemma_flag_alone(self@, flag, other);
            }
            lemma_flag_read_back(self@, flag);
            if self@.fits() {
                lemma_fits(
                    self@.word(flag.spec_field()),
                    flag.spec_mask(self.platform),
                    0,
                    self.platform.spec_word_max(),
                );
            }
        }
        let mask = flag.mask(self.platform);
        match flag.field() {
            Field::Input => self.c_iflag = self.c_iflag & !mask,
            Field::Output => self.c_oflag = self.c_oflag & !mask,
            Field::Control => self.c_cflag = self.c_cflag & !mask,
            Field::Local => self.c_lflag = self.c_lflag & !mask,
        }
    }

    /// The control character in a named slot.
    pub fn control_char(&self, slot: Char) -> (value: u8)
        ensures
            value == self@.control_char(slot),
    {
        self.c_cc[slot.index(self.platform)]
    }

    /// Replaces the control character of a named slot and leaves the others
    /// as they are.
    pub fn set_control_char(&mut self, slot: Char, value: u8)
        ensures
            final(self)@ == old(self)@.with_control_char(slot, value),
            old(self)@.fits() ==> final(self)@.fits(),
            final(self)@.control_char(slot) == value,
            forall|other: Char|
                other != slot ==> #[trigger] final(self)@.control_char(other)
                    == old(self)@.control_char(other),
    {
        let index = slot.index(self.platform);
        self.c_cc[index] = value;
    }
}

} // verus!
