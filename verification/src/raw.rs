//! Raw mode: the state of a terminal in which bytes pass through
//! unprocessed, one by one as they arrive, and the transform that puts a
//! control structure into it.

use vstd::prelude::*;
use crate::bits::{
    holds, lemma_clear_and_write_idempotent, lemma_cleared_holds_not,
    lemma_cleared_part_holds_not, lemma_field_frame, lemma_field_read_back, lemma_idempotent,
    lemma_union, with_field, without_bits,
};
use crate::laws::lemma_raw_settings;
use crate::platform::{
    lemma_size_field_exhaustive, lemma_table_separates, Field, Flag, Platform,
};
use crate::settings::Settings;
use crate::termios::{ControlStructure, Termios};
use crate::{BlockingMode, DataBits, FlowControl, Parity};

verus! {

/// The input flags that raw mode turns off: what is done with breaks, the
/// marking of parity errors, the stripping of the eighth bit, the mapping of
/// carriage return and newline to each other, and software flow control of
/// the output.
pub open spec fn raw_input_mask(platform: Platform) -> u64 {
    Flag::IGNBRK.mask(platform) | Flag::BRKINT.mask(platform) | Flag::PARMRK.mask(platform)
        | Flag::ISTRIP.mask(platform) | Flag::INLCR.mask(platform) | Flag::IGNCR.mask(platform)
        | Flag::ICRNL.mask(platform) | Flag::IXON.mask(platform)
}

/// The local flags that raw mode turns off: echo, canonical input, signals
/// and extended input processing.
pub open spec fn raw_local_mask(platform: Platform) -> u64 {
    Flag::ECHO.mask(platform) | Flag::ECHONL.mask(platform) | Flag::ICANON.mask(platform)
        | Flag::ISIG.mask(platform) | Flag::IEXTEN.mask(platform)
}

/// Whether raw mode turns the flag off.
pub open spec fn off_in_raw_mode(flag: Flag) -> bool {
    match flag {
        Flag::IGNBRK | Flag::BRKINT | Flag::PARMRK | Flag::ISTRIP | Flag::INLCR | Flag::IGNCR
        | Flag::ICRNL | Flag::IXON | Flag::OPOST | Flag::ECHO | Flag::ECHONL | Flag::ICANON
        | Flag::ISIG | Flag::IEXTEN | Flag::PARENB => true,
        _ => false,
    }
}

/// The blocking mode of raw mode: a read returns as soon as one byte is
/// there, and waits for it without a timeout.
pub open spec fn raw_blocking_mode() -> BlockingMode {
    BlockingMode { bytes: 1, deciseconds: 0 }
}

impl ControlStructure {
    /// The structure put into raw mode: the input, output and local flags of
    /// processing cleared, parity off, eight data bits, a read that returns
    /// with the first byte, and nothing else changed.
    pub open spec fn raw(self) -> ControlStructure {
        ControlStructure {
            input_flags: without_bits(self.input_flags, raw_input_mask(self.platform)),
            output_flags: without_bits(self.output_flags, Flag::OPOST.mask(self.platform)),
            control_flags: with_field(
                without_bits(self.control_flags, Flag::PARENB.mask(self.platform)),
                self.platform.csize(),
                DataBits::Eight.pattern(self.platform),
            ),
            local_flags: without_bits(self.local_flags, raw_local_mask(self.platform)),
            control_chars: self.with_blocking_mode(raw_blocking_mode()).control_chars,
            ..self
        }
    }

    /// The structure is in raw mode: canonical input, echo, signals and the
    /// processing of input and output are off, characters have eight bits
    /// and no parity.
    pub open spec fn is_raw(self) -> bool {
        &&& forall|flag: Flag| off_in_raw_mode(flag) ==> !#[trigger] self.contains(flag)
        &&& self.data_bits() == DataBits::Eight
        &&& self.parity() == Parity::Off
    }
}

/// Putting a structure into raw mode leaves it in raw mode.
pub proof fn lemma_raw_is_raw(structure: ControlStructure)
    ensures
        structure.raw().is_raw(),
{
    let platform = structure.platform;
    let raw = structure.raw();
    let input = raw_input_mask(platform);
    let local = raw_local_mask(platform);
    assert forall|flag: Flag| off_in_raw_mode(flag) implies !#[trigger] raw.contains(flag) by {
        let mask = flag.spec_mask(platform);
        lemma_raw_masks_hold(platform);
        match flag {
            Flag::OPOST => lemma_cleared_holds_not(structure.output_flags, mask),
            Flag::PARENB => lemma_parity_off_in_raw(structure),
            Flag::ECHO | Flag::ECHONL | Flag::ICANON | Flag::ISIG | Flag::IEXTEN => {
                lemma_cleared_part_holds_not(structure.local_flags, local, mask)
            },
            _ => lemma_cleared_part_holds_not(structure.input_flags, input, mask),
        }
    }
    lemma_size_field_exhaustive(platform, 0, DataBits::Eight);
    lemma_field_read_back(
        without_bits(structure.control_flags, Flag::PARENB.spec_mask(platform)),
        platform.spec_csize(),
        DataBits::Eight.spec_pattern(platform),
    );
}

/// Raw mode is reached in one step: putting a structure into raw mode a
/// second time changes nothing.
pub proof fn lemma_raw_idempotent(structure: ControlStructure)
    requires
        structure.wf(),
    ensures
        structure.raw().raw() == structure.raw(),
{
    let platform = structure.platform;
    assert(structure.raw().raw().control_chars =~= structure.raw().control_chars);
    lemma_idempotent(structure.input_flags, raw_input_mask(platform), 0);
    lemma_idempotent(structure.output_flags, Flag::OPOST.spec_mask(platform), 0);
    lemma_idempotent(structure.local_flags, raw_local_mask(platform), 0);
    lemma_clear_and_write_idempotent(
        structure.control_flags,
        Flag::PARENB.spec_mask(platform),
        platform.spec_csize(),
        DataBits::Eight.spec_pattern(platform),
    );
}

/// The masks that raw mode clears hold each flag that it turns off.
proof fn lemma_raw_masks_hold(platform: Platform)
    ensures
        forall|flag: Flag|
            off_in_raw_mode(flag) && flag.spec_field() == Field::Input ==> holds(
                raw_input_mask(platform),
                #[trigger] flag.spec_mask(platform),
            ),
        forall|flag: Flag|
            off_in_raw_mode(flag) && flag.spec_field() == Field::Local ==> holds(
                raw_local_mask(platform),
                #[trigger] flag.spec_mask(platform),
            ),
{
    let a = Flag::IGNBRK.spec_mask(platform);
    let b = Flag::BRKINT.spec_mask(platform);
    let c = Flag::PARMRK.spec_mask(platform);
    let d = Flag::ISTRIP.spec_mask(platform);
    let e = Flag::INLCR.spec_mask(platform);
    let f = Flag::IGNCR.spec_mask(platform);
    let g = Flag::ICRNL.spec_mask(platform);
    let h = Flag::IXON.spec_mask(platform);
    assert(holds(a | b | c | d | e | f | g | h, a) && holds(a | b | c | d | e | f | g | h, b)
        && holds(a | b | c | d | e | f | g | h, c) && holds(a | b | c | d | e | f | g | h, d)
        && holds(a | b | c | d | e | f | g | h, e) && holds(a | b | c | d | e | f | g | h, f)
        && holds(a | b | c | d | e | f | g | h, g) && holds(a | b | c | d | e | f | g | h, h))
        by (bit_vector);
    let p = Flag::ECHO.spec_mask(platform);
    let q = Flag::ECHONL.spec_mask(platform);
    let r = Flag::ICANON.spec_mask(platform);
    let s = Flag::ISIG.spec_mask(platform);
    let t = Flag::IEXTEN.spec_mask(platform);
    assert(holds(p | q | r | s | t, p) && holds(p | q | r | s | t, q) && holds(
        p | q | r | s | t,
        r,
    ) && holds(p | q | r | s | t, s) && holds(p | q | r | s | t, t)) by (bit_vector);
}

/// In raw mode parity is off.
proof fn lemma_parity_off_in_raw(structure: ControlStructure)
    ensures
        !structure.raw().contains(Flag::PARENB),
        structure.raw().parity() == Parity::Off,
{
    let platform = structure.platform;
    let enable = Flag::PARENB.spec_mask(platform);
    let cleared = without_bits(structure.control_flags, enable);
    lemma_cleared_holds_not(structure.control_flags, enable);
    lemma_table_separates(platform);
    lemma_size_field_exhaustive(platform, 0, DataBits::Eight);
    lemma_field_frame(
        cleared,
        platform.spec_csize(),
        DataBits::Eight.spec_pattern(platform),
        enable,
    );
}

impl Termios {
    /// Puts the structure into raw mode: clears the flags by which input and
    /// output are processed, turns parity off, sets eight data bits and lets
    /// a read return with the first byte. Every other bit, the other control
    /// characters and the speeds stay: of the settings, raw mode changes the
    /// data bits, the parity and the blocking mode, and turns software flow
    /// control off. A structure that is put into raw mode a second time does
    /// not change.
    pub fn make_raw(&mut self)
        ensures
            final(self)@ == old(self)@.raw(),
            old(self)@.fits() ==> final(self)@.fits(),
            final(self)@.is_raw(),
            final(self)@.raw() == final(self)@,
            final(self)@.settings() == (Settings {
                blocking_mode: raw_blocking_mode(),
                data_bits: DataBits::Eight,
                flow_control: if old(self)@.flow_control() == FlowControl::Hardware {
                    FlowControl::Hardware
                } else {
                    FlowControl::Off
                },
                parity: Parity::Off,
                ..old(self)@.settings()
            }),
    {
        proof {
            lemma_raw_idempotent(self@);
            lemma_raw_settings(self@);
            let platform = self.platform;
            let input = self.c_iflag;
            let a = Flag::IGNBRK.spec_mask(platform);
            let b = Flag::BRKINT.spec_mask(platform);
            let c = Flag::PARMRK.spec_mask(platform);
            let d = Flag::ISTRIP.spec_mask(platform);
            let e = Flag::INLCR.spec_mask(platform);
            let f = Flag::IGNCR.spec_mask(platform);
            let g = Flag::ICRNL.spec_mask(platform);
            let h = Flag::IXON.spec_mask(platform);
            lemma_union(input, a, b);
            lemma_union(input, a | b, c);
            lemma_union(input, a | b | c, d);
            lemma_union(input, a | b | c | d, e);
            lemma_union(input, a | b | c | d | e, f);
            lemma_union(input, a | b | c | d | e | f, g);
            lemma_union(input, a | b | c | d | e | f | g, h);
            let local = self.c_lflag;
            let p = Flag::ECHO.spec_mask(platform);
            let q = Flag::ECHONL.spec_mask(platform);
            let r = Flag::ICANON.spec_mask(platform);
            let s = Flag::ISIG.spec_mask(platform);
            let t = Flag::IEXTEN.spec_mask(platform);
            lemma_union(local, p, q);
            lemma_union(local, p | q, r);
            lemma_union(local, p | q | r, s);
            lemma_union(local, p | q | r | s, t);
            lemma_raw_is_raw(self@);
        }
        self.clear(Flag::IGNBRK);
        self.clear(Flag::BRKINT);
        self.clear(Flag::PARMRK);
        self.clear(Flag::ISTRIP);
        self.clear(Flag::INLCR);
        self.clear(Flag::IGNCR);
        self.clear(Flag::ICRNL);
        self.clear(Flag::IXON);
        self.clear(Flag::OPOST);
        self.clear(Flag::ECHO);
        self.clear(Flag::ECHONL);
        self.clear(Flag::ICANON);
        self.clear(Flag::ISIG);
        self.clear(Flag::IEXTEN);
        self.set_parity(Parity::Off);
        self.set_data_bits(DataBits::Eight);
        self.set_blocking_mode(BlockingMode { bytes: 1, deciseconds: 0 });
    }
}

} // verus!
