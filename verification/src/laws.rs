//! What holds of the codec as a whole: what was written is read back,
//! writing one setting leaves the others as they were, and what is read
//! depends on nothing but the structure.

use vstd::prelude::*;
use crate::baud::BaudRate;
use crate::bits::{
    lemma_cleared_holds_not, lemma_cleared_part_holds_not, lemma_field_frame,
    lemma_field_read_back, lemma_frame, lemma_holds_union, lemma_set_holds, lemma_set_keeps,
    lemma_union_holds,
};
use crate::error::Error;
use crate::platform::{
    lemma_flags_separate, lemma_size_field_exhaustive, lemma_table_separates, Flag,
};
use crate::raw::{lemma_raw_is_raw, raw_blocking_mode};
use crate::settings::{software_flow_mask, Settings};
use crate::termios::{ControlStructure, Termios};
use crate::{BlockingMode, DataBits, Direction, FlowControl, Parity, StopBits};

verus! {

/// A flag that was set is contained, and a flag that was cleared is not.
pub proof fn lemma_flag_read_back(structure: ControlStructure, flag: Flag)
    ensures
        structure.with_flag(flag).contains(flag),
        !structure.without_flag(flag).contains(flag),
{
    let word = structure.word(flag.spec_field());
    lemma_set_holds(word, flag.spec_mask(structure.platform));
    lemma_cleared_holds_not(word, flag.spec_mask(structure.platform));
}

/// Setting or clearing a flag does not change whether any other flag is
/// contained.
pub proof fn lemma_flag_alone(structure: ControlStructure, flag: Flag, other: Flag)
    requires
        other != flag,
    ensures
        structure.with_flag(flag).contains(other) == structure.contains(other),
        structure.without_flag(flag).contains(other) == structure.contains(other),
{
    let platform = structure.platform;
    if other.spec_field() == flag.spec_field() {
        lemma_flags_separate(platform, flag, other);
        lemma_frame(
            structure.word(flag.spec_field()),
            flag.spec_mask(platform),
            other.spec_mask(platform),
        );
    }
}

/// The baud rate that was set is the baud rate that is read, for every rate
/// of the platform's table and in every direction. The direction that was
/// not named keeps its rate, and every other setting stays as it was.
pub proof fn lemma_set_baud_rate(structure: ControlStructure, direction: Direction, rate: BaudRate)
    requires
        rate.spec_supported(structure.platform),
    ensures
        structure.with_baud_rate(direction, rate).ispeed() == if direction != Direction::Output {
            Ok::<BaudRate, Error>(rate)
        } else {
            structure.ispeed()
        },
        structure.with_baud_rate(direction, rate).ospeed() == if direction != Direction::Input {
            Ok::<BaudRate, Error>(rate)
        } else {
            structure.ospeed()
        },
        direction == Direction::Both ==> structure.with_baud_rate(direction, rate).baud_rate()
            == Ok::<(BaudRate, BaudRate), Error>((rate, rate)),
        structure.with_baud_rate(direction, rate).settings() == (Settings {
            baud_rate: structure.with_baud_rate(direction, rate).baud_rate(),
            ..structure.settings()
        }),
{
}

/// The blocking mode that was set is the blocking mode that is read, for
/// every pair of thresholds, and every other setting stays as it was.
pub proof fn lemma_set_blocking_mode(structure: ControlStructure, mode: BlockingMode)
    requires
        structure.wf(),
    ensures
        structure.with_blocking_mode(mode).wf(),
        structure.with_blocking_mode(mode).settings() == (Settings {
            blocking_mode: mode,
            ..structure.settings()
        }),
{
}

/// The number of data bits that was set is the number that is read, and
/// every other setting stays as it was.
pub proof fn lemma_set_data_bits(structure: ControlStructure, bits: DataBits)
    ensures
        structure.with_data_bits(bits).settings() == (Settings {
            data_bits: bits,
            ..structure.settings()
        }),
{
    let platform = structure.platform;
    let control = structure.control_flags;
    let size = platform.spec_csize();
    let pattern = bits.spec_pattern(platform);
    lemma_table_separates(platform);
    lemma_size_field_exhaustive(platform, 0, bits);
    lemma_field_read_back(control, size, pattern);
    lemma_field_frame(control, size, pattern, Flag::CRTSCTS.spec_mask(platform));
    lemma_field_frame(control, size, pattern, Flag::PARENB.spec_mask(platform));
    lemma_field_frame(control, size, pattern, Flag::PARODD.spec_mask(platform));
    lemma_field_frame(control, size, pattern, Flag::CSTOPB.spec_mask(platform));
}

/// The flow control that was set is the flow control that is read, and every
/// other setting stays as it was. After the change the hardware flag is set
/// exactly for hardware flow control and the software flags exactly for
/// software flow control, so the structure never asks for both.
pub proof fn lemma_set_flow_control(structure: ControlStructure, flow: FlowControl)
    ensures
        structure.with_flow_control(flow).settings() == (Settings {
            flow_control: flow,
            ..structure.settings()
        }),
        structure.with_flow_control(flow).contains(Flag::CRTSCTS) <==> flow
            == FlowControl::Hardware,
        structure.with_flow_control(flow).contains(Flag::IXANY) <==> flow
            == FlowControl::Software,
        structure.with_flow_control(flow).contains(Flag::IXOFF) <==> flow
            == FlowControl::Software,
        structure.with_flow_control(flow).contains(Flag::IXON) <==> flow == FlowControl::Software,
{
    let platform = structure.platform;
    let control = structure.control_flags;
    let input = structure.input_flags;
    let hardware = Flag::CRTSCTS.spec_mask(platform);
    let any = Flag::IXANY.spec_mask(platform);
    let off = Flag::IXOFF.spec_mask(platform);
    let on = Flag::IXON.spec_mask(platform);
    let software = software_flow_mask(platform);
    lemma_set_holds(control, hardware);
    lemma_cleared_holds_not(control, hardware);
    lemma_set_holds(input, software);
    lemma_holds_union(input | software, any | off, on);
    lemma_holds_union(input | software, any, off);
    lemma_union_holds(any | off, on);
    lemma_holds_union(software, any, off);
    lemma_cleared_part_holds_not(input, software, any);
    lemma_cleared_part_holds_not(input, software, off);
    lemma_cleared_part_holds_not(input, software, on);
    lemma_table_separates(platform);
    lemma_frame(control, hardware, platform.spec_csize());
    lemma_frame(control, hardware, Flag::PARENB.spec_mask(platform));
    lemma_frame(control, hardware, Flag::PARODD.spec_mask(platform));
    lemma_frame(control, hardware, Flag::CSTOPB.spec_mask(platform));
}

/// The parity that was set is the parity that is read, and every other
/// setting stays as it was.
pub proof fn lemma_set_parity(structure: ControlStructure, parity: Parity)
    ensures
        structure.with_parity(parity).settings() == (Settings {
            parity,
            ..structure.settings()
        }),
{
    let platform = structure.platform;
    let control = structure.control_flags;
    let enable = Flag::PARENB.spec_mask(platform);
    let odd = Flag::PARODD.spec_mask(platform);
    let size = platform.spec_csize();
    let hardware = Flag::CRTSCTS.spec_mask(platform);
    let two = Flag::CSTOPB.spec_mask(platform);
    lemma_table_separates(platform);
    match parity {
        Parity::Even => {
            lemma_cleared_holds_not(control, odd);
            lemma_set_holds(control & !odd, enable);
            lemma_frame(control & !odd, enable, odd);
            lemma_frame(control, odd, size);
            lemma_frame(control, odd, hardware);
            lemma_frame(control, odd, two);
            lemma_frame(control & !odd, enable, size);
            lemma_frame(control & !odd, enable, hardware);
            lemma_frame(control & !odd, enable, two);
        },
        Parity::Off => {
            lemma_cleared_holds_not(control, enable);
            lemma_frame(control, enable, size);
            lemma_frame(control, enable, hardware);
            lemma_frame(control, enable, two);
        },
        Parity::Odd => {
            lemma_set_holds(control, enable);
            lemma_set_holds(control | enable, odd);
            lemma_set_keeps(control | enable, odd, enable);
            lemma_frame(control, enable, size);
            lemma_frame(control, enable, hardware);
            lemma_frame(control, enable, two);
            lemma_frame(control | enable, odd, size);
            lemma_frame(control | enable, odd, hardware);
            lemma_frame(control | enable, odd, two);
        },
    }
}

/// The number of stop bits that was set is the number that is read, and
/// every other setting stays as it was.
pub proof fn lemma_set_stop_bits(structure: ControlStructure, bits: StopBits)
    ensures
        structure.with_stop_bits(bits).settings() == (Settings {
            stop_bits: bits,
            ..structure.settings()
        }),
{
    let platform = structure.platform;
    let control = structure.control_flags;
    let two = Flag::CSTOPB.spec_mask(platform);
    lemma_set_holds(control, two);
    lemma_cleared_holds_not(control, two);
    lemma_table_separates(platform);
    lemma_frame(control, two, platform.spec_csize());
    lemma_frame(control, two, Flag::PARENB.spec_mask(platform));
    lemma_frame(control, two, Flag::PARODD.spec_mask(platform));
    lemma_frame(control, two, Flag::CRTSCTS.spec_mask(platform));
}

/// Raw mode sets eight data bits, no parity and a read that returns with
/// the first byte, and turns software flow control off. The rest of the line
/// stays as it was set up: the stop bits, the baud rates and hardware flow
/// control.
pub proof fn lemma_raw_settings(structure: ControlStructure)
    requires
        structure.wf(),
    ensures
        structure.raw().settings() == (Settings {
            blocking_mode: raw_blocking_mode(),
            data_bits: DataBits::Eight,
            flow_control: if structure.flow_control() == FlowControl::Hardware {
                FlowControl::Hardware
            } else {
                FlowControl::Off
            },
            parity: Parity::Off,
            ..structure.settings()
        }),
{
    let platform = structure.platform;
    let control = structure.control_flags;
    let enable = Flag::PARENB.spec_mask(platform);
    let size = platform.spec_csize();
    let eight = DataBits::Eight.spec_pattern(platform);
    lemma_table_separates(platform);
    lemma_size_field_exhaustive(platform, 0, DataBits::Eight);
    lemma_raw_is_raw(structure);
    lemma_frame(control, enable, Flag::CSTOPB.spec_mask(platform));
    lemma_frame(control, enable, Flag::CRTSCTS.spec_mask(platform));
    lemma_field_frame(control & !enable, size, eight, Flag::CSTOPB.spec_mask(platform));
    lemma_field_frame(control & !enable, size, eight, Flag::CRTSCTS.spec_mask(platform));
}

/// What is read depends on the structure alone: where two fetches return
/// the same structure, as they do with no change in between, every setting
/// reads the same both times.
pub proof fn lemma_reading_is_stable(first: Termios, second: Termios)
    requires
        first@ == second@,
    ensures
        first@.settings() == second@.settings(),
{
}

} // verus!
