//! The settings of a serial line, read from and written to the control
//! structure in the portable vocabulary.

use vstd::prelude::*;
use crate::baud::BaudRate;
use crate::bits::{lemma_fits, lemma_union, with_bits, with_field, without_bits};
use crate::error::Error;
use crate::laws::{
    lemma_set_baud_rate, lemma_set_blocking_mode, lemma_set_data_bits, lemma_set_flow_control,
    lemma_set_parity, lemma_set_stop_bits,
};
use crate::platform::{Char, Flag, Platform};
use crate::termios::{ControlStructure, Termios};
use crate::{BlockingMode, DataBits, Direction, FlowControl, Parity, StopBits};

verus! {

/// What a handle reads of a control structure: every setting of the line.
pub struct Settings {
    pub baud_rate: Result<(BaudRate, BaudRate), Error>,
    pub blocking_mode: BlockingMode,
    pub data_bits: DataBits,
    pub flow_control: FlowControl,
    pub parity: Parity,
    pub stop_bits: StopBits,
}

/// The three input flags that together make software flow control.
pub open spec fn software_flow_mask(platform: Platform) -> u64 {
    Flag::IXANY.mask(platform) | Flag::IXOFF.mask(platform) | Flag::IXON.mask(platform)
}

impl ControlStructure {
    /// Every setting of the line, as the structure holds it.
    pub open spec fn settings(self) -> Settings {
        Settings {
            baud_rate: self.baud_rate(),
            blocking_mode: self.blocking_mode(),
            data_bits: self.data_bits(),
            flow_control: self.flow_control(),
            parity: self.parity(),
            stop_bits: self.stop_bits(),
        }
    }

    /// The flow control that the structure asks for. The hardware flag
    /// decides first; software flow control takes all three of its flags.
    pub open spec fn flow_control(self) -> FlowControl {
        if self.contains(Flag::CRTSCTS) {
            FlowControl::Hardware
        } else if self.contains(Flag::IXANY) && self.contains(Flag::IXOFF) && self.contains(
            Flag::IXON,
        ) {
            FlowControl::Software
        } else {
            FlowControl::Off
        }
    }

    /// The structure with the flow control changed: the hardware flag is set
    /// for hardware flow control and cleared otherwise, the three software
    /// flags are set for software flow control and cleared otherwise.
    pub open spec fn with_flow_control(self, flow: FlowControl) -> ControlStructure {
        ControlStructure {
            input_flags: if flow == FlowControl::Software {
                with_bits(self.input_flags, software_flow_mask(self.platform))
            } else {
                without_bits(self.input_flags, software_flow_mask(self.platform))
            },
            control_flags: if flow == FlowControl::Hardware {
                with_bits(self.control_flags, Flag::CRTSCTS.mask(self.platform))
            } else {
                without_bits(self.control_flags, Flag::CRTSCTS.mask(self.platform))
            },
            ..self
        }
    }

    /// The parity that the structure asks for: none unless parity is enabled,
    /// then odd or even as the second flag says.
    pub open spec fn parity(self) -> Parity {
        if !self.contains(Flag::PARENB) {
            Parity::Off
        } else if self.contains(Flag::PARODD) {
            Parity::Odd
        } else {
            Parity::Even
        }
    }

    /// The structure with the parity changed. Turning parity off clears the
    /// enabling flag and leaves the other as it is.
    pub open spec fn with_parity(self, parity: Parity) -> ControlStructure {
        match parity {
            Parity::Even => self.without_flag(Flag::PARODD).with_flag(Flag::PARENB),
            Parity::Off => self.without_flag(Flag::PARENB),
            Parity::Odd => self.with_flag(Flag::PARENB).with_flag(Flag::PARODD),
        }
    }

    /// The number of data bits that the size field of the control flags
    /// stands for.
    pub open spec fn data_bits(self) -> DataBits {
        DataBits::spec_from_pattern(self.platform, self.control_flags & self.platform.csize())
    }

    /// The structure with the size field overwritten by the pattern of the
    /// given number of data bits.
    pub open spec fn with_data_bits(self, bits: DataBits) -> ControlStructure {
        ControlStructure {
            control_flags: with_field(
                self.control_flags,
                self.platform.csize(),
                bits.pattern(self.platform),
            ),
            ..self
        }
    }

    /// The number of stop bits that the structure asks for.
    pub open spec fn stop_bits(self) -> StopBits {
        if self.contains(Flag::CSTOPB) {
            StopBits::Two
        } else {
            StopBits::One
        }
    }

    /// The structure with the number of stop bits changed.
    pub open spec fn with_stop_bits(self, bits: StopBits) -> ControlStructure {
        match bits {
            StopBits::One => self.without_flag(Flag::CSTOPB),
            StopBits::Two => self.with_flag(Flag::CSTOPB),
        }
    }

    /// The two read thresholds, as the control characters hold them.
    pub open spec fn blocking_mode(self) -> BlockingMode {
        BlockingMode {
            bytes: self.control_char(Char::VMIN),
            deciseconds: self.control_char(Char::VTIME),
        }
    }

    /// The structure with the two read thresholds replaced.
    pub open spec fn with_blocking_mode(self, mode: BlockingMode) -> ControlStructure {
        self.with_control_char(Char::VMIN, mode.bytes).with_control_char(
            Char::VTIME,
            mode.deciseconds,
        )
    }

    /// The rate that a speed code of the structure stands for; a code that
    /// the platform's table does not have is reported with the code.
    pub open spec fn rate_of(self, code: u64) -> Result<BaudRate, Error> {
        match BaudRate::spec_from_code(self.platform, code) {
            Some(rate) => Ok(rate),
            None => Err(Error::UnrecognizedBaudRate(code)),
        }
    }

    /// The input rate.
    pub open spec fn ispeed(self) -> Result<BaudRate, Error> {
        self.rate_of(self.input_speed)
    }

    /// The output rate.
    pub open spec fn ospeed(self) -> Result<BaudRate, Error> {
        self.rate_of(self.output_speed)
    }

    /// The input and the output rate; where a code is not recognized, the
    /// error of the input code comes first.
    pub open spec fn baud_rate(self) -> Result<(BaudRate, BaudRate), Error> {
        match (self.ispeed(), self.ospeed()) {
            (Ok(input), Ok(output)) => Ok((input, output)),
            (Err(error), _) => Err(error),
            (_, Err(error)) => Err(error),
        }
    }

    /// The structure with a speed code written to the input speed, to the
    /// output speed, or to both.
    pub open spec fn with_speed(self, direction: Direction, code: u64) -> ControlStructure {
        ControlStructure {
            input_speed: if direction != Direction::Output {
                code
            } else {
                self.input_speed
            },
            output_speed: if direction != Direction::Input {
                code
            } else {
                self.output_speed
            },
            ..self
        }
    }

    /// Whether a change to the rate is accepted: it is where the platform's
    /// table has the rate, and refused with the rate otherwise.
    pub open spec fn accepts(self, rate: BaudRate) -> Result<(), Error> {
        if rate.supported(self.platform) {
            Ok(())
        } else {
            Err(Error::UnsupportedBaudRate(rate))
        }
    }

    /// The structure with the rate changed in the given direction; unchanged
    /// where the platform's table does not have the rate.
    pub open spec fn with_baud_rate(self, direction: Direction, rate: BaudRate)
        -> ControlStructure {
        match rate.code(self.platform) {
            Some(code) => self.with_speed(direction, code),
            None => self,
        }
    }
}

impl Termios {
    /// The flow control used by the device.
    pub fn flow_control(&self) -> (flow: FlowControl)
        ensures
            flow == self@.flow_control(),
    {
        if self.contains(Flag::CRTSCTS) {
            FlowControl::Hardware
        } else if self.contains(Flag::IXANY) && self.contains(Flag::IXOFF) && self.contains(
            Flag::IXON,
        ) {
            FlowControl::Software
        } else {
            FlowControl::Off
        }
    }

    /// Changes the flow control and leaves every other bit, and so every
    /// other setting, as it is.
    pub fn set_flow_control(&mut self, flow: FlowControl)
        ensures
            final(self)@ == old(self)@.with_flow_control(flow),
            old(self)@.fits() ==> final(self)@.fits(),
            final(self)@.settings() == (Settings { flow_control: flow, ..old(self)@.settings() }),
    {
        proof {
            lemma_set_flow_control(self@, flow);
            let platform = self.platform;
            let any = Flag::IXANY.mask(platform);
            let off = Flag::IXOFF.mask(platform);
            let on = Flag::IXON.mask(platform);
            lemma_union(self.c_iflag, any, off);
            lemma_union(self.c_iflag, any | off, on);
        }
        match flow {
            FlowControl::Hardware => {
                self.clear(Flag::IXANY);
                self.clear(Flag::IXOFF);
                self.clear(Flag::IXON);
                self.set(Flag::CRTSCTS);
            },
            FlowControl::Off => {
                self.clear(Flag::CRTSCTS);
                self.clear(Flag::IXANY);
                self.clear(Flag::IXOFF);
                self.clear(Flag::IXON);
            },
            FlowControl::Software => {
                self.clear(Flag::CRTSCTS);
                self.set(Flag::IXANY);
                self.set(Flag::IXOFF);
                self.set(Flag::IXON);
            },
        }
    }

    /// The parity used by the device.
    pub fn parity(&self) -> (parity: Parity)
        ensures
            parity == self@.parity(),
    {
        match (self.contains(Flag::PARENB), self.contains(Flag::PARODD)) {
            (true, true) => Parity::Odd,
            (true, false) => Parity::Even,
            (false, _) => Parity::Off,
        }
    }

    /// Changes the parity and leaves every other bit, and so every other
    /// setting, as it is.
    pub fn set_parity(&mut self, parity: Parity)
        ensures
            final(self)@ == old(self)@.with_parity(parity),
            old(self)@.fits() ==> final(self)@.fits(),
            final(self)@.settings() == (Settings { parity, ..old(self)@.settings() }),
    {
        proof {
            lemma_set_parity(self@, parity);
        }
        match parity {
            Parity::Even => {
                self.clear(Flag::PARODD);
                self.set(Flag::PARENB);
            },
            Parity::Off => self.clear(Flag::PARENB),
            Parity::Odd => {
                self.set(Flag::PARENB);
                self.set(Flag::PARODD);
            },
        }
    }

    /// The number of data bits per character.
    pub fn data_bits(&self) -> (bits: DataBits)
        ensures
            bits == self@.data_bits(),
    {
        DataBits::from_pattern(self.platform, self.c_cflag & self.platform.csize())
    }

    /// Changes the number of data bits per character and leaves every other
    /// bit, and so every other setting, as it is.
    pub fn set_data_bits(&mut self, bits: DataBits)
        ensures
            final(self)@ == old(self)@.with_data_bits(bits),
            old(self)@.fits() ==> final(self)@.fits(),
            final(self)@.settings() == (Settings { data_bits: bits, ..old(self)@.settings() }),
    {
        proof {
            lemma_set_data_bits(self@, bits);
            if self@.fits() {
                lemma_fits(
                    self.c_cflag,
                    self.platform.spec_csize(),
                    bits.spec_pattern(self.platform),
                    self.platform.spec_word_max(),
                );
            }
        }
        let pattern = bits.pattern(self.platform);
        self.c_cflag = (self.c_cflag & !self.platform.csize()) | pattern;
    }

    /// The number of stop bits per character.
    pub fn stop_bits(&self) -> (bits: StopBits)
        ensures
            bits == self@.stop_bits(),
    {
        if self.contains(Flag::CSTOPB) {
            StopBits::Two
        } else {
            StopBits::One
        }
    }

    /// Changes the number of stop bits per character and leaves every other
    /// bit, and so every other setting, as it is.
    pub fn set_stop_bits(&mut self, bits: StopBits)
        ensures
            final(self)@ == old(self)@.with_stop_bits(bits),
            old(self)@.fits() ==> final(self)@.fits(),
            final(self)@.settings() == (Settings { stop_bits: bits, ..old(self)@.settings() }),
    {
        proof {
            lemma_set_stop_bits(self@, bits);
        }
        match bits {
            StopBits::One => self.clear(Flag::CSTOPB),
            StopBits::Two => self.set(Flag::CSTOPB),
        }
    }

    /// The blocking mode used by the device.
    pub fn blocking_mode(&self) -> (mode: BlockingMode)
        ensures
            mode == self@.blocking_mode(),
    {
        BlockingMode {
            bytes: self.control_char(Char::VMIN),
            deciseconds: self.control_char(Char::VTIME),
        }
    }

    /// Changes the blocking mode and leaves the other control characters,
    /// and every other setting, as they are.
    pub fn set_blocking_mode(&mut self, mode: BlockingMode)
        ensures
            final(self)@ == old(self)@.with_blocking_mode(mode),
            old(self)@.fits() ==> final(self)@.fits(),
            final(self)@.settings() == (Settings { blocking_mode: mode, ..old(self)@.settings() }),
    {
        proof {
            lemma_set_blocking_mode(self@, mode);
        }
        self.set_control_char(Char::VMIN, mode.bytes);
        self.set_control_char(Char::VTIME, mode.deciseconds);
    }

    /// The input rate; `UnrecognizedBaudRate` with the code where the
    /// platform's table does not have the input speed code.
    pub fn ispeed(&self) -> (rate: Result<BaudRate, Error>)
        ensures
            rate == self@.ispeed(),
    {
        match BaudRate::from_code(self.platform, self.c_ispeed) {
            Some(rate) => Ok(rate),
            None => Err(Error::UnrecognizedBaudRate(self.c_ispeed)),
        }
    }

    /// The output rate; `UnrecognizedBaudRate` with the code where the
    /// platform's table does not have the output speed code.
    pub fn ospeed(&self) -> (rate: Result<BaudRate, Error>)
        ensures
            rate == self@.ospeed(),
    {
        match BaudRate::from_code(self.platform, self.c_ospeed) {
            Some(rate) => Ok(rate),
            None => Err(Error::UnrecognizedBaudRate(self.c_ospeed)),
        }
    }

    /// The input and the output baud rate.
    pub fn baud_rate(&self) -> (rates: Result<(BaudRate, BaudRate), Error>)
        ensures
            rates == self@.baud_rate(),
    {
        let input = self.ispeed()?;
        let output = self.ospeed()?;
        Ok((input, output))
    }

    /// Changes the input baud rate and leaves the output rate and every
    /// other setting as they are. Fails with `UnsupportedBaudRate`, and
    /// changes nothing, exactly where the platform's table does not have the
    /// rate.
    pub fn set_ispeed(&mut self, rate: BaudRate) -> (result: Result<(), Error>)
        ensures
            final(self)@ == old(self)@.with_baud_rate(Direction::Input, rate),
            old(self)@.fits() ==> final(self)@.fits(),
            result == old(self)@.accepts(rate),
            result is Err ==> final(self)@ == old(self)@,
            result is Ok ==> final(self)@.ispeed() == Ok::<BaudRate, Error>(rate),
            final(self)@.ospeed() == old(self)@.ospeed(),
    {
        proof {
            if rate.supported(self.platform) {
                lemma_set_baud_rate(self@, Direction::Input, rate);
            }
        }
        match rate.code(self.platform) {
            Some(code) => {
                self.c_ispeed = code;
                Ok(())
            },
            None => Err(Error::UnsupportedBaudRate(rate)),
        }
    }

    /// Changes the output baud rate and leaves the input rate and every
    /// other setting as they are. Fails with `UnsupportedBaudRate`, and
    /// changes nothing, exactly where the platform's table does not have the
    /// rate.
    pub fn set_ospeed(&mut self, rate: BaudRate) -> (result: Result<(), Error>)
        ensures
            final(self)@ == old(self)@.with_baud_rate(Direction::Output, rate),
            old(self)@.fits() ==> final(self)@.fits(),
            result == old(self)@.accepts(rate),
            result is Err ==> final(self)@ == old(self)@,
            result is Ok ==> final(self)@.ospeed() == Ok::<BaudRate, Error>(rate),
            final(self)@.ispeed() == old(self)@.ispeed(),
    {
        proof {
            if rate.supported(self.platform) {
                lemma_set_baud_rate(self@, Direction::Output, rate);
            }
        }
        match rate.code(self.platform) {
            Some(code) => {
                self.c_ospeed = code;
                Ok(())
            },
            None => Err(Error::UnsupportedBaudRate(rate)),
        }
    }

    /// Changes the baud rate of both directions and leaves every other
    /// setting as it is. Fails with `UnsupportedBaudRate`, and changes
    /// nothing, exactly where the platform's table does not have the rate.
    pub fn set_speed(&mut self, rate: BaudRate) -> (result: Result<(), Error>)
        ensures
            final(self)@ == old(self)@.with_baud_rate(Direction::Both, rate),
            old(self)@.fits() ==> final(self)@.fits(),
            result == old(self)@.accepts(rate),
            result is Err ==> final(self)@ == old(self)@,
            result is Ok ==> final(self)@.baud_rate() == Ok::<(BaudRate, BaudRate), Error>(
                (rate, rate),
            ),
    {
        proof {
            if rate.supported(self.platform) {
                lemma_set_baud_rate(self@, Direction::Both, rate);
            }
        }
        match rate.code(self.platform) {
            Some(code) => {
                self.c_ispeed = code;
                self.c_ospeed = code;
                Ok(())
            },
            None => Err(Error::UnsupportedBaudRate(rate)),
        }
    }

    /// Changes the baud rate of the input, of the output or of both, and
    /// leaves the rate of a direction that was not named, and every other
    /// setting, as it is. Fails with `UnsupportedBaudRate`, and changes
    /// nothing, exactly where the platform's table does not have the rate.
    pub fn set_baud_rate(&mut self, direction: Direction, rate: BaudRate) -> (result: Result<
        (),
        Error,
    >)
        ensures
            final(self)@ == old(self)@.with_baud_rate(direction, rate),
            old(self)@.fits() ==> final(self)@.fits(),
            result == old(self)@.accepts(rate),
            result is Err ==> final(self)@ == old(self)@,
            final(self)@.ispeed() == if result is Ok && direction != Direction::Output {
                Ok::<BaudRate, Error>(rate)
            } else {
                old(self)@.ispeed()
            },
            final(self)@.ospeed() == if result is Ok && direction != Direction::Input {
                Ok::<BaudRate, Error>(rate)
            } else {
                old(self)@.ospeed()
            },
            final(self)@.settings() == (Settings {
                baud_rate: final(self)@.baud_rate(),
                ..old(self)@.settings()
            }),
    {
        proof {
            if rate.supported(self.platform) {
                lemma_set_baud_rate(self@, direction, rate);
            }
        }
        match direction {
            Direction::Both => self.set_speed(rate),
            Direction::Input => self.set_ispeed(rate),
            Direction::Output => self.set_ospeed(rate),
        }
    }
}

} // verus!
