use serial::BaudRate::{
    B0, B110, B115200, B1200, B134, B150, B1800, B19200, B200, B230400, B2400, B300, B38400,
    B4800, B50, B57600, B600, B75, B9600,
};
use serial::{
    Access, BaudRate, BlockingMode, DataBits, Direction, FlowControl, OpenOptions, Parity,
    Platform, StopBits, Termios,
};

const BAUD_RATES: &'static [BaudRate; 19] = &[
    B0, B50, B75, B110, B134, B150, B200, B300, B600, B1200, B1800, B2400, B4800, B9600, B19200,
    B38400, B57600, B115200, B230400,
];

const PLATFORMS: [Platform; 2] = [Platform::Linux, Platform::MacOs];

/// The control structure of a port that was just opened: in raw mode.
fn opened(platform: Platform) -> Termios {
    let mut termios = Termios::new(platform);
    termios.make_raw();
    termios
}

#[test]
fn bidirectional_baud_rate() {
    for port_ in PLATFORMS {
        let mut port = opened(port_);

        for &rate in BAUD_RATES {
            if let Err(e) = port.set_baud_rate(Direction::Both, rate) {
                panic!("{:?}: Couldn't set both baud rates to {:?} ({:?})", port_, rate, e)
            }
            let got = match port.baud_rate() {
                Err(e) => panic!("{:?}: Couldn't read baud rate ({:?})", port_, e),
                Ok(rate) => rate,
            };

            if (rate, rate) != got {
                panic!("{:?}: set {:?} - got {:?}", port_, rate, got);
            }
        }
    }
}

fn blocking_mode_is_read_back(bytes: u8, deciseconds: u8) -> bool {
    PLATFORMS.iter().all(|&port_| {
        let mut port = opened(port_);

        let mode = BlockingMode { bytes: bytes, deciseconds: deciseconds };
        port.set_blocking_mode(mode);

        port.blocking_mode() == mode
    })
}

#[test]
fn blocking_mode() {
    quickcheck::quickcheck(blocking_mode_is_read_back as fn(u8, u8) -> bool);
}

#[test]
fn blocking_mode_on_every_pair() {
    for bytes in 0..=u8::MAX {
        for deciseconds in 0..=u8::MAX {
            assert!(blocking_mode_is_read_back(bytes, deciseconds));
        }
    }
}

#[test]
fn data_bits() {
    for port_ in PLATFORMS {
        let mut port = opened(port_);

        for &bits in &[DataBits::Five, DataBits::Six, DataBits::Seven, DataBits::Eight] {
            port.set_data_bits(bits);
            let got: DataBits = port.data_bits();

            if bits != got {
                panic!("{:?}: set {:?} - got {:?}", port_, bits, got);
            }
        }
    }
}

#[test]
fn flow_control() {
    for port_ in PLATFORMS {
        let mut port = opened(port_);

        for &flow in &[FlowControl::Hardware, FlowControl::Off, FlowControl::Software] {
            port.set_flow_control(flow);
            let got: FlowControl = port.flow_control();

            if flow != got {
                panic!("{:?}: set {:?} - got {:?}", port_, flow, got)
            }
        }
    }
}

#[test]
fn input_baud_rate() {
    for port_ in PLATFORMS {
        let mut port = opened(port_);

        for &rate in BAUD_RATES {
            // A device takes the zero rate, as input rate, to mean the output rate.
            if rate == B0 {
                continue
            }

            if let Err(e) = port.set_baud_rate(Direction::Input, rate) {
                panic!("{:?}: Couldn't set input baud rate to {:?} ({:?})", port_, rate, e)
            }
            let got = match port.baud_rate() {
                Err(e) => panic!("{:?}: Couldn't read baud rate ({:?})", port_, e),
                Ok(rates) => rates.0,
            };

            if rate != got {
                panic!("{:?}: set {:?} - got {:?}", port_, rate, got)
            }
        }
    }
}

#[test]
fn open() {
    for &read in &[true, false] {
        for &write in &[true, false] {
            let access = OpenOptions::new().read(read).write(write).access();
            let expected = match (read, write) {
                (true, true) => Access::ReadWrite,
                (false, true) => Access::WriteOnly,
                (_, false) => Access::ReadOnly,
            };

            assert_eq!(access, expected);
        }
    }
}

#[test]
fn output_baud_rate() {
    for port_ in PLATFORMS {
        let mut port = opened(port_);

        for &rate in BAUD_RATES {
            if let Err(e) = port.set_baud_rate(Direction::Output, rate) {
                panic!("{:?}: Couldn't set output baud rate to {:?} ({:?})", port_, rate, e)
            }
            let got = match port.baud_rate() {
                Err(e) => panic!("{:?}: Couldn't read baud rate ({:?})", port_, e),
                Ok(rates) => rates.1,
            };

            if rate != got {
                panic!("{:?}: set {:?} - got {:?}", port_, rate, got)
            }
        }
    }
}

#[test]
fn parity() {
    for port_ in PLATFORMS {
        let mut port = opened(port_);

        for &parity in &[Parity::Even, Parity::Off, Parity::Odd] {
            port.set_parity(parity);
            let got: Parity = port.parity();

            if parity != got {
                panic!("{:?}: set {:?} - got {:?}", port_, parity, got)
            }
        }
    }
}

#[test]
fn read_in_write_only_mode() {
    let access = OpenOptions::new().write(true).access();

    assert_eq!(access, Access::WriteOnly);
    assert!(!access.readable());
    assert!(access.writable());
}

#[test]
fn stop_bits() {
    for port_ in PLATFORMS {
        let mut port = opened(port_);

        for &bits in &[StopBits::One, StopBits::Two] {
            port.set_stop_bits(bits);
            let got: StopBits = port.stop_bits();

            if bits != got {
                panic!("{:?}: set {:?} - got {:?}", port_, bits, got)
            }
        }
    }
}

#[test]
fn write_in_read_only_mode() {
    let access = OpenOptions::new().access();

    assert_eq!(access, Access::ReadOnly);
    assert!(access.readable());
    assert!(!access.writable());
}
