use serial::error::{syscall_result, FAILURE, SUCCESS};
use serial::{
    BaudRate, BlockingMode, Char, DataBits, Direction, Error, Flag, FlowControl, Parity, Platform,
    StopBits, Termios,
};

const PLATFORMS: [Platform; 2] = [Platform::Linux, Platform::MacOs];

const FLAGS: [Flag; 20] = [
    Flag::IGNBRK,
    Flag::BRKINT,
    Flag::PARMRK,
    Flag::ISTRIP,
    Flag::INLCR,
    Flag::IGNCR,
    Flag::ICRNL,
    Flag::IXON,
    Flag::IXOFF,
    Flag::IXANY,
    Flag::OPOST,
    Flag::CSTOPB,
    Flag::PARENB,
    Flag::PARODD,
    Flag::CRTSCTS,
    Flag::ECHO,
    Flag::ECHONL,
    Flag::ICANON,
    Flag::ISIG,
    Flag::IEXTEN,
];

/// A structure with every bit of every flag word set.
fn all_set(platform: Platform) -> Termios {
    let mut termios = Termios::new(platform);
    termios.c_iflag = platform.word_max();
    termios.c_oflag = platform.word_max();
    termios.c_cflag = platform.word_max();
    termios.c_lflag = platform.word_max();
    termios
}

/// What a handle reads of a structure, setting by setting.
fn readings(
    termios: &Termios,
) -> (Result<(BaudRate, BaudRate), Error>, BlockingMode, DataBits, FlowControl, Parity, StopBits) {
    (
        termios.baud_rate(),
        termios.blocking_mode(),
        termios.data_bits(),
        termios.flow_control(),
        termios.parity(),
        termios.stop_bits(),
    )
}

#[test]
fn new_structure_is_empty() {
    for platform in PLATFORMS {
        let termios = Termios::new(platform);
        assert_eq!(termios.platform, platform);
        assert_eq!(termios.c_iflag, 0);
        assert_eq!(termios.c_oflag, 0);
        assert_eq!(termios.c_cflag, 0);
        assert_eq!(termios.c_lflag, 0);
        assert_eq!(termios.c_line, 0);
        assert_eq!(termios.c_cc, [0u8; 32]);
        assert_eq!(termios.c_ispeed, 0);
        assert_eq!(termios.c_ospeed, 0);
        assert!(termios.fits());
        for flag in FLAGS {
            assert!(!termios.contains(flag));
        }
    }
}

#[test]
fn empty_structure_reads_as_the_plainest_line() {
    for platform in PLATFORMS {
        let termios = Termios::new(platform);
        assert_eq!(termios.baud_rate(), Ok((BaudRate::B0, BaudRate::B0)));
        assert_eq!(termios.blocking_mode(), BlockingMode { bytes: 0, deciseconds: 0 });
        assert_eq!(termios.data_bits(), DataBits::Five);
        assert_eq!(termios.flow_control(), FlowControl::Off);
        assert_eq!(termios.parity(), Parity::Off);
        assert_eq!(termios.stop_bits(), StopBits::One);
    }
}

#[test]
fn set_and_clear_touch_the_bits_of_the_flag_only() {
    for platform in PLATFORMS {
        for flag in FLAGS {
            let mut termios = Termios::new(platform);
            termios.set(flag);
            assert!(termios.contains(flag));
            let words =
                [termios.c_iflag, termios.c_oflag, termios.c_cflag, termios.c_lflag];
            assert_eq!(words.iter().sum::<u64>(), flag.mask(platform));
            for other in FLAGS {
                if other != flag {
                    assert!(!termios.contains(other), "{:?} sets {:?}", flag, other);
                }
            }

            let mut termios = all_set(platform);
            termios.clear(flag);
            assert!(!termios.contains(flag));
            for other in FLAGS {
                if other != flag {
                    assert!(termios.contains(other), "{:?} clears {:?}", flag, other);
                }
            }
            termios.set(flag);
            assert_eq!(termios, all_set(platform));
        }
    }
}

#[test]
fn parity_bits_on_linux() {
    let mut termios = Termios::new(Platform::Linux);
    termios.set_parity(Parity::Odd);
    assert_eq!(termios.c_cflag, 0x300);
    termios.set_parity(Parity::Even);
    assert_eq!(termios.c_cflag, 0x100);
    termios.set_parity(Parity::Off);
    assert_eq!(termios.c_cflag, 0x000);
}

#[test]
fn parity_bits_on_macos() {
    let mut termios = Termios::new(Platform::MacOs);
    termios.set_parity(Parity::Odd);
    assert_eq!(termios.c_cflag, 0x3000);
    termios.set_parity(Parity::Even);
    assert_eq!(termios.c_cflag, 0x1000);
    termios.set_parity(Parity::Off);
    assert_eq!(termios.c_cflag, 0x0000);
}

#[test]
fn turning_parity_off_leaves_the_odd_flag() {
    for platform in PLATFORMS {
        let mut termios = Termios::new(platform);
        termios.set_parity(Parity::Odd);
        termios.set_parity(Parity::Off);
        assert!(termios.contains(Flag::PARODD));
        assert!(!termios.contains(Flag::PARENB));
        assert_eq!(termios.parity(), Parity::Off);
    }
}

#[test]
fn parity_is_decoded_from_every_pattern() {
    for platform in PLATFORMS {
        for (enable, odd, expected) in [
            (false, false, Parity::Off),
            (false, true, Parity::Off),
            (true, false, Parity::Even),
            (true, true, Parity::Odd),
        ] {
            let mut termios = Termios::new(platform);
            if enable {
                termios.set(Flag::PARENB);
            }
            if odd {
                termios.set(Flag::PARODD);
            }
            assert_eq!(termios.parity(), expected);
        }
    }
}

#[test]
fn flow_control_bits_on_linux() {
    let mut termios = Termios::new(Platform::Linux);
    termios.set_flow_control(FlowControl::Software);
    assert_eq!((termios.c_iflag, termios.c_cflag), (0x1C00, 0));
    termios.set_flow_control(FlowControl::Hardware);
    assert_eq!((termios.c_iflag, termios.c_cflag), (0, 0x8000_0000));
    termios.set_flow_control(FlowControl::Off);
    assert_eq!((termios.c_iflag, termios.c_cflag), (0, 0));
}

#[test]
fn flow_control_bits_on_macos() {
    let mut termios = Termios::new(Platform::MacOs);
    termios.set_flow_control(FlowControl::Software);
    assert_eq!((termios.c_iflag, termios.c_cflag), (0x0E00, 0));
    termios.set_flow_control(FlowControl::Hardware);
    assert_eq!((termios.c_iflag, termios.c_cflag), (0, 0x0003_0000));
    termios.set_flow_control(FlowControl::Off);
    assert_eq!((termios.c_iflag, termios.c_cflag), (0, 0));
}

#[test]
fn flow_control_is_decoded_from_every_pattern() {
    for platform in PLATFORMS {
        for pattern in 0..16u8 {
            let mut termios = Termios::new(platform);
            let hardware = pattern & 1 != 0;
            let software = [pattern & 2 != 0, pattern & 4 != 0, pattern & 8 != 0];
            if hardware {
                termios.set(Flag::CRTSCTS);
            }
            for (flag, on) in [Flag::IXANY, Flag::IXOFF, Flag::IXON].into_iter().zip(software) {
                if on {
                    termios.set(flag);
                }
            }
            let expected = if hardware {
                FlowControl::Hardware
            } else if software == [true, true, true] {
                FlowControl::Software
            } else {
                FlowControl::Off
            };
            assert_eq!(termios.flow_control(), expected);
        }
    }
}

#[test]
fn half_of_the_hardware_flag_is_not_hardware_flow_control() {
    let mut termios = Termios::new(Platform::MacOs);
    termios.c_cflag = 0x0001_0000;
    assert_eq!(termios.flow_control(), FlowControl::Off);
    termios.c_cflag = 0x0002_0000;
    assert_eq!(termios.flow_control(), FlowControl::Off);
    termios.c_cflag = 0x0003_0000;
    assert_eq!(termios.flow_control(), FlowControl::Hardware);
}

#[test]
fn flow_control_never_asks_for_both() {
    for platform in PLATFORMS {
        for flow in [FlowControl::Hardware, FlowControl::Off, FlowControl::Software] {
            let mut termios = all_set(platform);
            termios.set_flow_control(flow);
            assert_eq!(termios.contains(Flag::CRTSCTS), flow == FlowControl::Hardware);
            assert_eq!(termios.contains(Flag::IXANY), flow == FlowControl::Software);
            assert_eq!(termios.contains(Flag::IXOFF), flow == FlowControl::Software);
            assert_eq!(termios.contains(Flag::IXON), flow == FlowControl::Software);
            assert_eq!(termios.flow_control(), flow);
        }
    }
}

#[test]
fn data_bits_patterns() {
    for (platform, patterns) in [
        (Platform::Linux, [0x00u64, 0x10, 0x20, 0x30]),
        (Platform::MacOs, [0x000u64, 0x100, 0x200, 0x300]),
    ] {
        let sizes = [DataBits::Five, DataBits::Six, DataBits::Seven, DataBits::Eight];
        for (bits, pattern) in sizes.into_iter().zip(patterns) {
            let mut termios = Termios::new(platform);
            termios.set_data_bits(bits);
            assert_eq!(termios.c_cflag, pattern);

            let mut termios = all_set(platform);
            termios.set_data_bits(bits);
            assert_eq!(termios.c_cflag, (platform.word_max() & !platform.csize()) | pattern);
            assert_eq!(termios.data_bits(), bits);
        }
    }
}

#[test]
fn stop_bits_flag() {
    for (platform, mask) in [(Platform::Linux, 0x40u64), (Platform::MacOs, 0x400u64)] {
        let mut termios = Termios::new(platform);
        termios.set_stop_bits(StopBits::Two);
        assert_eq!(termios.c_cflag, mask);
        termios.set_stop_bits(StopBits::One);
        assert_eq!(termios.c_cflag, 0);
    }
}

#[test]
fn blocking_mode_slots() {
    for (platform, min, time) in [(Platform::Linux, 6, 5), (Platform::MacOs, 16, 17)] {
        let mut termios = Termios::new(platform);
        termios.set_blocking_mode(BlockingMode { bytes: 12, deciseconds: 34 });
        let mut expected = [0u8; 32];
        expected[min] = 12;
        expected[time] = 34;
        assert_eq!(termios.c_cc, expected);
        assert_eq!(termios.control_char(Char::VMIN), 12);
        assert_eq!(termios.control_char(Char::VTIME), 34);

        termios.set_control_char(Char::VTIME, 0);
        assert_eq!(termios.blocking_mode(), BlockingMode { bytes: 12, deciseconds: 0 });
    }
}

#[test]
fn speed_codes() {
    let mut termios = Termios::new(Platform::Linux);
    assert_eq!(termios.set_baud_rate(Direction::Input, BaudRate::B9600), Ok(()));
    assert_eq!((termios.c_ispeed, termios.c_ospeed), (0x000D, 0));
    assert_eq!(termios.set_baud_rate(Direction::Output, BaudRate::B115200), Ok(()));
    assert_eq!((termios.c_ispeed, termios.c_ospeed), (0x000D, 0x1002));
    assert_eq!(termios.set_baud_rate(Direction::Both, BaudRate::B4000000), Ok(()));
    assert_eq!((termios.c_ispeed, termios.c_ospeed), (0x100F, 0x100F));

    let mut termios = Termios::new(Platform::MacOs);
    assert_eq!(termios.set_ispeed(BaudRate::B9600), Ok(()));
    assert_eq!((termios.c_ispeed, termios.c_ospeed), (9600, 0));
    assert_eq!(termios.set_ospeed(BaudRate::B115200), Ok(()));
    assert_eq!((termios.c_ispeed, termios.c_ospeed), (9600, 115200));
    assert_eq!(termios.set_speed(BaudRate::B76800), Ok(()));
    assert_eq!((termios.c_ispeed, termios.c_ospeed), (76800, 76800));
    assert_eq!(termios.ispeed(), Ok(BaudRate::B76800));
    assert_eq!(termios.ospeed(), Ok(BaudRate::B76800));
}

#[test]
fn zero_rate_is_read_back_from_the_structure() {
    for platform in PLATFORMS {
        let mut termios = Termios::new(platform);
        assert_eq!(termios.set_speed(BaudRate::B9600), Ok(()));
        assert_eq!(termios.set_ispeed(BaudRate::B0), Ok(()));
        assert_eq!(termios.baud_rate(), Ok((BaudRate::B0, BaudRate::B9600)));
    }
}

#[test]
fn unsupported_baud_rate_changes_nothing() {
    for (platform, rate) in
        [(Platform::Linux, BaudRate::B7200), (Platform::MacOs, BaudRate::B460800)]
    {
        for direction in [Direction::Both, Direction::Input, Direction::Output] {
            let mut termios = Termios::new(platform);
            assert_eq!(termios.set_speed(BaudRate::B9600), Ok(()));
            let before = termios;
            assert_eq!(
                termios.set_baud_rate(direction, rate),
                Err(Error::UnsupportedBaudRate(rate))
            );
            assert_eq!(termios, before);
        }
    }
}

#[test]
fn unrecognized_baud_rate_is_reported_with_its_code() {
    let mut termios = Termios::new(Platform::Linux);
    termios.c_ispeed = 0x0010;
    assert_eq!(termios.ispeed(), Err(Error::UnrecognizedBaudRate(0x0010)));
    assert_eq!(termios.ospeed(), Ok(BaudRate::B0));
    assert_eq!(termios.baud_rate(), Err(Error::UnrecognizedBaudRate(0x0010)));

    termios.c_ispeed = 0x000D;
    termios.c_ospeed = 0x1000;
    assert_eq!(termios.ispeed(), Ok(BaudRate::B9600));
    assert_eq!(termios.baud_rate(), Err(Error::UnrecognizedBaudRate(0x1000)));

    termios.c_ispeed = 9600;
    assert_eq!(termios.baud_rate(), Err(Error::UnrecognizedBaudRate(9600)));

    let mut termios = Termios::new(Platform::MacOs);
    termios.c_ospeed = 0x1002;
    assert_eq!(termios.baud_rate(), Err(Error::UnrecognizedBaudRate(0x1002)));
    termios.c_ospeed = 115200;
    assert_eq!(termios.baud_rate(), Ok((BaudRate::B0, BaudRate::B115200)));
}

#[test]
fn status_of_a_system_call() {
    assert_eq!(SUCCESS, 0);
    assert_eq!(FAILURE, -1);
    assert_eq!(syscall_result(SUCCESS, 5), Ok(()));
    assert_eq!(syscall_result(FAILURE, 5), Err(Error::SyscallFailure(5)));
    assert_eq!(syscall_result(FAILURE, 25), Err(Error::SyscallFailure(25)));
}

#[test]
fn raw_mode_on_linux() {
    let mut termios = all_set(Platform::Linux);
    termios.make_raw();
    assert_eq!(termios.c_iflag, 0xFFFF_FA14);
    assert_eq!(termios.c_oflag, 0xFFFF_FFFE);
    assert_eq!(termios.c_cflag, 0xFFFF_FEFF);
    assert_eq!(termios.c_lflag, 0xFFFF_7FB4);
    let mut chars = [0u8; 32];
    chars[6] = 1;
    assert_eq!(termios.c_cc, chars);
}

#[test]
fn raw_mode_on_macos() {
    let mut termios = all_set(Platform::MacOs);
    termios.make_raw();
    assert_eq!(termios.c_iflag, 0xFFFF_FFFF_FFFF_FC14);
    assert_eq!(termios.c_oflag, 0xFFFF_FFFF_FFFF_FFFE);
    assert_eq!(termios.c_cflag, 0xFFFF_FFFF_FFFF_EFFF);
    assert_eq!(termios.c_lflag, 0xFFFF_FFFF_FFFF_FA67);
    let mut chars = [0u8; 32];
    chars[16] = 1;
    assert_eq!(termios.c_cc, chars);
}

#[test]
fn raw_mode_turns_processing_off() {
    for platform in PLATFORMS {
        let mut termios = all_set(platform);
        termios.make_raw();
        for flag in [Flag::ICANON, Flag::ECHO, Flag::ECHONL, Flag::ISIG, Flag::IEXTEN] {
            assert!(!termios.contains(flag));
        }
        for flag in [
            Flag::IGNBRK,
            Flag::BRKINT,
            Flag::PARMRK,
            Flag::ISTRIP,
            Flag::INLCR,
            Flag::IGNCR,
            Flag::ICRNL,
            Flag::IXON,
            Flag::OPOST,
            Flag::PARENB,
        ] {
            assert!(!termios.contains(flag));
        }
        assert_eq!(termios.data_bits(), DataBits::Eight);
        assert_eq!(termios.parity(), Parity::Off);
    }
}

#[test]
fn raw_mode_reads_byte_by_byte() {
    for platform in PLATFORMS {
        let mut termios = Termios::new(platform);
        termios.c_cc = [9u8; 32];
        termios.make_raw();
        assert_eq!(termios.blocking_mode(), BlockingMode { bytes: 1, deciseconds: 0 });
        let mut chars = [9u8; 32];
        chars[Char::VMIN.index(platform)] = 1;
        chars[Char::VTIME.index(platform)] = 0;
        assert_eq!(termios.c_cc, chars);
    }
}

#[test]
fn raw_mode_is_reached_in_one_step() {
    for platform in PLATFORMS {
        for mut termios in [Termios::new(platform), all_set(platform)] {
            termios.make_raw();
            let once = termios;
            termios.make_raw();
            assert_eq!(termios, once);
        }
    }
}

#[test]
fn raw_mode_keeps_the_line() {
    for platform in PLATFORMS {
        let mut termios = Termios::new(platform);
        termios.set_stop_bits(StopBits::Two);
        termios.set_blocking_mode(BlockingMode { bytes: 3, deciseconds: 7 });
        assert_eq!(termios.set_speed(BaudRate::B57600), Ok(()));
        termios.set_flow_control(FlowControl::Hardware);
        termios.c_line = 9;
        termios.make_raw();
        assert_eq!(termios.stop_bits(), StopBits::Two);
        assert_eq!(termios.blocking_mode(), BlockingMode { bytes: 1, deciseconds: 0 });
        assert_eq!(termios.baud_rate(), Ok((BaudRate::B57600, BaudRate::B57600)));
        assert_eq!(termios.flow_control(), FlowControl::Hardware);
        assert_eq!(termios.c_line, 9);

        termios.set_flow_control(FlowControl::Software);
        termios.make_raw();
        assert_eq!(termios.flow_control(), FlowControl::Off);
    }
}

#[test]
fn one_change_at_a_time() {
    for platform in PLATFORMS {
        for start in [Termios::new(platform), all_set(platform)] {
            let before = readings(&start);

            let mut termios = start;
            assert_eq!(termios.set_baud_rate(Direction::Both, BaudRate::B19200), Ok(()));
            let after = readings(&termios);
            assert_eq!(after.0, Ok((BaudRate::B19200, BaudRate::B19200)));
            assert_eq!((after.1, after.2, after.3, after.4, after.5),
                (before.1, before.2, before.3, before.4, before.5));

            let mut termios = start;
            termios.set_blocking_mode(BlockingMode { bytes: 1, deciseconds: 2 });
            let after = readings(&termios);
            assert_eq!(after.1, BlockingMode { bytes: 1, deciseconds: 2 });
            assert_eq!((after.0, after.2, after.3, after.4, after.5),
                (before.0, before.2, before.3, before.4, before.5));

            let mut termios = start;
            termios.set_data_bits(DataBits::Seven);
            let after = readings(&termios);
            assert_eq!(after.2, DataBits::Seven);
            assert_eq!((after.0, after.1, after.3, after.4, after.5),
                (before.0, before.1, before.3, before.4, before.5));

            let mut termios = start;
            termios.set_flow_control(FlowControl::Software);
            let after = readings(&termios);
            assert_eq!(after.3, FlowControl::Software);
            assert_eq!((after.0, after.1, after.2, after.4, after.5),
                (before.0, before.1, before.2, before.4, before.5));

            let mut termios = start;
            termios.set_parity(Parity::Even);
            let after = readings(&termios);
            assert_eq!(after.4, Parity::Even);
            assert_eq!((after.0, after.1, after.2, after.3, after.5),
                (before.0, before.1, before.2, before.3, before.5));

            let mut termios = start;
            termios.set_stop_bits(if before.5 == StopBits::One {
                StopBits::Two
            } else {
                StopBits::One
            });
            let after = readings(&termios);
            assert_ne!(after.5, before.5);
            assert_eq!((after.0, after.1, after.2, after.3, after.4),
                (before.0, before.1, before.2, before.3, before.4));
        }
    }
}

#[test]
fn reading_twice_gives_the_same() {
    for platform in PLATFORMS {
        let mut termios = all_set(platform);
        termios.set_blocking_mode(BlockingMode { bytes: 200, deciseconds: 100 });
        let fetched_again = termios;
        assert_eq!(readings(&termios), readings(&fetched_again));
        assert_eq!(readings(&termios), readings(&termios));
    }
}

#[test]
fn changes_fit_the_word_of_the_platform() {
    for platform in PLATFORMS {
        let mut termios = all_set(platform);
        assert!(termios.fits());
        termios.make_raw();
        termios.set_flow_control(FlowControl::Hardware);
        termios.set_parity(Parity::Odd);
        termios.set_data_bits(DataBits::Six);
        termios.set_stop_bits(StopBits::Two);
        assert_eq!(termios.set_speed(BaudRate::B230400), Ok(()));
        for flag in FLAGS {
            termios.set(flag);
            termios.clear(flag);
        }
        assert!(termios.fits());
    }

    let mut termios = Termios::new(Platform::Linux);
    termios.c_lflag = 0x1_0000_0000;
    assert!(!termios.fits());
    termios.platform = Platform::MacOs;
    assert!(termios.fits());
}
