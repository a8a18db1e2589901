use waveshare::common::{
    decode_uart_parameters, effective_address, encode_uart_parameters, Baudrates, Channel,
    CommonHoldingRegisters, Parity,
};

const ALL_CHANNELS: [Channel; 8] = [
    Channel::Channel0,
    Channel::Channel1,
    Channel::Channel2,
    Channel::Channel3,
    Channel::Channel4,
    Channel::Channel5,
    Channel::Channel6,
    Channel::Channel7,
];

const ALL_BAUDRATES: [Baudrates; 8] = [
    Baudrates::B4800,
    Baudrates::B9600,
    Baudrates::B19200,
    Baudrates::B38400,
    Baudrates::B57600,
    Baudrates::B115200,
    Baudrates::B128000,
    Baudrates::B256000,
];

const ALL_PARITIES: [Parity; 3] = [Parity::NoParity, Parity::Even, Parity::Odd];

#[test]
fn common_registers_have_their_fixed_addresses() {
    assert_eq!(CommonHoldingRegisters::UartParameters.address(), 0x2000);
    assert_eq!(CommonHoldingRegisters::DeviceAddress.address(), 0x4000);
    assert_eq!(CommonHoldingRegisters::SoftwareVersion.address(), 0x8000);
}

#[test]
fn channel_numbers_run_from_zero_to_seven() {
    for (number, channel) in ALL_CHANNELS.iter().enumerate() {
        assert_eq!(channel.index() as usize, number);
    }
}

#[test]
fn channel_try_from_accepts_zero_to_seven() {
    for number in 0u8..=7 {
        let channel = Channel::try_from(number).unwrap();
        assert_eq!(channel, ALL_CHANNELS[number as usize]);
        assert_eq!(channel.index(), number as u16);
    }
}

#[test]
fn channel_try_from_rejects_eight_and_above() {
    for number in 8u8..=255 {
        assert_eq!(Channel::try_from(number), Err("Invalid Channel"));
    }
}

#[test]
fn effective_address_is_base_plus_channel() {
    assert_eq!(effective_address(0x0200, Channel::Channel3), 0x0203);
    for base in [0x0000u16, 0x0200, 0x0400, 0x1000] {
        for channel in ALL_CHANNELS {
            assert_eq!(effective_address(base, channel), base + channel.index());
        }
    }
}

#[test]
fn effective_address_reaches_the_last_address() {
    assert_eq!(effective_address(0xFFF8, Channel::Channel7), 0xFFFF);
    assert_eq!(effective_address(0xFFFF, Channel::Channel0), 0xFFFF);
}

#[test]
fn baudrate_codes_are_fixed() {
    let codes: Vec<u16> = ALL_BAUDRATES.iter().map(|b| b.code()).collect();
    assert_eq!(codes, vec![0, 1, 2, 3, 4, 5, 6, 7]);
}

#[test]
fn baudrate_round_trips_through_its_code() {
    for baudrate in ALL_BAUDRATES {
        assert_eq!(Baudrates::from_u16(baudrate.code()), Some(baudrate));
    }
}

#[test]
fn baudrate_rejects_unknown_codes() {
    assert_eq!(Baudrates::from_u16(0x08), None);
    assert_eq!(Baudrates::from_u16(0x0100), None);
    assert_eq!(Baudrates::from_u16(0xFFFF), None);
}

#[test]
fn parity_codes_are_fixed() {
    assert_eq!(Parity::NoParity.code(), 0x00);
    assert_eq!(Parity::Even.code(), 0x01);
    assert_eq!(Parity::Odd.code(), 0x02);
}

#[test]
fn parity_round_trips_through_its_code() {
    for parity in ALL_PARITIES {
        assert_eq!(Parity::from_u16(parity.code()), Some(parity));
    }
}

#[test]
fn parity_rejects_unknown_codes() {
    assert_eq!(Parity::from_u16(0x03), None);
    assert_eq!(Parity::from_u16(0xFFFF), None);
}

#[test]
fn uart_word_packs_parity_high_and_speed_low() {
    assert_eq!(encode_uart_parameters(Parity::Odd, Baudrates::B115200), 0x0205);
    assert_eq!(encode_uart_parameters(Parity::NoParity, Baudrates::B4800), 0x0000);
    assert_eq!(encode_uart_parameters(Parity::Even, Baudrates::B256000), 0x0107);
}

#[test]
fn uart_word_is_parity_shifted_or_speed() {
    for parity in ALL_PARITIES {
        for baudrate in ALL_BAUDRATES {
            assert_eq!(
                encode_uart_parameters(parity, baudrate),
                (parity.code() << 8) | baudrate.code()
            );
        }
    }
}

#[test]
fn uart_word_round_trips() {
    for parity in ALL_PARITIES {
        for baudrate in ALL_BAUDRATES {
            let word = encode_uart_parameters(parity, baudrate);
            assert_eq!(decode_uart_parameters(word), Some((parity, baudrate)));
        }
    }
}

#[test]
fn uart_word_with_unknown_code_is_rejected() {
    assert_eq!(decode_uart_parameters(0x0300), None);
    assert_eq!(decode_uart_parameters(0x0008), None);
    assert_eq!(decode_uart_parameters(0xFFFF), None);
}

#[test]
fn uart_word_decodes_every_known_pair_only() {
    let mut known = 0;
    for word in 0u16..=0xFFFF {
        if let Some((parity, baudrate)) = decode_uart_parameters(word) {
            assert_eq!(encode_uart_parameters(parity, baudrate), word);
            known += 1;
        }
    }
    assert_eq!(known, 24);
}
